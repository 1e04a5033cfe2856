//! The 2-of-3 escrow spending policy.
//!
//! Three participants take part in a trade:
//! - the seller locks sats into escrow (selling BTC for fiat),
//! - the buyer sends fiat and receives the sats on the happy path,
//! - the arbiter resolves disputes.
//!
//! Any two of the three may authorize a spend of the escrow output.
//! The policy is rendered as a concrete miniscript policy expression
//! `thresh(2,pk(S),pk(B),pk(A))` over the participants' public keys.

use vstd::prelude::*;
use vstd::string::*;

verus! {

/// Errors of policy construction and compilation.
#[derive(Clone, Copy, PartialEq, Eq, Structural, Debug)]
pub enum PolicyError {
    /// The descriptor text does not compile as a concrete policy.
    MalformedDescriptor,
    /// Two participants share a key, which would silently weaken the
    /// 2-of-3 threshold to a single signature.
    DuplicateKeys,
}

/// The three participant public keys of one escrow instance, each
/// held as the key's textual (hex) form.
///
/// The struct performs no validation on construction; callers must
/// reject duplicate keys (see [`EscrowPolicy::check_distinct_keys`])
/// before deriving the spending policy.
pub struct EscrowPolicy {
    /// Key of the party that locks sats into escrow.
    pub seller: String,
    /// Key of the party that pays fiat and receives the sats.
    pub buyer: String,
    /// Key of the tie-breaking third party.
    pub arbiter: String,
}

/// The concrete policy expression for a 2-of-3 threshold over the
/// given keys: `thresh(2,pk(seller),pk(buyer),pk(arbiter))`.
pub open spec fn policy_text(seller: Seq<char>, buyer: Seq<char>, arbiter: Seq<char>) -> Seq<char> {
    "thresh(2,pk("@ + seller + "),pk("@ + buyer + "),pk("@ + arbiter + "))"@
}

impl EscrowPolicy {
    /// No two participants share a key.
    pub open spec fn distinct_keys(&self) -> bool {
        &&& self.seller@ != self.buyer@
        &&& self.seller@ != self.arbiter@
        &&& self.buyer@ != self.arbiter@
    }

    /// How many of the three participant keys appear in `signed`, the
    /// set of keys that produced a valid signature.  A key that two
    /// roles share is counted once per role, which is exactly how a
    /// duplicated key weakens the threshold.
    pub open spec fn signed_key_count(&self, signed: Set<Seq<char>>) -> int {
        (if signed.contains(self.seller@) { 1int } else { 0int })
            + (if signed.contains(self.buyer@) { 1int } else { 0int })
            + (if signed.contains(self.arbiter@) { 1int } else { 0int })
    }

    /// The threshold condition of [`policy_text`]: a spend is
    /// authorized when at least two of the three listed keys have
    /// signed.
    pub open spec fn authorizes(&self, signed: Set<Seq<char>>) -> bool {
        self.signed_key_count(signed) >= 2
    }

    pub fn new(seller: String, buyer: String, arbiter: String) -> (r: Self)
        ensures
            r.seller == seller,
            r.buyer == buyer,
            r.arbiter == arbiter,
    {
        Self { seller, buyer, arbiter }
    }

    /// Rejects instances whose participants share a key.  The policy
    /// renderer itself performs no validation, so every caller must
    /// pass this check before deriving the spending condition.
    pub fn check_distinct_keys(&self) -> (r: Result<(), PolicyError>)
        ensures
            r is Ok <==> self.distinct_keys(),
            r is Err ==> r->Err_0 == PolicyError::DuplicateKeys,
    {
        if self.seller == self.buyer || self.seller == self.arbiter || self.buyer == self.arbiter {
            Err(PolicyError::DuplicateKeys)
        } else {
            Ok(())
        }
    }

    /// Renders the 2-of-3 threshold policy expression over the three
    /// keys, in the fixed participant order seller, buyer, arbiter.
    pub fn to_miniscript_policy(&self) -> (r: String)
        ensures
            r@ == policy_text(self.seller@, self.buyer@, self.arbiter@),
    {
        let mut out = String::new();
        out.append("thresh(2,pk(");
        out.append(self.seller.as_str());
        out.append("),pk(");
        out.append(self.buyer.as_str());
        out.append("),pk(");
        out.append(self.arbiter.as_str());
        out.append("))");
        proof {
            assert(out@ =~= policy_text(self.seller@, self.buyer@, self.arbiter@));
        }
        out
    }
}

/// A compiled 2-of-3 spending condition: miniscript's concrete
/// policy tree over the three participant keys.  The tree itself is
/// opaque here; it is carried through unchanged to the script and
/// signing layer.
#[verifier::external_body]
pub struct CompiledPolicy {
    inner: miniscript::policy::Concrete<bitcoin::PublicKey>,
}

#[verifier::external_type_specification]
#[verifier::external_body]
pub struct ExMiniscriptError(miniscript::Error);

/// Whether miniscript's concrete-policy parser accepts the given
/// descriptor text.  Parsing is deterministic: its outcome is a
/// function of the text alone.
pub uninterp spec fn policy_compiles(s: Seq<char>) -> bool;

/// Relies on miniscript's `FromStr` for concrete policies: the text
/// is parsed into a concrete policy tree, or rejected with a parse
/// error.  Whether the text parses depends on the text alone, named
/// by [`policy_compiles`].
#[verifier::external_body]
fn compile_policy_text(s: &str) -> (r: Result<CompiledPolicy, miniscript::Error>)
    ensures
        r is Ok <==> policy_compiles(s@),
{
    let parsed = <miniscript::policy::Concrete<bitcoin::PublicKey> as core::str::FromStr>::from_str(
        s,
    )?;
    Ok(CompiledPolicy { inner: parsed })
}

/// Folds the outcome of policy compilation into the library's error
/// taxonomy: a compiled policy passes through unchanged, and any
/// compilation failure becomes `MalformedDescriptor`; nothing else is
/// ever substituted.
fn compile_outcome(r: Result<CompiledPolicy, miniscript::Error>) -> (out: Result<
    CompiledPolicy,
    PolicyError,
>)
    ensures
        out is Ok <==> r is Ok,
        r is Ok ==> out->Ok_0 == r->Ok_0,
        out is Err ==> out->Err_0 == PolicyError::MalformedDescriptor,
{
    match r {
        Ok(policy) => Ok(policy),
        Err(_) => Err(PolicyError::MalformedDescriptor),
    }
}

impl EscrowPolicy {
    /// Compiles the rendered policy expression into a concrete
    /// miniscript policy.  The text handed to the compiler is exactly
    /// [`policy_text`] over the three keys, and the call succeeds
    /// exactly when the compiler accepts that text; whenever the
    /// compiler rejects it, the error is `MalformedDescriptor` and
    /// never a silently substituted policy.
    pub fn parse(&self) -> (r: Result<CompiledPolicy, PolicyError>)
        ensures
            r is Ok <==> policy_compiles(policy_text(self.seller@, self.buyer@, self.arbiter@)),
            r is Err ==> r->Err_0 == PolicyError::MalformedDescriptor,
    {
        let policy_str = self.to_miniscript_policy();
        compile_outcome(compile_policy_text(policy_str.as_str()))
    }
}

/// The policy is a real 2-of-3 threshold, neither 1-of-3 nor 3-of-3:
/// with distinct keys, any pair of participants authorizes a spend,
/// while no single participant and no empty signer set does.
pub proof fn lemma_threshold_is_two_of_three(p: &EscrowPolicy)
    requires
        p.distinct_keys(),
    ensures
        p.authorizes(set![p.seller@, p.buyer@]),
        p.authorizes(set![p.seller@, p.arbiter@]),
        p.authorizes(set![p.buyer@, p.arbiter@]),
        !p.authorizes(set![p.seller@]),
        !p.authorizes(set![p.buyer@]),
        !p.authorizes(set![p.arbiter@]),
        !p.authorizes(Set::<Seq<char>>::empty()),
{
}

/// With a duplicated key the threshold degrades: the doubled
/// participant alone already authorizes a spend, which is why
/// duplicate keys must be rejected before the policy is used.
pub proof fn lemma_duplicate_key_weakens_threshold(p: &EscrowPolicy)
    requires
        p.seller@ == p.buyer@,
    ensures
        p.authorizes(set![p.seller@]),
{
}

} // verus!
