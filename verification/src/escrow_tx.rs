//! The escrow transaction planner.
//!
//! One escrow instance fixes an escrow (multisig) address, a buyer
//! payout address, a seller refund address and a flat fee before any
//! funds move.  For each of the four lifecycle intents the planner
//! builds an unsigned transaction template with exactly one input and
//! one output: the right source, the right destination and the right
//! required signer pair, and nothing else.  Signing and broadcasting
//! are a later, external step.

use vstd::prelude::*;
use crate::escrow_policy::EscrowPolicy;

verus! {

/// Errors of template construction over amounts.
#[derive(Clone, Copy, PartialEq, Eq, Structural, Debug)]
pub enum AmountError {
    /// The flat fee is at least the source amount, so the single
    /// output would be zero or negative.
    InsufficientForFee,
}

/// The four transaction intents of the escrow lifecycle.
#[derive(Clone, Copy, PartialEq, Eq, Structural, Debug)]
pub enum Intent {
    /// The seller commits funds: the seller's own coin moves to the
    /// escrow address.
    Funding,
    /// Happy path: the escrow coin moves to the buyer's payout
    /// address once the seller confirms the fiat arrived.
    ReleaseToBuyer,
    /// The arbiter rules the buyer failed to pay: the escrow coin
    /// returns to the seller's refund address.
    RefundToSeller,
    /// The arbiter rules the seller withheld release unfairly: the
    /// escrow coin moves to the buyer's payout address.
    DisputeReleaseToBuyer,
}

/// Which participants must sign a template for it to be valid.
#[derive(Clone, Copy, PartialEq, Eq, Structural, Debug)]
pub struct SignerSet {
    pub seller: bool,
    pub buyer: bool,
    pub arbiter: bool,
}

impl SignerSet {
    /// How many participants the set names.
    pub open spec fn count(&self) -> int {
        (if self.seller { 1int } else { 0int })
            + (if self.buyer { 1int } else { 0int })
            + (if self.arbiter { 1int } else { 0int })
    }

    /// Whether this set of signers meets the escrow's 2-of-3
    /// threshold.
    pub fn meets_threshold(&self) -> (r: bool)
        ensures
            r == (self.count() >= 2),
    {
        let mut signers: u8 = 0;
        if self.seller {
            signers = signers + 1;
        }
        if self.buyer {
            signers = signers + 1;
        }
        if self.arbiter {
            signers = signers + 1;
        }
        signers >= 2
    }
}

/// The fixed signer pair of each intent: funding is signed by the
/// seller alone (it spends the seller's own coin); release needs
/// seller and buyer; refund needs arbiter and seller; dispute release
/// needs arbiter and buyer.
pub open spec fn required_signers(intent: Intent) -> SignerSet {
    match intent {
        Intent::Funding => SignerSet { seller: true, buyer: false, arbiter: false },
        Intent::ReleaseToBuyer => SignerSet { seller: true, buyer: true, arbiter: false },
        Intent::RefundToSeller => SignerSet { seller: true, buyer: false, arbiter: true },
        Intent::DisputeReleaseToBuyer => SignerSet { seller: false, buyer: true, arbiter: true },
    }
}

/// An unsigned transaction template: exactly one input (the source
/// output it spends) and one output (destination and amount), plus
/// the signer pair that must authorize it.  No signature ever appears
/// here; attaching signatures and broadcasting are external steps.
pub struct TxTemplate {
    /// Which lifecycle step this template performs.
    pub intent: Intent,
    /// Identifier (txid text) of the transaction whose output is spent.
    pub source_txid: String,
    /// Value of the source output, in sats.
    pub source_sats: u64,
    /// Address text of the single destination output.
    pub destination: String,
    /// Value of the single output: the source amount minus the flat fee.
    pub output_sats: u64,
    /// The participants that must sign for this template to be valid.
    pub required_signers: SignerSet,
}

/// One escrow instance: the fixed addresses and the flat fee.
/// Created once per trade; the addresses never change afterwards.
pub struct EscrowTransaction {
    /// The multisig address the seller locks sats into.
    pub escrow_address: String,
    /// Where sats go on the happy path (the buyer's address).
    pub buyer_payout_address: String,
    /// Where sats return on refund (the seller's address).
    pub seller_refund_address: String,
    /// The flat fee in satoshis, paid by every template.
    pub fee_sats: u64,
}

impl EscrowTransaction {
    /// The fixed destination of each intent: funding pays the escrow
    /// address; release and dispute release pay the buyer's payout
    /// address; refund pays the seller's refund address.
    pub open spec fn destination_of(&self, intent: Intent) -> Seq<char> {
        match intent {
            Intent::Funding => self.escrow_address@,
            Intent::ReleaseToBuyer => self.buyer_payout_address@,
            Intent::RefundToSeller => self.seller_refund_address@,
            Intent::DisputeReleaseToBuyer => self.buyer_payout_address@,
        }
    }

    /// `t` is exactly the template this instance prescribes for
    /// `intent` from the given source: right source, right
    /// destination, output amount equal to source minus fee, and the
    /// intent's fixed signer pair.
    pub open spec fn template_for(
        &self,
        intent: Intent,
        source_txid: Seq<char>,
        source_sats: u64,
        t: TxTemplate,
    ) -> bool {
        &&& t.intent == intent
        &&& t.source_txid@ == source_txid
        &&& t.source_sats == source_sats
        &&& t.destination@ == self.destination_of(intent)
        &&& t.output_sats == source_sats - self.fee_sats
        &&& t.required_signers == required_signers(intent)
    }

    pub fn new(
        escrow_address: String,
        buyer_payout_address: String,
        seller_refund_address: String,
        fee_sats: u64,
    ) -> (r: Self)
        ensures
            r.escrow_address == escrow_address,
            r.buyer_payout_address == buyer_payout_address,
            r.seller_refund_address == seller_refund_address,
            r.fee_sats == fee_sats,
    {
        Self { escrow_address, buyer_payout_address, seller_refund_address, fee_sats }
    }

    /// Builds the template of any intent from a source output.  The
    /// fee must be strictly below the source amount; otherwise no
    /// partial template is returned, only `InsufficientForFee`.
    pub fn build_template(
        &self,
        intent: Intent,
        source_txid: String,
        source_sats: u64,
    ) -> (r: Result<TxTemplate, AmountError>)
        ensures
            r is Ok <==> self.fee_sats < source_sats,
            r is Ok ==> self.template_for(intent, source_txid@, source_sats, r->Ok_0),
            r is Err ==> r->Err_0 == AmountError::InsufficientForFee,
    {
        if self.fee_sats < source_sats {
            let destination = match intent {
                Intent::Funding => self.escrow_address.clone(),
                Intent::ReleaseToBuyer => self.buyer_payout_address.clone(),
                Intent::RefundToSeller => self.seller_refund_address.clone(),
                Intent::DisputeReleaseToBuyer => self.buyer_payout_address.clone(),
            };
            let signers = match intent {
                Intent::Funding => SignerSet { seller: true, buyer: false, arbiter: false },
                Intent::ReleaseToBuyer => SignerSet { seller: true, buyer: true, arbiter: false },
                Intent::RefundToSeller => SignerSet { seller: true, buyer: false, arbiter: true },
                Intent::DisputeReleaseToBuyer => (SignerSet {
                    seller: false,
                    buyer: true,
                    arbiter: true,
                }),
            };
            Ok(TxTemplate {
                intent,
                source_txid,
                source_sats,
                destination,
                output_sats: source_sats - self.fee_sats,
                required_signers: signers,
            })
        } else {
            Err(AmountError::InsufficientForFee)
        }
    }

    /// Builds the funding template: the seller's own coin moves into
    /// the escrow output.  Only the seller signs.
    pub fn build_funding_tx(&self, seller_utxo: String, amount_sats: u64) -> (r: Result<
        TxTemplate,
        AmountError,
    >)
        ensures
            r is Ok <==> self.fee_sats < amount_sats,
            r is Ok ==> self.template_for(Intent::Funding, seller_utxo@, amount_sats, r->Ok_0),
            r is Err ==> r->Err_0 == AmountError::InsufficientForFee,
    {
        self.build_template(Intent::Funding, seller_utxo, amount_sats)
    }

    /// Builds the happy-path release template: the escrow coin moves
    /// to the buyer's payout address.  Seller and buyer sign.
    pub fn build_release_to_buyer_tx(&self, escrow_utxo: String, amount_sats: u64) -> (r: Result<
        TxTemplate,
        AmountError,
    >)
        ensures
            r is Ok <==> self.fee_sats < amount_sats,
            r is Ok ==> self.template_for(
                Intent::ReleaseToBuyer,
                escrow_utxo@,
                amount_sats,
                r->Ok_0,
            ),
            r is Err ==> r->Err_0 == AmountError::InsufficientForFee,
    {
        self.build_template(Intent::ReleaseToBuyer, escrow_utxo, amount_sats)
    }

    /// Builds the refund template for a dispute the seller wins: the
    /// escrow coin returns to the seller's refund address.  Arbiter
    /// and seller sign.
    pub fn build_refund_to_seller_tx(&self, escrow_utxo: String, amount_sats: u64) -> (r: Result<
        TxTemplate,
        AmountError,
    >)
        ensures
            r is Ok <==> self.fee_sats < amount_sats,
            r is Ok ==> self.template_for(
                Intent::RefundToSeller,
                escrow_utxo@,
                amount_sats,
                r->Ok_0,
            ),
            r is Err ==> r->Err_0 == AmountError::InsufficientForFee,
    {
        self.build_template(Intent::RefundToSeller, escrow_utxo, amount_sats)
    }

    /// Builds the dispute-release template for a dispute the buyer
    /// wins: the escrow coin moves to the buyer's payout address.
    /// Arbiter and buyer sign.
    pub fn build_dispute_release_to_buyer_tx(
        &self,
        escrow_utxo: String,
        amount_sats: u64,
    ) -> (r: Result<TxTemplate, AmountError>)
        ensures
            r is Ok <==> self.fee_sats < amount_sats,
            r is Ok ==> self.template_for(
                Intent::DisputeReleaseToBuyer,
                escrow_utxo@,
                amount_sats,
                r->Ok_0,
            ),
            r is Err ==> r->Err_0 == AmountError::InsufficientForFee,
    {
        self.build_template(Intent::DisputeReleaseToBuyer, escrow_utxo, amount_sats)
    }
}

/// The set of participant keys behind a signer set, for a given
/// escrow policy.
pub open spec fn signer_keys(p: &EscrowPolicy, s: SignerSet) -> Set<Seq<char>> {
    let with_seller = if s.seller {
        Set::<Seq<char>>::empty().insert(p.seller@)
    } else {
        Set::<Seq<char>>::empty()
    };
    let with_buyer = if s.buyer {
        with_seller.insert(p.buyer@)
    } else {
        with_seller
    };
    if s.arbiter {
        with_buyer.insert(p.arbiter@)
    } else {
        with_buyer
    }
}

/// For distinct participant keys, a signer set authorizes the 2-of-3
/// policy exactly when it names at least two participants: who signs
/// matters only through how many of the three distinct keys sign.
pub proof fn lemma_authorization_is_signer_count(p: &EscrowPolicy, s: SignerSet)
    requires
        p.distinct_keys(),
    ensures
        p.authorizes(signer_keys(p, s)) <==> s.count() >= 2,
{
}

/// Every resolution template is structurally consistent with the
/// 2-of-3 escrow policy: its required pair authorizes a spend of the
/// escrow output.  The funding template spends the seller's own coin
/// instead, and indeed its single signer does not meet the escrow
/// threshold.
pub proof fn lemma_signer_pairs_match_policy(p: &EscrowPolicy)
    requires
        p.distinct_keys(),
    ensures
        p.authorizes(signer_keys(p, required_signers(Intent::ReleaseToBuyer))),
        p.authorizes(signer_keys(p, required_signers(Intent::RefundToSeller))),
        p.authorizes(signer_keys(p, required_signers(Intent::DisputeReleaseToBuyer))),
        !p.authorizes(signer_keys(p, required_signers(Intent::Funding))),
{
}

/// The refund and the dispute-release template of one disputed escrow
/// spend the very same source output, to opposite destinations.  The
/// settlement network confirms an output's spend at most once, so at
/// most one of the two can ever confirm; the other is then a double
/// spend of the same source.
pub proof fn lemma_resolutions_conflict(
    tx: &EscrowTransaction,
    escrow_utxo: Seq<char>,
    amount_sats: u64,
    refund: TxTemplate,
    dispute: TxTemplate,
)
    requires
        tx.template_for(Intent::RefundToSeller, escrow_utxo, amount_sats, refund),
        tx.template_for(Intent::DisputeReleaseToBuyer, escrow_utxo, amount_sats, dispute),
    ensures
        refund.source_txid@ == dispute.source_txid@,
        refund.destination@ == tx.seller_refund_address@,
        dispute.destination@ == tx.buyer_payout_address@,
        refund.output_sats == dispute.output_sats,
{
}

/// Lifecycle states of one escrow instance.
#[derive(Clone, Copy, PartialEq, Eq, Structural, Debug)]
pub enum EscrowState {
    /// Addresses and fee are fixed; no funds have moved.
    Created,
    /// The funding transaction confirmed; the escrow output exists.
    Funded,
    /// The release template confirmed; the buyer was paid.
    Released,
    /// The refund template confirmed; the seller was repaid.
    Refunded,
    /// The dispute-release template confirmed; the buyer was paid.
    DisputeReleased,
}

/// The state an instance reaches when the given intent's transaction
/// confirms, or `None` where the lifecycle admits no such step:
/// `Created` is left only by funding, `Funded` only by one of the
/// three resolutions, and the three resolved states are terminal.
pub open spec fn spec_transition(state: EscrowState, confirmed: Intent) -> Option<EscrowState> {
    match (state, confirmed) {
        (EscrowState::Created, Intent::Funding) => Some(EscrowState::Funded),
        (EscrowState::Funded, Intent::ReleaseToBuyer) => Some(EscrowState::Released),
        (EscrowState::Funded, Intent::RefundToSeller) => Some(EscrowState::Refunded),
        (EscrowState::Funded, Intent::DisputeReleaseToBuyer) => Some(EscrowState::DisputeReleased),
        _ => None,
    }
}

/// Advances the lifecycle when the given intent's transaction
/// confirms.
pub fn transition(state: EscrowState, confirmed: Intent) -> (r: Option<EscrowState>)
    ensures
        r == spec_transition(state, confirmed),
{
    match (state, confirmed) {
        (EscrowState::Created, Intent::Funding) => Some(EscrowState::Funded),
        (EscrowState::Funded, Intent::ReleaseToBuyer) => Some(EscrowState::Released),
        (EscrowState::Funded, Intent::RefundToSeller) => Some(EscrowState::Refunded),
        (EscrowState::Funded, Intent::DisputeReleaseToBuyer) => Some(EscrowState::DisputeReleased),
        _ => None,
    }
}

/// The three resolved states are terminal: no confirmation of any
/// intent moves an instance out of them.
pub proof fn lemma_resolved_states_terminal(state: EscrowState, confirmed: Intent)
    requires
        state is Released || state is Refunded || state is DisputeReleased,
    ensures
        spec_transition(state, confirmed) is None,
{
}

} // verus!
