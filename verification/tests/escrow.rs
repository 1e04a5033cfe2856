use btc_escrow::amount::{decode_sats, encode_sats};
use btc_escrow::escrow_policy::{EscrowPolicy, PolicyError};
use btc_escrow::escrow_tx::{
    transition, AmountError, EscrowState, EscrowTransaction, Intent, SignerSet,
};

// Three distinct valid compressed secp256k1 public keys (the
// generator point and its first two multiples).
const SELLER_KEY: &str = "0279be667ef9dcbbac55a06295ce870b07029bfcdb2dce28d959f2815b16f81798";
const BUYER_KEY: &str = "02c6047f9441ed7d6d3045406e95c07cd85c778e4b8cef3ca7abac09b95c709ee5";
const ARBITER_KEY: &str = "02f9308a019258c31049344f85f89d5229b531c845836f99b08601f113bce036f9";

fn policy() -> EscrowPolicy {
    EscrowPolicy::new(
        SELLER_KEY.to_string(),
        BUYER_KEY.to_string(),
        ARBITER_KEY.to_string(),
    )
}

fn instance(fee_sats: u64) -> EscrowTransaction {
    EscrowTransaction::new(
        "escrow_multisig_address".to_string(),
        "buyer_payout_address".to_string(),
        "seller_refund_address".to_string(),
        fee_sats,
    )
}

#[test]
fn test_policy_roles_documented() {
    // This test just validates our understanding of the flow:
    //
    // SELLER has sats, wants fiat -> locks sats in escrow
    // BUYER has fiat, wants sats -> sends fiat, then receives sats
    //
    // The 2-of-3 multisig determines WHO the sats go to:
    //   Seller + Buyer sign -> Buyer gets sats (happy path)
    //   Arbiter + Seller sign -> Seller gets refund (buyer lied)
    //   Arbiter + Buyer sign -> Buyer gets sats (seller lied)
    //
    // The DESTINATION ADDRESS in the release TX determines the recipient,
    // not the policy itself. The policy just controls who can authorize.
    assert!(true);
}

#[test]
fn test_descriptor_text_exact() {
    let p = EscrowPolicy::new("KS".to_string(), "KB".to_string(), "KA".to_string());
    assert_eq!(p.to_miniscript_policy(), "thresh(2,pk(KS),pk(KB),pk(KA))");
}

#[test]
fn test_descriptor_is_order_sensitive() {
    let p = policy();
    let expected = format!(
        "thresh(2,pk({}),pk({}),pk({}))",
        SELLER_KEY, BUYER_KEY, ARBITER_KEY
    );
    assert_eq!(p.to_miniscript_policy(), expected);
}

#[test]
fn test_distinct_keys_accepted() {
    assert!(policy().check_distinct_keys().is_ok());
}

#[test]
fn test_duplicate_keys_rejected() {
    let p = EscrowPolicy::new(
        SELLER_KEY.to_string(),
        SELLER_KEY.to_string(),
        ARBITER_KEY.to_string(),
    );
    assert_eq!(p.check_distinct_keys(), Err(PolicyError::DuplicateKeys));
}

#[test]
fn test_parse_valid_descriptor() {
    assert!(policy().parse().is_ok());
}

#[test]
fn test_parse_malformed_descriptor() {
    let p = EscrowPolicy::new(
        "not a key".to_string(),
        BUYER_KEY.to_string(),
        ARBITER_KEY.to_string(),
    );
    assert!(matches!(p.parse(), Err(PolicyError::MalformedDescriptor)));
}

#[test]
fn test_release_template_example() {
    // Escrow UTXO of 100000 sats with a flat fee of 500 releases
    // exactly 99500 sats to the buyer payout address, under the
    // seller + buyer signature pair.
    let tx = instance(500);
    let t = tx
        .build_release_to_buyer_tx("escrow_outpoint".to_string(), 100000)
        .unwrap();
    assert_eq!(t.intent, Intent::ReleaseToBuyer);
    assert_eq!(t.source_txid, "escrow_outpoint");
    assert_eq!(t.source_sats, 100000);
    assert_eq!(t.output_sats, 99500);
    assert_eq!(t.destination, "buyer_payout_address");
    assert_eq!(
        t.required_signers,
        SignerSet {
            seller: true,
            buyer: true,
            arbiter: false
        }
    );
}

#[test]
fn test_destination_table() {
    let tx = instance(500);
    let utxo = || "some_outpoint".to_string();
    let funding = tx.build_funding_tx(utxo(), 100000).unwrap();
    let release = tx.build_release_to_buyer_tx(utxo(), 100000).unwrap();
    let refund = tx.build_refund_to_seller_tx(utxo(), 100000).unwrap();
    let dispute = tx.build_dispute_release_to_buyer_tx(utxo(), 100000).unwrap();

    assert_eq!(funding.destination, "escrow_multisig_address");
    assert_eq!(release.destination, "buyer_payout_address");
    assert_eq!(refund.destination, "seller_refund_address");
    assert_eq!(dispute.destination, "buyer_payout_address");
}

#[test]
fn test_signer_table() {
    let tx = instance(1);
    let utxo = || "some_outpoint".to_string();
    let funding = tx.build_funding_tx(utxo(), 2).unwrap();
    let release = tx.build_release_to_buyer_tx(utxo(), 2).unwrap();
    let refund = tx.build_refund_to_seller_tx(utxo(), 2).unwrap();
    let dispute = tx.build_dispute_release_to_buyer_tx(utxo(), 2).unwrap();

    let pair = |seller, buyer, arbiter| SignerSet {
        seller,
        buyer,
        arbiter,
    };
    assert_eq!(funding.required_signers, pair(true, false, false));
    assert_eq!(release.required_signers, pair(true, true, false));
    assert_eq!(refund.required_signers, pair(true, false, true));
    assert_eq!(dispute.required_signers, pair(false, true, true));
}

#[test]
fn test_output_amount_exact() {
    let tx = instance(137);
    let utxo = || "some_outpoint".to_string();
    for build in [
        tx.build_funding_tx(utxo(), 100000),
        tx.build_release_to_buyer_tx(utxo(), 100000),
        tx.build_refund_to_seller_tx(utxo(), 100000),
        tx.build_dispute_release_to_buyer_tx(utxo(), 100000),
    ] {
        let t = build.unwrap();
        assert_eq!(t.output_sats, 100000 - 137);
        // No unit drift: the wire encoding of the output amount
        // decodes back to the same integer.
        assert_eq!(decode_sats(&encode_sats(t.output_sats)), Some(t.output_sats));
    }
}

#[test]
fn test_insufficient_fee_rejected() {
    let tx = instance(100000);
    let utxo = || "some_outpoint".to_string();
    // fee == amount: the output would be zero, so it fails too.
    assert!(matches!(
        tx.build_release_to_buyer_tx(utxo(), 100000),
        Err(AmountError::InsufficientForFee)
    ));
    assert!(matches!(
        tx.build_funding_tx(utxo(), 99999),
        Err(AmountError::InsufficientForFee)
    ));
    assert!(matches!(
        tx.build_refund_to_seller_tx(utxo(), 0),
        Err(AmountError::InsufficientForFee)
    ));
    assert!(matches!(
        tx.build_dispute_release_to_buyer_tx(utxo(), 1),
        Err(AmountError::InsufficientForFee)
    ));
    // One sat above the fee is the smallest amount that builds.
    assert!(tx.build_release_to_buyer_tx(utxo(), 100001).is_ok());
}

#[test]
fn test_refund_and_dispute_conflict() {
    // Both resolution templates are constructible from the same
    // escrow UTXO, but a ledger that spends each output at most once
    // confirms only the first of them.
    let tx = instance(500);
    let refund = tx
        .build_refund_to_seller_tx("escrow_outpoint".to_string(), 100000)
        .unwrap();
    let dispute = tx
        .build_dispute_release_to_buyer_tx("escrow_outpoint".to_string(), 100000)
        .unwrap();
    assert_eq!(refund.source_txid, dispute.source_txid);
    assert_ne!(refund.destination, dispute.destination);

    let mut spent_outputs: Vec<String> = Vec::new();

    // Confirm the refund: its source output was unspent, so the mock
    // ledger accepts it and marks the output spent.
    assert!(!spent_outputs.contains(&refund.source_txid));
    spent_outputs.push(refund.source_txid.clone());

    // The dispute release now double-spends the same output, so the
    // ledger rejects it.
    assert!(spent_outputs.contains(&dispute.source_txid));
}

#[test]
fn test_lifecycle_transitions() {
    assert_eq!(
        transition(EscrowState::Created, Intent::Funding),
        Some(EscrowState::Funded)
    );
    assert_eq!(
        transition(EscrowState::Funded, Intent::ReleaseToBuyer),
        Some(EscrowState::Released)
    );
    assert_eq!(
        transition(EscrowState::Funded, Intent::RefundToSeller),
        Some(EscrowState::Refunded)
    );
    assert_eq!(
        transition(EscrowState::Funded, Intent::DisputeReleaseToBuyer),
        Some(EscrowState::DisputeReleased)
    );
    // No resolution before funding, no double funding, and the three
    // resolved states are terminal.
    assert_eq!(transition(EscrowState::Created, Intent::ReleaseToBuyer), None);
    assert_eq!(transition(EscrowState::Funded, Intent::Funding), None);
    for state in [
        EscrowState::Released,
        EscrowState::Refunded,
        EscrowState::DisputeReleased,
    ] {
        for intent in [
            Intent::Funding,
            Intent::ReleaseToBuyer,
            Intent::RefundToSeller,
            Intent::DisputeReleaseToBuyer,
        ] {
            assert_eq!(transition(state, intent), None);
        }
    }
}

#[test]
fn test_threshold_is_two_of_three() {
    // Any two participants meet the threshold; no single participant
    // and no empty signer set does, and all three do too.
    let pair = |seller, buyer, arbiter| SignerSet {
        seller,
        buyer,
        arbiter,
    };
    assert!(pair(true, true, false).meets_threshold());
    assert!(pair(true, false, true).meets_threshold());
    assert!(pair(false, true, true).meets_threshold());
    assert!(pair(true, true, true).meets_threshold());
    assert!(!pair(true, false, false).meets_threshold());
    assert!(!pair(false, true, false).meets_threshold());
    assert!(!pair(false, false, true).meets_threshold());
    assert!(!pair(false, false, false).meets_threshold());
}

#[test]
fn test_amount_codec() {
    // One exact byte-level expectation.
    assert_eq!(
        encode_sats(0x0123456789abcdef),
        vec![0xef, 0xcd, 0xab, 0x89, 0x67, 0x45, 0x23, 0x01]
    );
    for v in [0u64, 1, 255, 256, 99500, u64::MAX] {
        assert_eq!(decode_sats(&encode_sats(v)), Some(v));
    }
    // Any length other than 8 bytes is rejected.
    assert_eq!(decode_sats(&vec![1, 2, 3]), None);
    assert_eq!(decode_sats(&vec![0; 9]), None);
}
