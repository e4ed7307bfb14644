use tint::commitment::{
    AssetId, BaseCommitment, Commitment, NullifiableCommitment, NullifierKey, NullifierPubKey,
    PartialCommitment,
};
use tint::field::FieldElement;

fn fe(b: u8) -> FieldElement {
    FieldElement { bytes: [b; 32] }
}

fn sample() -> BaseCommitment {
    BaseCommitment::new(AssetId([1; 20]), 100, fe(3), NullifierPubKey(fe(4)), [5; 32])
}

#[test]
fn new_sets_fields() {
    let c = sample();
    assert_eq!(c.asset.0, [1; 20]);
    assert_eq!(c.amount, 100);
    assert_eq!(c.spendability_hash.bytes, [3; 32]);
    assert_eq!(c.nullifier_pub_key.0.bytes, [4; 32]);
    assert_eq!(c.random, [5; 32]);
}

#[test]
fn partial_round_trips() {
    let c = sample();
    let p = c.partial();
    let back = BaseCommitment::from_partial(c.asset, c.amount, p);
    assert_eq!(back.asset.0, c.asset.0);
    assert_eq!(back.amount, c.amount);
    assert_eq!(back.spendability_hash.bytes, c.spendability_hash.bytes);
    assert_eq!(back.random, c.random);
    assert_eq!(back.nullifier_pub_key.0.bytes, c.nullifier_pub_key.0.bytes);

    let p2 = PartialCommitment::new(fe(7), NullifierPubKey(fe(8)), [9; 32]);
    let full = BaseCommitment::from_partial(AssetId([2; 20]), 42, p2);
    let again = full.partial();
    assert_eq!(again.spendability_hash.bytes, [7; 32]);
    assert_eq!(again.nullifier_pub_key.0.bytes, [8; 32]);
    assert_eq!(again.random, [9; 32]);
    assert_eq!(full.amount, 42);
}

#[test]
fn amount_fr_encodes_the_amount() {
    let c = sample();
    let mut expected = [0u8; 32];
    expected[31] = 100;
    assert_eq!(c.amount_fr().bytes, expected);

    let big = BaseCommitment::new(AssetId([0; 20]), u128::MAX, fe(0), NullifierPubKey(fe(0)), [0; 32]);
    let mut expected = [0u8; 32];
    for b in expected[16..].iter_mut() {
        *b = 0xff;
    }
    assert_eq!(big.amount_fr().bytes, expected);
}

#[test]
fn wrappers_delegate_to_inner_commitment() {
    let note = NullifiableCommitment::new(sample(), NullifierKey(fe(6)));
    assert_eq!(note.amount_fr().bytes, sample().amount_fr().bytes);
    assert_eq!(note.spendability_hash().bytes, [3; 32]);
    assert_eq!(note.nullifier_pub_key().0.bytes, [4; 32]);
}

#[test]
fn pending_spendable_keeps_note_and_clears_rule() {
    let note = NullifiableCommitment::new(sample(), NullifierKey(fe(6)));
    let s = note.as_pending_spendable();
    assert_eq!(s.inner.amount, 100);
    assert_eq!(s.inner.random, [5; 32]);
    assert_eq!(s.nullifier_key.0.bytes, [6; 32]);
    assert_eq!(s.spendability_address, [0; 20]);
    assert_eq!(s.spendability_witness_fr().bytes, [0; 32]);
    assert!(s.spendability_input.is_empty());
    assert_eq!(s.amount_fr().bytes, note.amount_fr().bytes);
    assert_eq!(s.spendability_hash().bytes, [3; 32]);
}

#[test]
fn field_element_reduces_modulo_order() {
    let r = FieldElement::from_be_bytes_mod_order(&[0xff; 32]);
    let expected: [u8; 32] = [
        0x0e, 0x0a, 0x77, 0xc1, 0x9a, 0x07, 0xdf, 0x2f, 0x66, 0x6e, 0xa3, 0x6f, 0x78, 0x79, 0x46, 0x2e,
        0x36, 0xfc, 0x76, 0x95, 0x9f, 0x60, 0xcd, 0x29, 0xac, 0x96, 0x34, 0x1c, 0x4f, 0xff, 0xff, 0xfa,
    ];
    assert_eq!(r.bytes, expected);
    let small = FieldElement::from_be_bytes_mod_order(&[1, 2]);
    let mut expected = [0u8; 32];
    expected[30] = 1;
    expected[31] = 2;
    assert_eq!(small.bytes, expected);
    assert!(small.same(&FieldElement { bytes: expected }));
    assert!(!small.same(&FieldElement::zero()));
}
