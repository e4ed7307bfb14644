use tint::commitment::{
    AssetId, BaseCommitment, NullifiableCommitment, NullifierKey, NullifierPubKey,
    SpendableCommitment,
};
use tint::field::FieldElement;
use tint::provider::{
    account_for, bound_params_hash, spendability_inputs, unshield_recipients, AccountIdentity,
    OperationContext, ProviderError,
};

fn fe(b: u8) -> FieldElement {
    FieldElement { bytes: [b; 32] }
}

fn note(npk: u8, sh: u8) -> NullifiableCommitment {
    NullifiableCommitment::new(
        BaseCommitment::new(AssetId([1; 20]), 10, fe(sh), NullifierPubKey(fe(npk)), [0; 32]),
        NullifierKey(fe(9)),
    )
}

fn identity(npk: u8, sh: u8) -> AccountIdentity {
    AccountIdentity { nullifier_pub_key: NullifierPubKey(fe(npk)), spendability_hash: fe(sh) }
}

#[test]
fn account_for_finds_first_matching_account() {
    let accounts = [identity(1, 2), identity(3, 4), identity(3, 4)];
    assert!(matches!(account_for(&accounts, &note(3, 4)), Ok(1)));
    assert!(matches!(account_for(&accounts, &note(1, 2)), Ok(0)));
}

#[test]
fn account_for_needs_both_keys_to_match() {
    let accounts = [identity(1, 2), identity(3, 4)];
    match account_for(&accounts, &note(1, 4)) {
        Err(ProviderError::UnknownSpendingAccount { nullifier_pub_key, spendability_hash }) => {
            assert_eq!(nullifier_pub_key.0.bytes, [1; 32]);
            assert_eq!(spendability_hash.bytes, [4; 32]);
        }
        _ => panic!("expected an unknown spending account"),
    }
    assert!(matches!(
        account_for(&[], &note(1, 2)),
        Err(ProviderError::UnknownSpendingAccount { .. })
    ));
}

fn spendable(input: &[u8]) -> SpendableCommitment {
    let mut s = note(1, 2).as_pending_spendable();
    s.spendability_input = input.to_vec();
    s
}

#[test]
fn spendability_inputs_pad_with_empty_bytes() {
    let inputs = [spendable(&[1]), spendable(&[2, 3])];
    let r = spendability_inputs(&inputs);
    assert_eq!(r, [vec![1], vec![2, 3], vec![], vec![], vec![]]);
    let none: [SpendableCommitment; 0] = [];
    assert_eq!(spendability_inputs(&none), [vec![], vec![], vec![], vec![], vec![]]);
}

#[test]
fn unshield_recipients_pad_with_zero_address() {
    let w = [([7u8; 20], AssetId([1; 20]), 5u128)];
    assert_eq!(unshield_recipients(&w), [[7u8; 20], [0u8; 20]]);
    let w2 = [([7u8; 20], AssetId([1; 20]), 5u128), ([8u8; 20], AssetId([2; 20]), 6u128)];
    assert_eq!(unshield_recipients(&w2), [[7u8; 20], [8u8; 20]]);
}

fn word(n: usize) -> Vec<u8> {
    let mut w = vec![0u8; 32];
    w[24..].copy_from_slice(&(n as u64).to_be_bytes());
    w
}

fn enc_bytes(b: &[u8]) -> Vec<u8> {
    let mut out = word(b.len());
    out.extend_from_slice(b);
    while out.len() % 32 != 0 {
        out.push(0);
    }
    out
}

fn enc_dynamic_array(items: &[Vec<u8>]) -> Vec<u8> {
    let tails: Vec<Vec<u8>> = items.iter().map(|b| enc_bytes(b)).collect();
    let mut head = Vec::new();
    let mut tail = Vec::new();
    for t in &tails {
        head.extend(word(32 * tails.len() + tail.len()));
        tail.extend_from_slice(t);
    }
    head.extend(tail);
    head
}

fn expected_encoding(c: &OperationContext) -> Vec<u8> {
    let a = enc_dynamic_array(&c.spendability_inputs);
    let b = enc_dynamic_array(&c.ciphertexts);
    let mut out = word(32);
    out.extend(word(128));
    out.extend(word(128 + a.len()));
    for r in &c.unshield_recipients {
        out.extend_from_slice(&[0u8; 12]);
        out.extend_from_slice(r);
    }
    out.extend(a);
    out.extend(b);
    out
}

fn context() -> OperationContext {
    OperationContext {
        spendability_inputs: [vec![1, 2], vec![], b"abc".repeat(20), vec![], vec![0xff]],
        ciphertexts: [vec![], b"x".to_vec(), vec![], vec![], vec![]],
        unshield_recipients: [[7u8; 20], [0u8; 20]],
    }
}

#[test]
fn bound_params_hash_is_keccak_of_abi_encoding_reduced() {
    let c = context();
    let digest = alloy_primitives::keccak256(expected_encoding(&c));
    let expected = FieldElement::from_be_bytes_mod_order(digest.as_slice());
    assert_eq!(bound_params_hash(&c).bytes, expected.bytes);
}

#[test]
fn bound_params_hash_depends_on_every_field() {
    let base = bound_params_hash(&context()).bytes;
    let mut c = context();
    c.unshield_recipients[1] = [1u8; 20];
    assert_ne!(bound_params_hash(&c).bytes, base);
    let mut c = context();
    c.ciphertexts[4] = vec![0];
    assert_ne!(bound_params_hash(&c).bytes, base);
    let mut c = context();
    c.spendability_inputs[1] = vec![0];
    assert_ne!(bound_params_hash(&c).bytes, base);
}
