//! Decisions of the provider that builds calls against a `Tint` deployment:
//! which registered account authorizes spending a note, and how the inputs
//! and withdrawals of an operation fill the circuit's fixed slots.

use vstd::prelude::*;
use vstd::slice::slice_to_vec;

use crate::commitment::{AssetId, BaseCommitment, NullifiableCommitment, NullifierPubKey, SpendableCommitment};
use crate::field::{FieldElement, be_value, modulus};
use alloy_sol_types::SolValue;
use crate::bytes::AddressBytes;
use crate::indexer::IndexerError;

verus! {

/// The number of input slots of an operation.
pub const N_INPUTS: usize = 5;

/// The number of output slots of an operation.
pub const N_OUTPUTS: usize = 5;

/// The number of withdrawal slots of an operation.
pub const N_WITHDRAWALS: usize = 2;

/// Errors of the provider.
#[derive(Debug)]
pub enum ProviderError {
    /// More inputs, outputs, or withdrawals than this operation supports.
    TooManySlots,
    /// An input commitment is not present in the tree: not yet synced, or
    /// already spent.
    InputNotFound,
    /// The generated proof is invalid.
    InvalidProof,
    /// The indexer failed.
    Indexer(IndexerError),
    /// The Merkle tree refused an update.
    MerkleTree(String),
    /// The circuit could not be synthesized.
    Synthesis(String),
    /// A commitment could not be encrypted or decrypted.
    Commitment(String),
    /// The proof could not be compressed.
    Compression(String),
    /// The spending account failed.
    Spending(String),
    /// No registered account authorizes spending the note.
    UnknownSpendingAccount { nullifier_pub_key: NullifierPubKey, spendability_hash: FieldElement },
}

/// What identifies a registered account as the one that may spend a note:
/// the public key of its nullifying account and the spendability hash of its
/// spending account.
#[derive(Clone, Copy, Debug)]
pub struct AccountIdentity {
    pub nullifier_pub_key: NullifierPubKey,
    pub spendability_hash: FieldElement,
}

/// Whether `account` authorizes spending `note`.
pub open spec fn authorizes(account: AccountIdentity, note: NullifiableCommitment) -> bool {
    &&& account.nullifier_pub_key.0.bytes@ == note.inner.nullifier_pub_key.0.bytes@
    &&& account.spendability_hash.bytes@ == note.inner.spendability_hash.bytes@
}

/// An account authorizes a note exactly when its nullifier public key and
/// spendability hash are the note's; the note's asset, amount and randomness
/// play no part.
pub proof fn law_authorizes_by_keys_only(account: AccountIdentity, note: NullifiableCommitment, other: BaseCommitment)
    requires
        other.nullifier_pub_key == note.inner.nullifier_pub_key,
        other.spendability_hash == note.inner.spendability_hash,
    ensures
        authorizes(account, note) == (account.nullifier_pub_key.0.bytes@ == note.inner.nullifier_pub_key.0.bytes@
            && account.spendability_hash.bytes@ == note.inner.spendability_hash.bytes@),
        authorizes(account, note) == authorizes(account, NullifiableCommitment { inner: other, ..note }),
{
}

/// Finds the first registered account whose identity matches `note`, and
/// returns its position.
pub fn account_for(accounts: &[AccountIdentity], note: &NullifiableCommitment) -> (r: Result<usize, ProviderError>)
    ensures
        match r {
            Ok(i) => {
                &&& i < accounts@.len()
                &&& authorizes(accounts@[i as int], *note)
                &&& accounts@[i as int].nullifier_pub_key.0.bytes@ == note.inner.nullifier_pub_key.0.bytes@
                &&& accounts@[i as int].spendability_hash.bytes@ == note.inner.spendability_hash.bytes@
                &&& forall|j: int| 0 <= j < i ==> !authorizes(#[trigger] accounts@[j], *note)
            },
            Err(ProviderError::UnknownSpendingAccount { nullifier_pub_key, spendability_hash }) => {
                &&& forall|j: int| 0 <= j < accounts@.len() ==> !authorizes(#[trigger] accounts@[j], *note)
                &&& forall|j: int| 0 <= j < accounts@.len() ==> !(
                    (#[trigger] accounts@[j]).nullifier_pub_key.0.bytes@ == note.inner.nullifier_pub_key.0.bytes@
                    && accounts@[j].spendability_hash.bytes@ == note.inner.spendability_hash.bytes@)
                &&& nullifier_pub_key == note.inner.nullifier_pub_key
                &&& spendability_hash == note.inner.spendability_hash
            },
            Err(_) => false,
        },
{
    let mut i: usize = 0;
    while i < accounts.len()
        invariant
            i <= accounts@.len(),
            forall|j: int| 0 <= j < i ==> !authorizes(#[trigger] accounts@[j], *note),
        decreases accounts@.len() - i,
    {
        let account = &accounts[i];
        if account.nullifier_pub_key.0.same(&note.inner.nullifier_pub_key.0)
            && account.spendability_hash.same(&note.inner.spendability_hash) {
            return Ok(i);
        }
        i = i + 1;
    }
    Err(ProviderError::UnknownSpendingAccount {
        nullifier_pub_key: note.inner.nullifier_pub_key,
        spendability_hash: note.inner.spendability_hash,
    })
}

/// The spendability inputs of an operation's input slots: those of
/// `inputs`, then empty ones.
pub fn spendability_inputs<const I: usize>(inputs: &[SpendableCommitment; I]) -> (r: [Vec<u8>; N_INPUTS])
    requires
        I <= N_INPUTS,
    ensures
        forall|j: int| 0 <= j < N_INPUTS ==> #[trigger] r@[j]@ == if j < I {
            inputs@[j].spendability_input@
        } else {
            Seq::<u8>::empty()
        },
{
    let mut r: [Vec<u8>; N_INPUTS] = [Vec::new(), Vec::new(), Vec::new(), Vec::new(), Vec::new()];
    let mut i: usize = 0;
    while i < I
        invariant
            i <= I <= N_INPUTS,
            forall|j: int| 0 <= j < N_INPUTS ==> #[trigger] r@[j]@ == if j < i {
                inputs@[j].spendability_input@
            } else {
                Seq::<u8>::empty()
            },
        decreases I - i,
    {
        r[i] = slice_to_vec(inputs[i].spendability_input.as_slice());
        i = i + 1;
    }
    r
}

/// The recipients of an operation's withdrawal slots: those of
/// `withdrawals`, then the zero address.
pub fn unshield_recipients<const W: usize>(withdrawals: &[(AddressBytes, AssetId, u128); W]) -> (r: [AddressBytes; N_WITHDRAWALS])
    requires
        W <= N_WITHDRAWALS,
    ensures
        forall|j: int| 0 <= j < N_WITHDRAWALS ==> #[trigger] r@[j]@ == if j < W {
            withdrawals@[j].0@
        } else {
            Seq::new(20, |k: int| 0u8)
        },
{
    let zero: AddressBytes = [0u8; 20];
    assert(zero@ =~= Seq::new(20, |k: int| 0u8));
    let mut r: [AddressBytes; N_WITHDRAWALS] = [zero, zero];
    let mut i: usize = 0;
    while i < W
        invariant
            i <= W <= N_WITHDRAWALS,
            forall|j: int| 0 <= j < N_WITHDRAWALS ==> #[trigger] r@[j]@ == if j < i {
                withdrawals@[j].0@
            } else {
                Seq::new(20, |k: int| 0u8)
            },
        decreases W - i,
    {
        r[i] = withdrawals[i].0;
        i = i + 1;
    }
    r
}

/// The data that an operation binds its proof to.
#[derive(Clone, Debug)]
pub struct OperationContext {
    pub spendability_inputs: [Vec<u8>; N_INPUTS],
    pub ciphertexts: [Vec<u8>; N_OUTPUTS],
    pub unshield_recipients: [AddressBytes; N_WITHDRAWALS],
}

/// The Solidity ABI encoding of the struct
/// `Context { bytes[5] spendabilityInputs; bytes[5] ciphertexts; address[2] unshieldRecipients; }`
/// with the given fields.
pub uninterp spec fn context_abi_encoding(
    spendability_inputs: Seq<Seq<u8>>,
    ciphertexts: Seq<Seq<u8>>,
    unshield_recipients: Seq<Seq<u8>>,
) -> Seq<u8>;

/// The Keccak-256 digest of a byte string.
pub uninterp spec fn keccak256_digest(data: Seq<u8>) -> Seq<u8>;

/// The views of the fields of a context, in field order.
pub open spec fn context_inputs_view(c: OperationContext) -> Seq<Seq<u8>> {
    c.spendability_inputs@.map_values(|v: Vec<u8>| v@)
}

pub open spec fn context_ciphertexts_view(c: OperationContext) -> Seq<Seq<u8>> {
    c.ciphertexts@.map_values(|v: Vec<u8>| v@)
}

pub open spec fn context_recipients_view(c: OperationContext) -> Seq<Seq<u8>> {
    c.unshield_recipients@.map_values(|a: AddressBytes| a@)
}

/// The hash that binds an operation's proof to its context, as the
/// contract's `ProofLib.toBoundParamsHash` computes it: the Keccak-256
/// digest of the context's ABI encoding, read big-endian and reduced into
/// the scalar field.
pub open spec fn spec_bound_params_hash(c: OperationContext) -> nat {
    be_value(keccak256_digest(context_abi_encoding(
        context_inputs_view(c),
        context_ciphertexts_view(c),
        context_recipients_view(c),
    ))) % modulus()
}

/// The bound-params hash is the Keccak-256 digest of the ABI encoding of
/// the whole context, each field taken unmodified, read big-endian and
/// reduced modulo the field's modulus.
pub proof fn law_bound_params_hash_covers_whole_context(c: OperationContext)
    ensures
        context_inputs_view(c).len() == N_INPUTS,
        context_ciphertexts_view(c).len() == N_OUTPUTS,
        context_recipients_view(c).len() == N_WITHDRAWALS,
        forall|j: int| 0 <= j < N_INPUTS ==> #[trigger] context_inputs_view(c)[j] == c.spendability_inputs@[j]@,
        forall|j: int| 0 <= j < N_OUTPUTS ==> #[trigger] context_ciphertexts_view(c)[j] == c.ciphertexts@[j]@,
        forall|j: int| 0 <= j < N_WITHDRAWALS ==> #[trigger] context_recipients_view(c)[j] == c.unshield_recipients@[j]@,
        spec_bound_params_hash(c) == be_value(keccak256_digest(context_abi_encoding(
            c.spendability_inputs@.map_values(|v: Vec<u8>| v@),
            c.ciphertexts@.map_values(|v: Vec<u8>| v@),
            c.unshield_recipients@.map_values(|a: AddressBytes| a@),
        ))) % modulus(),
{
}

/// Calls `SolValue::abi_encode` of `alloy_sol_types` on the tuple
/// `([Bytes; 5], [Bytes; 5], [Address; 2])` of the context's fields, which
/// encodes as the struct `Context` does. Trusted: the result is that
/// encoding, named `context_abi_encoding`.
#[verifier::external_body]
fn abi_encode_context(context: &OperationContext) -> (r: Vec<u8>)
    ensures
        r@ == context_abi_encoding(
            context_inputs_view(*context),
            context_ciphertexts_view(*context),
            context_recipients_view(*context),
        ),
{
    let inputs = context.spendability_inputs.clone().map(alloy_primitives::Bytes::from);
    let ciphertexts = context.ciphertexts.clone().map(alloy_primitives::Bytes::from);
    let recipients = context.unshield_recipients.map(alloy_primitives::Address::from);
    (inputs, ciphertexts, recipients).abi_encode()
}

/// Calls `alloy_primitives::keccak256`. Trusted: the result is the
/// Keccak-256 digest of `data`, named `keccak256_digest`.
#[verifier::external_body]
fn keccak256(data: &[u8]) -> (r: [u8; 32])
    ensures
        r@ == keccak256_digest(data@),
{
    alloy_primitives::keccak256(data).0
}

/// Mirrors `ProofLib.toBoundParamsHash`.
pub fn bound_params_hash(context: &OperationContext) -> (r: FieldElement)
    ensures
        r.value() == spec_bound_params_hash(*context),
        r.value() == be_value(keccak256_digest(context_abi_encoding(
            context.spendability_inputs@.map_values(|v: Vec<u8>| v@),
            context.ciphertexts@.map_values(|v: Vec<u8>| v@),
            context.unshield_recipients@.map_values(|a: AddressBytes| a@),
        ))) % modulus(),
{
    let encoded = abi_encode_context(context);
    let digest = keccak256(encoded.as_slice());
    FieldElement::from_be_bytes_mod_order(digest.as_slice())
}

} // verus!
