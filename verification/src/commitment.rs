//! The note-commitment data model: a note's committed data, the partial
//! commitment that a depositor posts, and the key material that makes a
//! note nullifiable and spendable.

use vstd::prelude::*;

use crate::field::FieldElement;
use crate::bytes::{AddressBytes, Word};

verus! {

/// The asset that a note holds: the address of its token contract.
#[derive(Clone, Copy, Debug, Default)]
pub struct AssetId(pub AddressBytes);

/// The public key that a note's nullifier is bound to.
#[derive(Clone, Copy, Debug, Default)]
pub struct NullifierPubKey(pub FieldElement);

/// The secret key that derives a note's nullifier.
#[derive(Clone, Copy, Debug, Default)]
pub struct NullifierKey(pub FieldElement);

/// What a commitment commits to, seen through any of the commitment types.
pub trait Commitment {
    /// The receivable commitment underneath.
    spec fn base(&self) -> BaseCommitment;

    /// The committed amount as a field element.
    fn amount_fr(&self) -> (r: FieldElement)
        ensures
            r.value() == self.base().amount,
    ;

    /// The hash of the rule that authorizes spending the note.
    fn spendability_hash(&self) -> (r: FieldElement)
        ensures
            r == self.base().spendability_hash,
    ;

    /// The public key that the note's nullifier is bound to.
    fn nullifier_pub_key(&self) -> (r: NullifierPubKey)
        ensures
            r == self.base().nullifier_pub_key,
    ;
}

/// A commitment that can be spent and nullified.
#[derive(Clone, Debug)]
pub struct SpendableCommitment {
    pub inner: BaseCommitment,
    pub nullifier_key: NullifierKey,
    pub spendability_address: AddressBytes,
    pub spendability_witness: FieldElement,
    pub spendability_input: Vec<u8>,
}

/// A commitment that can be nullified.
#[derive(Clone, Copy, Debug)]
pub struct NullifiableCommitment {
    pub inner: BaseCommitment,
    pub nullifier_key: NullifierKey,
}

/// A receivable commitment.
#[derive(Clone, Copy, Debug, Default)]
pub struct BaseCommitment {
    pub asset: AssetId,
    pub amount: u128,
    pub spendability_hash: FieldElement,
    pub random: Word,
    pub nullifier_pub_key: NullifierPubKey,
}

/// The part of a commitment that does not depend on the asset and amount.
#[derive(Clone, Copy, Debug, Default)]
pub struct PartialCommitment {
    pub spendability_hash: FieldElement,
    pub random: Word,
    pub nullifier_pub_key: NullifierPubKey,
}

impl SpendableCommitment {
    /// The witness of the spendability rule.
    pub fn spendability_witness_fr(&self) -> (r: FieldElement)
        ensures
            r == self.spendability_witness,
    {
        self.spendability_witness
    }
}

impl NullifiableCommitment {
    pub fn new(inner: BaseCommitment, nullifier_key: NullifierKey) -> (r: Self)
        ensures
            r.inner == inner,
            r.nullifier_key == nullifier_key,
    {
        NullifiableCommitment { inner, nullifier_key }
    }

    /// Builds a [`SpendableCommitment`] carrying this note's real committed
    /// data but no resolved spendability rule: a zero address, a zero
    /// witness and an empty input.
    pub fn as_pending_spendable(&self) -> (r: SpendableCommitment)
        ensures
            r.inner == self.inner,
            r.nullifier_key == self.nullifier_key,
            r.spendability_address@ == Seq::new(20, |i: int| 0u8),
            r.spendability_witness.bytes@ == Seq::new(32, |i: int| 0u8),
            r.spendability_input@ == Seq::<u8>::empty(),
    {
        let r = SpendableCommitment {
            inner: self.inner,
            nullifier_key: self.nullifier_key,
            spendability_address: [0u8; 20],
            spendability_witness: FieldElement::zero(),
            spendability_input: Vec::new(),
        };
        assert(r.spendability_address@ =~= Seq::new(20, |i: int| 0u8));
        r
    }
}

impl BaseCommitment {
    pub fn new(
        asset: AssetId,
        amount: u128,
        spendability_hash: FieldElement,
        nullifier_pub_key: NullifierPubKey,
        random: Word,
    ) -> (r: Self)
        ensures
            r == (BaseCommitment { asset, amount, spendability_hash, random, nullifier_pub_key }),
    {
        BaseCommitment { asset, amount, spendability_hash, random, nullifier_pub_key }
    }

    /// Completes a partial commitment with the asset and amount.
    pub fn from_partial(asset: AssetId, amount: u128, partial: PartialCommitment) -> (r: Self)
        ensures
            r == complete(asset, amount, partial),
            r.asset == asset,
            r.amount == amount,
            r.spendability_hash == partial.spendability_hash,
            r.random == partial.random,
            r.nullifier_pub_key == partial.nullifier_pub_key,
    {
        BaseCommitment {
            asset,
            amount,
            spendability_hash: partial.spendability_hash,
            random: partial.random,
            nullifier_pub_key: partial.nullifier_pub_key,
        }
    }

    /// The part of the commitment that does not depend on asset and amount.
    pub fn partial(&self) -> (r: PartialCommitment)
        ensures
            r == partial_of(*self),
            r.spendability_hash == self.spendability_hash,
            r.random == self.random,
            r.nullifier_pub_key == self.nullifier_pub_key,
    {
        PartialCommitment {
            spendability_hash: self.spendability_hash,
            random: self.random,
            nullifier_pub_key: self.nullifier_pub_key,
        }
    }
}

impl PartialCommitment {
    pub fn new(spendability_hash: FieldElement, nullifier_pub_key: NullifierPubKey, random: Word) -> (r: Self)
        ensures
            r == (PartialCommitment { spendability_hash, random, nullifier_pub_key }),
    {
        PartialCommitment { spendability_hash, random, nullifier_pub_key }
    }
}

impl Commitment for BaseCommitment {
    open spec fn base(&self) -> BaseCommitment {
        *self
    }

    fn amount_fr(&self) -> (r: FieldElement) {
        FieldElement::from_u128(self.amount)
    }

    fn spendability_hash(&self) -> (r: FieldElement) {
        self.spendability_hash
    }

    fn nullifier_pub_key(&self) -> (r: NullifierPubKey) {
        self.nullifier_pub_key
    }
}

impl Commitment for NullifiableCommitment {
    open spec fn base(&self) -> BaseCommitment {
        self.inner
    }

    fn amount_fr(&self) -> (r: FieldElement) {
        self.inner.amount_fr()
    }

    fn spendability_hash(&self) -> (r: FieldElement) {
        self.inner.spendability_hash()
    }

    fn nullifier_pub_key(&self) -> (r: NullifierPubKey) {
        self.inner.nullifier_pub_key()
    }
}

impl Commitment for SpendableCommitment {
    open spec fn base(&self) -> BaseCommitment {
        self.inner
    }

    fn amount_fr(&self) -> (r: FieldElement) {
        self.inner.amount_fr()
    }

    fn spendability_hash(&self) -> (r: FieldElement) {
        self.inner.spendability_hash()
    }

    fn nullifier_pub_key(&self) -> (r: NullifierPubKey) {
        self.inner.nullifier_pub_key()
    }
}

/// The partial commitment of `c`: its fields but the asset and amount.
pub open spec fn partial_of(c: BaseCommitment) -> PartialCommitment {
    PartialCommitment {
        spendability_hash: c.spendability_hash,
        random: c.random,
        nullifier_pub_key: c.nullifier_pub_key,
    }
}

/// The commitment that completes `partial` with `asset` and `amount`.
pub open spec fn complete(asset: AssetId, amount: u128, partial: PartialCommitment) -> BaseCommitment {
    BaseCommitment {
        asset,
        amount,
        spendability_hash: partial.spendability_hash,
        random: partial.random,
        nullifier_pub_key: partial.nullifier_pub_key,
    }
}

/// Completing a partial commitment keeps each of its fields in the field of
/// the same name, and takes the asset and amount given.
pub proof fn law_complete_keeps_fields(asset: AssetId, amount: u128, p: PartialCommitment)
    ensures
        complete(asset, amount, p).asset == asset,
        complete(asset, amount, p).amount == amount,
        complete(asset, amount, p).spendability_hash == p.spendability_hash,
        complete(asset, amount, p).random == p.random,
        complete(asset, amount, p).nullifier_pub_key == p.nullifier_pub_key,
{
}

/// The partial commitment of a note keeps the note's spendability hash,
/// randomness and nullifier public key, each in the field of the same name.
pub proof fn law_partial_keeps_fields(c: BaseCommitment)
    ensures
        partial_of(c).spendability_hash == c.spendability_hash,
        partial_of(c).random == c.random,
        partial_of(c).nullifier_pub_key == c.nullifier_pub_key,
{
}

/// Completing the partial commitment of `c` with `c`'s own asset and amount
/// gives back `c`.
pub proof fn law_complete_partial(c: BaseCommitment)
    ensures
        complete(c.asset, c.amount, partial_of(c)) == c,
{
}

/// The partial commitment of a completed partial commitment is the partial
/// commitment it was completed from.
pub proof fn law_partial_of_complete(asset: AssetId, amount: u128, p: PartialCommitment)
    ensures
        partial_of(complete(asset, amount, p)) == p,
        complete(asset, amount, p).asset == asset,
        complete(asset, amount, p).amount == amount,
{
}

} // verus!
