//! Elements of the BN254 scalar field, held by their canonical encoding.

use vstd::prelude::*;
use ark_ff::{BigInteger, PrimeField};

use crate::bytes::bytes_eq;

verus! {

/// The integer that a big-endian byte string encodes.
pub open spec fn be_value(s: Seq<u8>) -> nat
    decreases s.len(),
{
    if s.len() == 0 {
        0
    } else {
        be_value(s.drop_last()) * 256 + s.last() as nat
    }
}

/// The modulus of the BN254 scalar field.
pub open spec fn modulus() -> nat {
    21888242871839275222246405745257275088548364400416034343698204186575808495617nat
}

/// An element of the BN254 scalar field, by its canonical 32-byte
/// big-endian encoding.
#[derive(Clone, Copy, Debug, Default)]
pub struct FieldElement {
    pub bytes: [u8; 32],
}

impl FieldElement {
    /// The integer in `0..r` that the element stands for.
    pub open spec fn value(self) -> nat {
        be_value(self.bytes@)
    }

    /// The zero element.
    pub fn zero() -> (r: Self)
        ensures
            r.bytes@ == Seq::new(32, |i: int| 0u8),
    {
        let r = FieldElement { bytes: [0u8; 32] };
        assert(r.bytes@ =~= Seq::new(32, |i: int| 0u8));
        r
    }

    /// Whether two elements are the same.
    pub fn same(&self, other: &Self) -> (r: bool)
        ensures
            r == (self.bytes@ == other.bytes@),
    {
        bytes_eq(self.bytes.as_slice(), other.bytes.as_slice())
    }

    /// The element `x` of the field (every `u128` is below the modulus).
    pub fn from_u128(x: u128) -> (r: Self)
        ensures
            r.value() == x,
    {
        fr_from_u128(x)
    }

    /// The element that a big-endian byte string encodes, reduced modulo
    /// the field's modulus.
    pub fn from_be_bytes_mod_order(bytes: &[u8]) -> (r: Self)
        ensures
            r.value() == be_value(bytes@) % modulus(),
    {
        fr_from_be_bytes_mod_order(bytes)
    }
}

/// Calls `<ark_bn254::Fr as From<u128>>::from` and encodes the result with
/// `into_bigint().to_bytes_be()`. Trusted: the element is `x` reduced
/// modulo the scalar field's modulus, which exceeds `u128::MAX`, and its
/// canonical big-endian encoding is 32 bytes that encode `x`.
#[verifier::external_body]
fn fr_from_u128(x: u128) -> (r: FieldElement)
    ensures
        be_value(r.bytes@) == x,
{
    let element = ark_bn254::Fr::from(x);
    let encoded = element.into_bigint().to_bytes_be();
    let mut bytes = [0u8; 32];
    bytes.copy_from_slice(&encoded);
    FieldElement { bytes }
}

/// Calls `<ark_bn254::Fr as PrimeField>::from_be_bytes_mod_order` and
/// encodes the result with `into_bigint().to_bytes_be()`. Trusted: the
/// element is the big-endian integer of `bytes` reduced modulo the field's
/// modulus, and its canonical encoding is 32 big-endian bytes of that value.
#[verifier::external_body]
fn fr_from_be_bytes_mod_order(bytes: &[u8]) -> (r: FieldElement)
    ensures
        be_value(r.bytes@) == be_value(bytes@) % modulus(),
{
    let element = ark_bn254::Fr::from_be_bytes_mod_order(bytes);
    let encoded = element.into_bigint().to_bytes_be();
    let mut out = [0u8; 32];
    out.copy_from_slice(&encoded);
    FieldElement { bytes: out }
}

} // verus!
