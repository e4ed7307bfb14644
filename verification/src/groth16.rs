//! The calldata form of a Groth16 proof over BN254.

use vstd::prelude::*;

use crate::bytes::Word;

verus! {

/// The affine coordinates of a point of G1, each as a canonical 32-byte
/// big-endian integer.
#[derive(Clone, Copy, Debug)]
pub struct G1Coordinates {
    pub x: Word,
    pub y: Word,
}

/// The affine coordinates of a point of G2; each coordinate is an element
/// `c0 + c1 * u` of the quadratic extension, given by its two components.
#[derive(Clone, Copy, Debug)]
pub struct G2Coordinates {
    pub x_c0: Word,
    pub x_c1: Word,
    pub y_c0: Word,
    pub y_c1: Word,
}

/// A Groth16 proof, by the coordinates of its three points.
#[derive(Clone, Copy, Debug)]
pub struct ProofCoordinates {
    pub a: G1Coordinates,
    pub b: G2Coordinates,
    pub c: G1Coordinates,
}

/// `ProofLib.Proof` of the contract: `uint256[8] proof`.
#[derive(Clone, Copy, Debug)]
pub struct ContractProof {
    pub proof: [Word; 8],
}

/// The words of a proof in the order that the contract's verifier reads
/// them: `a`, then `b` with the second component of each coordinate first,
/// then `c`.
pub open spec fn proof_words(p: ProofCoordinates) -> Seq<Word> {
    seq![p.a.x, p.a.y, p.b.x_c1, p.b.x_c0, p.b.y_c1, p.b.y_c0, p.c.x, p.c.y]
}

/// Every proof is laid out in the same positions, whatever its coordinate
/// values: `a.x`, `a.y`, `b.x.c1`, `b.x.c0`, `b.y.c1`, `b.y.c0`, `c.x`, `c.y`.
pub proof fn law_proof_word_positions(p: ProofCoordinates)
    ensures
        proof_words(p).len() == 8,
        proof_words(p)[0] == p.a.x,
        proof_words(p)[1] == p.a.y,
        proof_words(p)[2] == p.b.x_c1,
        proof_words(p)[3] == p.b.x_c0,
        proof_words(p)[4] == p.b.y_c1,
        proof_words(p)[5] == p.b.y_c0,
        proof_words(p)[6] == p.c.x,
        proof_words(p)[7] == p.c.y,
{
}

impl ContractProof {
    /// Lays out a proof as the contract expects it.
    pub fn from_coordinates(p: &ProofCoordinates) -> (r: Self)
        ensures
            r.proof@ == proof_words(*p),
            r.proof[0] == p.a.x,
            r.proof[1] == p.a.y,
            r.proof[2] == p.b.x_c1,
            r.proof[3] == p.b.x_c0,
            r.proof[4] == p.b.y_c1,
            r.proof[5] == p.b.y_c0,
            r.proof[6] == p.c.x,
            r.proof[7] == p.c.y,
    {
        let r = ContractProof {
            proof: [p.a.x, p.a.y, p.b.x_c1, p.b.x_c0, p.b.y_c1, p.b.y_c0, p.c.x, p.c.y],
        };
        assert(r.proof@ =~= proof_words(*p));
        r
    }
}

} // verus!
