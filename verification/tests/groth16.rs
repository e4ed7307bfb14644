use tint::groth16::{ContractProof, G1Coordinates, G2Coordinates, ProofCoordinates};

fn w(b: u8) -> [u8; 32] {
    [b; 32]
}

#[test]
fn proof_words_follow_contract_order() {
    let p = ProofCoordinates {
        a: G1Coordinates { x: w(1), y: w(2) },
        b: G2Coordinates { x_c0: w(3), x_c1: w(4), y_c0: w(5), y_c1: w(6) },
        c: G1Coordinates { x: w(7), y: w(8) },
    };
    let r = ContractProof::from_coordinates(&p);
    assert_eq!(r.proof, [w(1), w(2), w(4), w(3), w(6), w(5), w(7), w(8)]);
}
