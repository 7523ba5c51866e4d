//! End-to-end runs of compile / gen_proof / verify_proof against a mock
//! backend that replays the recorded gates on the witness and the flat
//! public-input vector, with the embedded-curve work done by dusk-jubjub.

use dusk_bls12_381::BlsScalar;
use dusk_jubjub::{JubJubAffine, JubJubExtended, JubJubScalar, GENERATOR_EXTENDED};

use plonk_circuit::circuit::{Circuit, ProofBackend};
use plonk_circuit::composer::{Composer, Gate};
use plonk_circuit::error::{Error, RejectReason};
use plonk_circuit::public_input::PublicInputValue;
use plonk_circuit::scalar::{scalar_from_bls, scalar_from_jubjub, Scalar};
use plonk_circuit::test_circuit::TestCircuit;

fn bls(s: &Scalar) -> BlsScalar {
    Option::<BlsScalar>::from(BlsScalar::from_bytes(&s.to_bytes())).expect("canonical scalar")
}

struct MockBackend {
    max_size: usize,
}

#[derive(Clone)]
struct MockKey {
    gates: Vec<Gate>,
}

struct MockProof {
    witness: Vec<Scalar>,
}

fn scalar_from_bytes(bytes: [u8; 32]) -> Option<Scalar> {
    Option::<BlsScalar>::from(BlsScalar::from_bytes(&bytes)).map(|s| scalar_from_bls(&s))
}

fn read_u8(bytes: &[u8], pos: &mut usize) -> Option<u8> {
    let b = *bytes.get(*pos)?;
    *pos += 1;
    Some(b)
}

fn read_u64(bytes: &[u8], pos: &mut usize) -> Option<u64> {
    let slice = bytes.get(*pos..*pos + 8)?;
    *pos += 8;
    let mut arr = [0u8; 8];
    arr.copy_from_slice(slice);
    Some(u64::from_le_bytes(arr))
}

fn read_scalar(bytes: &[u8], pos: &mut usize) -> Option<Scalar> {
    let slice = bytes.get(*pos..*pos + 32)?;
    *pos += 32;
    let mut arr = [0u8; 32];
    arr.copy_from_slice(slice);
    scalar_from_bytes(arr)
}

fn key_to_bytes(key: &MockKey) -> Vec<u8> {
    let mut out = Vec::new();
    for gate in &key.gates {
        match gate {
            Gate::Arith { a, b, o, q_m, q_l, q_r, q_o, q_c, pi } => {
                out.push(1u8);
                for w in [*a, *b, *o] {
                    out.extend_from_slice(&(w as u64).to_le_bytes());
                }
                for q in [q_m, q_l, q_r, q_o, q_c] {
                    out.extend_from_slice(&q.to_bytes());
                }
                match pi {
                    Some(s) => {
                        out.push(1u8);
                        out.extend_from_slice(&s.to_bytes());
                    }
                    None => out.push(0u8),
                }
            }
            Gate::Range { var, bound } => {
                out.push(2u8);
                out.extend_from_slice(&(*var as u64).to_le_bytes());
                out.extend_from_slice(&bound.to_le_bytes());
            }
            Gate::EccMul { scalar, base_x, base_y, out_x, out_y } => {
                out.push(3u8);
                for w in [*scalar, *base_x, *base_y, *out_x, *out_y] {
                    out.extend_from_slice(&(w as u64).to_le_bytes());
                }
            }
        }
    }
    out
}

fn key_from_bytes(bytes: &Vec<u8>) -> Result<MockKey, Error> {
    fn parse(bytes: &[u8]) -> Option<Vec<Gate>> {
        let mut gates = Vec::new();
        let mut pos = 0usize;
        while pos < bytes.len() {
            match read_u8(bytes, &mut pos)? {
                1 => {
                    let a = read_u64(bytes, &mut pos)? as usize;
                    let b = read_u64(bytes, &mut pos)? as usize;
                    let o = read_u64(bytes, &mut pos)? as usize;
                    let q_m = read_scalar(bytes, &mut pos)?;
                    let q_l = read_scalar(bytes, &mut pos)?;
                    let q_r = read_scalar(bytes, &mut pos)?;
                    let q_o = read_scalar(bytes, &mut pos)?;
                    let q_c = read_scalar(bytes, &mut pos)?;
                    let pi = match read_u8(bytes, &mut pos)? {
                        0 => None,
                        1 => Some(read_scalar(bytes, &mut pos)?),
                        _ => return None,
                    };
                    gates.push(Gate::Arith { a, b, o, q_m, q_l, q_r, q_o, q_c, pi });
                }
                2 => {
                    let var = read_u64(bytes, &mut pos)? as usize;
                    let bound = read_u64(bytes, &mut pos)?;
                    gates.push(Gate::Range { var, bound });
                }
                3 => {
                    let scalar = read_u64(bytes, &mut pos)? as usize;
                    let base_x = read_u64(bytes, &mut pos)? as usize;
                    let base_y = read_u64(bytes, &mut pos)? as usize;
                    let out_x = read_u64(bytes, &mut pos)? as usize;
                    let out_y = read_u64(bytes, &mut pos)? as usize;
                    gates.push(Gate::EccMul { scalar, base_x, base_y, out_x, out_y });
                }
                _ => return None,
            }
        }
        Some(gates)
    }
    parse(bytes).map(|gates| MockKey { gates }).ok_or(Error::Serialization)
}

fn range_holds(value: &Scalar, bound: u64) -> bool {
    let bytes = value.to_bytes();
    if bytes[8..].iter().any(|&b| b != 0) {
        return false;
    }
    let mut low = [0u8; 8];
    low.copy_from_slice(&bytes[..8]);
    u64::from_le_bytes(low) < bound
}

impl ProofBackend for MockBackend {
    type CommitterKey = usize;
    type OpenerKey = usize;
    type ProverKey = MockKey;
    type VerifierKey = MockKey;
    type Proof = MockProof;

    fn trim(&self, trim_size: usize) -> Result<(usize, usize), Error> {
        if trim_size <= self.max_size {
            Ok((trim_size, trim_size))
        } else {
            Err(Error::ParameterTrim)
        }
    }

    fn preprocess_prover(
        &self,
        cs: &Composer,
        _transcript_init: &Vec<u8>,
        _ck: &usize,
    ) -> Result<MockKey, Error> {
        Ok(MockKey { gates: cs.gates().clone() })
    }

    fn preprocess_verifier(
        &self,
        cs: &Composer,
        _transcript_init: &Vec<u8>,
        _ck: &usize,
    ) -> Result<MockKey, Error> {
        Ok(MockKey { gates: cs.gates().clone() })
    }

    fn prove(
        &self,
        cs: &Composer,
        _transcript_init: &Vec<u8>,
        _prover_key: &MockKey,
        ck: &usize,
    ) -> Result<MockProof, Error> {
        if cs.gates().len() > *ck {
            return Err(Error::Proving);
        }
        Ok(MockProof { witness: cs.witness().clone() })
    }

    fn params_to_bytes(&self) -> Vec<u8> {
        (self.max_size as u64).to_le_bytes().to_vec()
    }

    fn params_from_bytes(bytes: &Vec<u8>) -> Result<Self, Error> {
        if bytes.len() != 8 {
            return Err(Error::Serialization);
        }
        let mut arr = [0u8; 8];
        arr.copy_from_slice(bytes);
        Ok(MockBackend { max_size: u64::from_le_bytes(arr) as usize })
    }

    fn prover_key_to_bytes(key: &MockKey) -> Vec<u8> {
        key_to_bytes(key)
    }

    fn prover_key_from_bytes(bytes: &Vec<u8>) -> Result<MockKey, Error> {
        key_from_bytes(bytes)
    }

    fn verifier_key_to_bytes(key: &MockKey) -> Vec<u8> {
        key_to_bytes(key)
    }

    fn verifier_key_from_bytes(bytes: &Vec<u8>) -> Result<MockKey, Error> {
        key_from_bytes(bytes)
    }

    fn verify(
        &self,
        _transcript_init: &Vec<u8>,
        verifier_key: &MockKey,
        _opener_key: &usize,
        proof: &MockProof,
        public_inputs: &Vec<Scalar>,
    ) -> Result<(), Error> {
        let reject = Err(Error::VerificationReject(RejectReason::Cryptographic));
        let w: Vec<BlsScalar> = proof.witness.iter().map(bls).collect();
        let pis: Vec<BlsScalar> = public_inputs.iter().map(bls).collect();
        for (idx, gate) in verifier_key.gates.iter().enumerate() {
            let pi_term = pis.get(idx).copied().unwrap_or_else(BlsScalar::zero);
            match gate {
                Gate::Arith { a, b, o, q_m, q_l, q_r, q_o, q_c, pi: _ } => {
                    let (wa, wb, wo) = (w[*a], w[*b], w[*o]);
                    let lhs = bls(q_m) * wa * wb
                        + bls(q_l) * wa
                        + bls(q_r) * wb
                        + bls(q_o) * wo
                        + bls(q_c)
                        + pi_term;
                    if lhs != BlsScalar::zero() {
                        return reject;
                    }
                }
                Gate::Range { var, bound } => {
                    if !range_holds(&proof.witness[*var], *bound) {
                        return reject;
                    }
                }
                Gate::EccMul { scalar, base_x, base_y, out_x, out_y } => {
                    let e_bytes = proof.witness[*scalar].to_bytes();
                    let e = match Option::<JubJubScalar>::from(JubJubScalar::from_bytes(&e_bytes)) {
                        Some(e) => e,
                        None => return reject,
                    };
                    let base = JubJubAffine::from_raw_unchecked(w[*base_x], w[*base_y]);
                    let product = JubJubAffine::from(JubJubExtended::from(base) * e);
                    if product.get_u() != w[*out_x] || product.get_v() != w[*out_y] {
                        return reject;
                    }
                }
            }
        }
        Ok(())
    }
}

fn honest_circuit() -> TestCircuit {
    let f = JubJubAffine::from(GENERATOR_EXTENDED * JubJubScalar::from(2u64));
    TestCircuit {
        a: Scalar::from_u64(20),
        b: Scalar::from_u64(5),
        c: Scalar::from_u64(25),
        d: Scalar::from_u64(100),
        e: scalar_from_jubjub(&JubJubScalar::from(2u64)),
        f_x: scalar_from_bls(&f.get_u()),
        f_y: scalar_from_bls(&f.get_v()),
        ..TestCircuit::default()
    }
}

fn declared_public_inputs(c: u64) -> Vec<PublicInputValue> {
    let f = JubJubAffine::from(GENERATOR_EXTENDED * JubJubScalar::from(2u64));
    vec![
        PublicInputValue::from_bls(&BlsScalar::from(c)),
        PublicInputValue::from_bls(&BlsScalar::from(100u64)),
        PublicInputValue::from_jubjub_affine(&dusk_jubjub::GENERATOR),
        PublicInputValue::from_jubjub_affine(&f),
    ]
}

#[test]
fn compile_records_expected_positions() {
    let backend = MockBackend { max_size: 1 << 12 };
    let mut circuit = TestCircuit::default();
    let (_pk, _vk, positions) = circuit.compile(&backend).unwrap();
    assert_eq!(positions, vec![0, 3, 4, 5, 7, 8]);
}

#[test]
fn compile_is_deterministic() {
    let backend = MockBackend { max_size: 1 << 12 };
    let mut circuit = TestCircuit::default();
    let (_pk1, _vk1, positions1) = circuit.compile(&backend).unwrap();
    let mut circuit2 = TestCircuit::default();
    let (_pk2, _vk2, positions2) = circuit2.compile(&backend).unwrap();
    assert_eq!(positions1, positions2);
}

#[test]
fn end_to_end_accepts() {
    let backend = MockBackend { max_size: 1 << 12 };
    let mut shape = TestCircuit::default();
    let (pk, vk, positions) = shape.compile(&backend).unwrap();

    let mut circuit = honest_circuit();
    let proof = circuit.gen_proof(&backend, &pk).unwrap();

    let verifier_side = TestCircuit::default();
    let result = verifier_side.verify_proof(
        &backend,
        &vk,
        &proof,
        &declared_public_inputs(25),
        &positions,
    );
    assert!(result.is_ok());
}

#[test]
fn tampered_public_input_rejected() {
    let backend = MockBackend { max_size: 1 << 12 };
    let mut shape = TestCircuit::default();
    let (pk, vk, positions) = shape.compile(&backend).unwrap();

    let mut circuit = honest_circuit();
    let proof = circuit.gen_proof(&backend, &pk).unwrap();

    let verifier_side = TestCircuit::default();
    let result = verifier_side.verify_proof(
        &backend,
        &vk,
        &proof,
        &declared_public_inputs(26),
        &positions,
    );
    assert_eq!(
        result,
        Err(Error::VerificationReject(RejectReason::Cryptographic))
    );
}

#[test]
fn range_boundary_rejected() {
    let backend = MockBackend { max_size: 1 << 12 };
    let mut shape = TestCircuit::default();
    let (pk, vk, positions) = shape.compile(&backend).unwrap();

    // a = 2^6, one past the allowed bound; keep the sum and product
    // declarations consistent so only the range constraint can fail.
    let mut circuit = honest_circuit();
    circuit.a = Scalar::from_u64(64);
    circuit.b = Scalar::from_u64(5);
    circuit.c = Scalar::from_u64(69);
    circuit.d = Scalar::from_u64(320);

    let f = JubJubAffine::from(GENERATOR_EXTENDED * JubJubScalar::from(2u64));
    let declared = vec![
        PublicInputValue::from_bls(&BlsScalar::from(69u64)),
        PublicInputValue::from_bls(&BlsScalar::from(320u64)),
        PublicInputValue::from_jubjub_affine(&dusk_jubjub::GENERATOR),
        PublicInputValue::from_jubjub_affine(&f),
    ];

    let outcome = circuit.gen_proof(&backend, &pk);
    match outcome {
        Err(_) => {}
        Ok(proof) => {
            let verifier_side = TestCircuit::default();
            let result = verifier_side.verify_proof(&backend, &vk, &proof, &declared, &positions);
            assert_eq!(
                result,
                Err(Error::VerificationReject(RejectReason::Cryptographic))
            );
        }
    }
}

#[test]
fn proofs_verify_across_compilations() {
    let backend = MockBackend { max_size: 1 << 12 };
    let mut shape1 = TestCircuit::default();
    let (pk1, vk1, positions1) = shape1.compile(&backend).unwrap();
    let mut shape2 = TestCircuit::default();
    let (pk2, vk2, positions2) = shape2.compile(&backend).unwrap();

    let proof1 = honest_circuit().gen_proof(&backend, &pk1).unwrap();
    let proof2 = honest_circuit().gen_proof(&backend, &pk2).unwrap();

    let verifier_side = TestCircuit::default();
    let declared = declared_public_inputs(25);
    assert!(verifier_side
        .verify_proof(&backend, &vk2, &proof1, &declared, &positions2)
        .is_ok());
    assert!(verifier_side
        .verify_proof(&backend, &vk1, &proof2, &declared, &positions1)
        .is_ok());
}

#[test]
fn trim_failure_reported() {
    let backend = MockBackend { max_size: 16 };
    let mut circuit = TestCircuit::default();
    assert!(matches!(circuit.compile(&backend), Err(Error::ParameterTrim)));
}

#[test]
fn length_mismatch_is_structural_rejection() {
    let backend = MockBackend { max_size: 1 << 12 };
    let mut shape = TestCircuit::default();
    let (pk, vk, positions) = shape.compile(&backend).unwrap();
    let proof = honest_circuit().gen_proof(&backend, &pk).unwrap();

    // Five positions for six flattened scalars.
    let short_positions = positions[..5].to_vec();
    let verifier_side = TestCircuit::default();
    let result = verifier_side.verify_proof(
        &backend,
        &vk,
        &proof,
        &declared_public_inputs(25),
        &short_positions,
    );
    assert_eq!(
        result,
        Err(Error::VerificationReject(RejectReason::StructuralMismatch))
    );
}

#[test]
fn out_of_range_position_is_structural_rejection() {
    let backend = MockBackend { max_size: 1 << 12 };
    let mut shape = TestCircuit::default();
    let (pk, vk, _positions) = shape.compile(&backend).unwrap();
    let proof = honest_circuit().gen_proof(&backend, &pk).unwrap();

    let bad_positions = vec![0, 3, 4, 5, 7, 2048];
    let verifier_side = TestCircuit::default();
    let result = verifier_side.verify_proof(
        &backend,
        &vk,
        &proof,
        &declared_public_inputs(25),
        &bad_positions,
    );
    assert_eq!(
        result,
        Err(Error::VerificationReject(RejectReason::StructuralMismatch))
    );
}

#[test]
fn serialization_round_trip_preserves_behavior() {
    let backend = MockBackend { max_size: 1 << 12 };
    let mut shape = TestCircuit::default();
    let (pk, vk, positions) = shape.compile(&backend).unwrap();

    // Parameters and both keys survive a trip through bytes.
    let backend2 = MockBackend::params_from_bytes(&backend.params_to_bytes()).unwrap();
    let pk2 = MockBackend::prover_key_from_bytes(&MockBackend::prover_key_to_bytes(&pk)).unwrap();
    let vk2 =
        MockBackend::verifier_key_from_bytes(&MockBackend::verifier_key_to_bytes(&vk)).unwrap();
    assert_eq!(
        MockBackend::prover_key_to_bytes(&pk2),
        MockBackend::prover_key_to_bytes(&pk)
    );
    assert_eq!(
        MockBackend::verifier_key_to_bytes(&vk2),
        MockBackend::verifier_key_to_bytes(&vk)
    );

    // A proof made under the reread artifacts verifies like the originals.
    let proof = honest_circuit().gen_proof(&backend2, &pk2).unwrap();
    let verifier_side = TestCircuit::default();
    assert!(verifier_side
        .verify_proof(&backend2, &vk2, &proof, &declared_public_inputs(25), &positions)
        .is_ok());
}

#[test]
fn malformed_bytes_reported_as_serialization_error() {
    assert!(matches!(
        MockBackend::prover_key_from_bytes(&vec![9u8, 9u8]),
        Err(Error::Serialization)
    ));
    assert!(matches!(
        MockBackend::params_from_bytes(&vec![1u8]),
        Err(Error::Serialization)
    ));
}
