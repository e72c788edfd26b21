//! Tests of the range-proof natives and the session identity.

use vm_writeset::range_proof::{is_supported_number_of_bits, native_test_only_prove_range,
    native_verify_range_proof, native_verify_range_proof_custom_ck, GasMeter, NativeError,
    GasParameters, MAX_RANGE_BITS, NFE_DESERIALIZE_RANGE_PROOF,
    NFE_RANGE_NOT_SUPPORTED, NFE_VALUE_OUTSIDE_RANGE};
use vm_writeset::session_id::SessionId;
use vm_writeset::types::AccountAddress;

use bulletproofs::{BulletproofGens, PedersenGens, RangeProof};
use curve25519_dalek::scalar::Scalar;
use sha3::{Digest, Sha3_256};

fn gas() -> GasParameters {
    GasParameters {
        base: 10,
        per_byte_rangeproof_deserialize: 2,
        per_bit_rangeproof_verify: 3,
    }
}

fn prove(v: u64, num_bits: usize, dst: &[u8]) -> (Vec<u8>, Vec<u8>) {
    let pc_gens = PedersenGens::default();
    let bp_gens = BulletproofGens::new(MAX_RANGE_BITS, 1);
    let blinding = Scalar::from(7u64);
    let label: &'static [u8] = Box::leak(dst.to_vec().into_boxed_slice());
    let mut t = merlin::Transcript::new(label);
    let (proof, comm) =
        RangeProof::prove_single(&bp_gens, &pc_gens, &mut t, v, &blinding, num_bits).unwrap();
    (proof.to_bytes(), comm.as_bytes().to_vec())
}

#[test]
fn supported_bit_lengths() {
    assert!(is_supported_number_of_bits(8));
    assert!(is_supported_number_of_bits(16));
    assert!(is_supported_number_of_bits(32));
    assert!(is_supported_number_of_bits(64));
    assert!(!is_supported_number_of_bits(0));
    assert!(!is_supported_number_of_bits(24));
    assert!(!is_supported_number_of_bits(128));
}

#[test]
fn verify_accepts_honest_proof() {
    let dst = b"range-proof-test";
    let (proof, comm) = prove(1037578891u64 % (1 << 32), 32, dst);
    let mut meter = GasMeter::new(1_000_000);
    let r = native_verify_range_proof(&gas(), &mut meter, &comm, &proof, 32, &dst.to_vec());
    assert_eq!(r, Ok(true));
    // The exact metered cost: base + per-byte on the proof + per-bit.
    let expected_cost = 10 + 2 * proof.len() as u64 + 3 * 32;
    assert_eq!(meter.balance, 1_000_000 - expected_cost);
}

#[test]
fn verify_rejects_wrong_commitment() {
    let dst = b"range-proof-test";
    let (proof, _comm) = prove(5, 32, dst);
    let (_other_proof, other_comm) = prove(6, 32, dst);
    let mut meter = GasMeter::new(1_000_000);
    let r =
        native_verify_range_proof(&gas(), &mut meter, &other_comm, &proof, 32, &dst.to_vec());
    assert_eq!(r, Ok(false));
}

#[test]
fn verify_aborts_on_unsupported_bits() {
    let mut meter = GasMeter::new(1_000_000);
    let r = native_verify_range_proof(
        &gas(),
        &mut meter,
        &vec![0u8; 32],
        &vec![0u8; 64],
        24,
        &b"dst".to_vec(),
    );
    assert_eq!(r, Err(NativeError::Abort { code: NFE_RANGE_NOT_SUPPORTED }));
    assert_eq!(meter.balance, 1_000_000);
}

#[test]
fn verify_aborts_on_malformed_proof() {
    let mut meter = GasMeter::new(1_000_000);
    let r = native_verify_range_proof(
        &gas(),
        &mut meter,
        &vec![0u8; 32],
        &vec![1u8; 33],
        32,
        &b"dst".to_vec(),
    );
    assert_eq!(r, Err(NativeError::Abort { code: NFE_DESERIALIZE_RANGE_PROOF }));
}

#[test]
fn verify_stops_when_out_of_gas() {
    let dst = b"range-proof-test";
    let (proof, comm) = prove(5, 32, dst);
    let mut meter = GasMeter::new(5);
    let r = native_verify_range_proof(&gas(), &mut meter, &comm, &proof, 32, &dst.to_vec());
    assert_eq!(r, Err(NativeError::OutOfGas));
}

#[test]
fn custom_key_native_rejects_bad_points() {
    let mut meter = GasMeter::new(1_000_000);
    let r = native_verify_range_proof_custom_ck(
        &gas(),
        &mut meter,
        &vec![0u8; 32],
        &vec![0u8; 64],
        32,
        &b"dst".to_vec(),
        &vec![0u8; 5],
        &vec![0u8; 32],
    );
    assert_eq!(r, Err(NativeError::InvariantViolation));
}

#[test]
fn custom_key_native_accepts_proof_under_default_points() {
    let dst = b"range-proof-test";
    let (proof, comm) = prove(77, 16, dst);
    let pc = PedersenGens::default();
    let val_base = pc.B.compress().as_bytes().to_vec();
    let rand_base = pc.B_blinding.compress().as_bytes().to_vec();
    let mut meter = GasMeter::new(1_000_000);
    let r = native_verify_range_proof_custom_ck(
        &gas(),
        &mut meter,
        &comm,
        &proof,
        16,
        &dst.to_vec(),
        &val_base,
        &rand_base,
    );
    assert_eq!(r, Ok(true));
}

#[test]
fn prove_native_round_trips_through_verify() {
    let dst = b"prove-native-test";
    let mut v_bytes = vec![0u8; 32];
    v_bytes[0] = 200;
    let mut blinding = vec![0u8; 32];
    blinding[0] = 9;
    let (proof, comm) =
        native_test_only_prove_range(&v_bytes, &blinding, 8, &dst.to_vec()).unwrap();
    let mut meter = GasMeter::new(1_000_000);
    let r = native_verify_range_proof(&gas(), &mut meter, &comm, &proof, 8, &dst.to_vec());
    assert_eq!(r, Ok(true));
}

#[test]
fn prove_native_rejects_oversized_value() {
    let dst = b"prove-native-test";
    let mut v_bytes = vec![0u8; 32];
    v_bytes[9] = 1;
    let blinding = vec![0u8; 32];
    let r = native_test_only_prove_range(&v_bytes, &blinding, 64, &dst.to_vec());
    assert_eq!(r, Err(NativeError::Abort { code: NFE_VALUE_OUTSIDE_RANGE }));
}

#[test]
fn prove_native_rejects_unsupported_bits() {
    let v_bytes = vec![0u8; 32];
    let blinding = vec![0u8; 32];
    let r = native_test_only_prove_range(&v_bytes, &blinding, 10, &b"d".to_vec());
    assert_eq!(r, Err(NativeError::Abort { code: NFE_RANGE_NOT_SUPPORTED }));
}

#[test]
fn prove_native_rejects_non_canonical_scalar() {
    let v_bytes = vec![0u8; 32];
    let blinding = vec![0xffu8; 32];
    let r = native_test_only_prove_range(&v_bytes, &blinding, 8, &b"d".to_vec());
    assert_eq!(r, Err(NativeError::InvariantViolation));
}

#[test]
fn session_sender_is_the_transaction_sender() {
    let s = SessionId::txn_meta(AccountAddress { id: 12 }, 3, vec![1, 2]);
    assert_eq!(s.sender(), Some(AccountAddress { id: 12 }));
    assert_eq!(SessionId::void().sender(), None);
    assert_eq!(SessionId::genesis(vec![9]).sender(), None);
    assert_eq!(SessionId::block_meta(vec![9]).sender(), None);
}

#[test]
fn session_uuid_is_the_digest_of_the_encoding() {
    let s = SessionId::txn_meta(AccountAddress { id: 12 }, 3, vec![1, 2]);
    let uuid = s.as_uuid();
    assert_eq!(uuid.len(), 32);
    let mut expected_input = vec![0u8];
    expected_input.extend_from_slice(&12u64.to_le_bytes());
    expected_input.extend_from_slice(&3u64.to_le_bytes());
    expected_input.extend_from_slice(&[1, 2]);
    assert_eq!(uuid, Sha3_256::digest(&expected_input).to_vec());
    // Distinct sessions hash differently.
    assert_ne!(uuid, SessionId::void().as_uuid());
}

#[test]
fn custom_key_native_rejects_undecompressible_points() {
    let mut meter = GasMeter::new(1_000_000);
    let r = native_verify_range_proof_custom_ck(
        &gas(),
        &mut meter,
        &vec![0u8; 32],
        &vec![0u8; 64],
        32,
        &b"dst".to_vec(),
        &vec![0xffu8; 32],
        &vec![0xffu8; 32],
    );
    assert_eq!(r, Err(NativeError::InvariantViolation));
}

#[test]
fn out_of_gas_after_base_charge_keeps_partial_deduction() {
    let dst = b"range-proof-test";
    let (proof, comm) = prove(5, 32, dst);
    // Enough for the base cost only: the per-byte charge fails and the base
    // cost stays deducted.
    let mut meter = GasMeter::new(15);
    let r = native_verify_range_proof(&gas(), &mut meter, &comm, &proof, 32, &dst.to_vec());
    assert_eq!(r, Err(NativeError::OutOfGas));
    assert_eq!(meter.balance, 5);
}

#[test]
fn out_of_gas_after_deserialization_charge_on_parsing_proof() {
    let dst = b"range-proof-test";
    let (proof, comm) = prove(5, 32, dst);
    // Exactly the base and per-byte costs: the proof parses, the per-bit
    // charge fails, and the deserialization gas stays deducted.
    let deser_cost = 10 + 2 * proof.len() as u64;
    let mut meter = GasMeter::new(deser_cost);
    let r = native_verify_range_proof(&gas(), &mut meter, &comm, &proof, 32, &dst.to_vec());
    assert_eq!(r, Err(NativeError::OutOfGas));
    assert_eq!(meter.balance, 0);
}

#[test]
fn short_commitment_never_verifies() {
    let dst = b"range-proof-test";
    let (proof, _comm) = prove(5, 32, dst);
    let mut meter = GasMeter::new(1_000_000);
    let full_cost = 10 + 2 * proof.len() as u64 + 3 * 32;
    let r =
        native_verify_range_proof(&gas(), &mut meter, &vec![0u8; 5], &proof, 32, &dst.to_vec());
    assert_eq!(r, Ok(false));
    assert_eq!(meter.balance, 1_000_000 - full_cost);
}

#[test]
fn custom_key_native_meters_gas_like_the_default_one() {
    let dst = b"range-proof-test";
    let (proof, comm) = prove(5, 32, dst);
    let pc = PedersenGens::default();
    let val_base = pc.B.compress().as_bytes().to_vec();
    let rand_base = pc.B_blinding.compress().as_bytes().to_vec();
    // Out of gas at the base charge: balance untouched.
    let mut meter = GasMeter::new(5);
    let r = native_verify_range_proof_custom_ck(
        &gas(),
        &mut meter,
        &comm,
        &proof,
        32,
        &dst.to_vec(),
        &val_base,
        &rand_base,
    );
    assert_eq!(r, Err(NativeError::OutOfGas));
    assert_eq!(meter.balance, 5);
    // Malformed proof: deserialization gas charged, then the abort.
    let mut meter = GasMeter::new(1_000_000);
    let r = native_verify_range_proof_custom_ck(
        &gas(),
        &mut meter,
        &comm,
        &vec![1u8; 33],
        32,
        &dst.to_vec(),
        &val_base,
        &rand_base,
    );
    assert_eq!(r, Err(NativeError::Abort { code: NFE_DESERIALIZE_RANGE_PROOF }));
    assert_eq!(meter.balance, 1_000_000 - (10 + 2 * 33));
}
