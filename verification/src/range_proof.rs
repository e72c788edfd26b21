//! The range-proof verification native: gas metering plus a thin wrapper
//! around the third-party proof-verification library. A contract hands in a
//! Pedersen commitment, a serialized range proof, a requested bit length
//! and a domain-separation tag; the native charges gas, deserializes the
//! proof and verifies it, reporting failures as typed aborts rather than
//! panics.

use vstd::prelude::*;
use vstd::arithmetic::power2::pow2;
use vstd::bytes::spec_u64_from_le_bytes;

use curve25519_dalek::ristretto::CompressedRistretto;
use curve25519_dalek::scalar::Scalar;

verus! {

/// Abort code when deserialization of a range proof fails.
pub const NFE_DESERIALIZE_RANGE_PROOF: u64 = 0x01_0001;

/// Abort code when the input value for a range proof is too large.
pub const NFE_VALUE_OUTSIDE_RANGE: u64 = 0x01_0002;

/// Abort code when the requested range exceeds the supported maximum.
pub const NFE_RANGE_NOT_SUPPORTED: u64 = 0x01_0003;

/// The largest bit length the proof system supports.
pub const MAX_RANGE_BITS: usize = 64;

/// The proof system only supports proving [0, 2^num_bits) ranges for these
/// bit lengths.
pub open spec fn spec_is_supported_number_of_bits(num_bits: usize) -> bool {
    num_bits == 8 || num_bits == 16 || num_bits == 32 || num_bits == 64
}

#[verifier::when_used_as_spec(spec_is_supported_number_of_bits)]
pub fn is_supported_number_of_bits(num_bits: usize) -> (r: bool)
    ensures
        r == spec_is_supported_number_of_bits(num_bits),
{
    num_bits == 8 || num_bits == 16 || num_bits == 32 || num_bits == 64
}

/// How a native call fails: an abort visible to the calling contract, an
/// out-of-gas stop, or an internal invariant violation in the handed-in
/// arguments.
#[derive(Clone, Copy, PartialEq, Eq, Structural, Debug)]
pub enum NativeError {
    Abort { code: u64 },
    OutOfGas,
    InvariantViolation,
}

/// The gas budget of one native call.
pub struct GasMeter {
    pub balance: u64,
}

impl GasMeter {
    pub fn new(balance: u64) -> (r: Self)
        ensures
            r.balance == balance,
    {
        GasMeter { balance }
    }

    /// Deduct `amount` from the budget, stopping the call when it does not
    /// fit.
    pub fn charge(&mut self, amount: u128) -> (r: Result<(), NativeError>)
        ensures
            match r {
                Ok(_) => amount <= old(self).balance && final(self).balance == old(self).balance - amount,
                Err(e) => e == NativeError::OutOfGas && amount > old(self).balance && final(self).balance == old(self).balance,
            },
    {
        if amount <= self.balance as u128 {
            self.balance = self.balance - (amount as u64);
            Ok(())
        } else {
            Err(NativeError::OutOfGas)
        }
    }
}

/// Gas parameters of the range-proof natives.
#[derive(Clone, Copy, PartialEq, Eq, Structural, Debug)]
pub struct GasParameters {
    pub base: u64,
    pub per_byte_rangeproof_deserialize: u64,
    pub per_bit_rangeproof_verify: u64,
}

/// The product of a per-unit price and a unit count, as a gas amount.
fn gas_mul(price: u64, units: u64) -> (r: u128)
    ensures
        r == price as int * units as int,
{
    proof {
        let p = price as int;
        let u = units as int;
        assert(0 <= p * u && p * u <= 0xffff_ffff_ffff_ffff * 0xffff_ffff_ffff_ffff)
            by (nonlinear_arith)
            requires
                0 <= p <= 0xffff_ffff_ffff_ffff,
                0 <= u <= 0xffff_ffff_ffff_ffff,
        ;
    }
    (price as u128) * (units as u128)
}

/// Whether the byte string deserializes as a range proof: a function of the
/// bytes alone.
pub uninterp spec fn range_proof_parses(proof: Seq<u8>) -> bool;

/// Whether the serialized proof is a valid range proof for the given
/// commitment, bit length and domain-separation tag, under the default
/// commitment key and a generator table of the given capacity.
pub uninterp spec fn valid_range_proof(
    proof: Seq<u8>,
    comm: Seq<u8>,
    num_bits: usize,
    dst: Seq<u8>,
    gens_capacity: usize,
) -> bool;

/// Whether the serialized proof is a valid range proof under the custom
/// commitment key given by the two compressed base points.
pub uninterp spec fn valid_range_proof_custom(
    proof: Seq<u8>,
    comm: Seq<u8>,
    num_bits: usize,
    dst: Seq<u8>,
    gens_capacity: usize,
    val_base: Seq<u8>,
    rand_base: Seq<u8>,
) -> bool;

/// Whether 32 bytes are the canonical encoding of a Ristretto point.
pub uninterp spec fn valid_point_encoding(bytes: Seq<u8>) -> bool;

/// Whether 32 bytes are the canonical encoding of a scalar.
pub uninterp spec fn canonical_scalar(bytes: Seq<u8>) -> bool;

/// Relies on bulletproofs::RangeProof::from_bytes (whether the bytes parse
/// is a function of the bytes alone), merlin::Transcript::new, and
/// bulletproofs::RangeProof::verify_single with
/// bulletproofs::PedersenGens::default and bulletproofs::BulletproofGens::new:
/// a valid proof verifies under every outcome of the verifier's internal
/// randomness. Of an invalid proof the verifier's answer is not promised.
///
/// The transcript label must be `'static` in the transcript interface, so
/// each call leaks one copy of the domain-separation tag; callers on a hot
/// path should draw tags from a bounded set.
#[verifier::external_body]
fn bp_verify_range_proof(
    proof_bytes: &Vec<u8>,
    comm_bytes: &Vec<u8>,
    num_bits: usize,
    dst: &Vec<u8>,
    gens_capacity: usize,
) -> (r: Result<bool, ()>)
    requires
        comm_bytes@.len() == 32,
    ensures
        r is Ok <==> range_proof_parses(proof_bytes@),
        match r {
            Ok(b) => valid_range_proof(proof_bytes@, comm_bytes@, num_bits, dst@, gens_capacity)
                ==> b == true,
            Err(_) => true,
        },
{
    let proof = match bulletproofs::RangeProof::from_bytes(proof_bytes.as_slice()) {
        Ok(p) => p,
        Err(_) => return Err(()),
    };
    let pc_gens = bulletproofs::PedersenGens::default();
    let bp_gens = bulletproofs::BulletproofGens::new(gens_capacity, 1);
    let label: &'static [u8] = Box::leak(dst.clone().into_boxed_slice());
    let mut transcript = merlin::Transcript::new(label);
    let comm = CompressedRistretto::from_slice(comm_bytes.as_slice())
        .unwrap();
    Ok(proof.verify_single(&bp_gens, &pc_gens, &mut transcript, &comm, num_bits).is_ok())
}

/// Relies on the same verification entry points as `bp_verify_range_proof`,
/// with the Pedersen commitment key built from the two decompressed base
/// points instead of the default one.
///
/// The transcript label must be `'static` in the transcript interface, so
/// each call leaks one copy of the domain-separation tag; callers on a hot
/// path should draw tags from a bounded set.
#[verifier::external_body]
fn bp_verify_range_proof_custom(
    proof_bytes: &Vec<u8>,
    comm_bytes: &Vec<u8>,
    num_bits: usize,
    dst: &Vec<u8>,
    gens_capacity: usize,
    val_base: &Vec<u8>,
    rand_base: &Vec<u8>,
) -> (r: Result<bool, ()>)
    requires
        comm_bytes@.len() == 32,
        val_base@.len() == 32,
        valid_point_encoding(val_base@),
        rand_base@.len() == 32,
        valid_point_encoding(rand_base@),
    ensures
        r is Ok <==> range_proof_parses(proof_bytes@),
        match r {
            Ok(b) => valid_range_proof_custom(proof_bytes@, comm_bytes@, num_bits, dst@,
                gens_capacity, val_base@, rand_base@) ==> b == true,
            Err(_) => true,
        },
{
    let proof = match bulletproofs::RangeProof::from_bytes(proof_bytes.as_slice()) {
        Ok(p) => p,
        Err(_) => return Err(()),
    };
    let pc_gens = bulletproofs::PedersenGens {
        B: CompressedRistretto::from_slice(val_base.as_slice()).unwrap().decompress().unwrap(),
        B_blinding: CompressedRistretto::from_slice(rand_base.as_slice()).unwrap().decompress()
            .unwrap(),
    };
    let bp_gens = bulletproofs::BulletproofGens::new(gens_capacity, 1);
    let label: &'static [u8] = Box::leak(dst.clone().into_boxed_slice());
    let mut transcript = merlin::Transcript::new(label);
    let comm = CompressedRistretto::from_slice(comm_bytes.as_slice()).unwrap();
    Ok(proof.verify_single(&bp_gens, &pc_gens, &mut transcript, &comm, num_bits).is_ok())
}

/// Relies on curve25519_dalek CompressedRistretto::decompress: whether 32
/// bytes canonically encode a point is a function of the bytes alone.
#[verifier::external_body]
fn point_decompressible(bytes: &Vec<u8>) -> (r: bool)
    requires
        bytes@.len() == 32,
    ensures
        r == valid_point_encoding(bytes@),
{
    CompressedRistretto::from_slice(bytes.as_slice()).unwrap()
        .decompress().is_some()
}

/// Relies on curve25519_dalek Scalar::from_canonical_bytes: whether 32
/// bytes canonically encode a scalar is a function of the bytes alone.
#[verifier::external_body]
fn scalar_is_canonical(bytes: &Vec<u8>) -> (r: bool)
    requires
        bytes@.len() == 32,
    ensures
        r == canonical_scalar(bytes@),
{
    let arr: [u8; 32] = bytes.as_slice().try_into().unwrap();
    let o: Option<Scalar> =
        Scalar::from_canonical_bytes(arr).into();
    o.is_some()
}

/// Relies on bulletproofs::RangeProof::prove_single (with the default
/// Pedersen commitment key), RangeProof::to_bytes, merlin::Transcript::new
/// and curve25519_dalek Scalar::from_canonical_bytes: proving succeeds for
/// a canonical blinding scalar, its output parses back, and — by the proof
/// system's completeness — a committed value within the range yields a
/// proof that verifies.
///
/// The transcript label must be `'static` in the transcript interface, so
/// each call leaks one copy of the domain-separation tag; callers on a hot
/// path should draw tags from a bounded set.
#[verifier::external_body]
fn bp_prove_range(
    v: u64,
    v_blinding: &Vec<u8>,
    num_bits: usize,
    dst: &Vec<u8>,
    gens_capacity: usize,
) -> (r: Option<(Vec<u8>, Vec<u8>)>)
    requires
        v_blinding@.len() == 32,
        spec_is_supported_number_of_bits(num_bits),
        num_bits <= gens_capacity,
    ensures
        r is Some <==> canonical_scalar(v_blinding@),
        match r {
            Some((proof, comm)) => comm@.len() == 32 && range_proof_parses(proof@) && ((
            v as int) < pow2(num_bits as nat) ==> valid_range_proof(proof@, comm@, num_bits, dst@,
                gens_capacity,
            )),
            None => true,
        },
{
    let arr: [u8; 32] = v_blinding.as_slice().try_into().unwrap();
    let o: Option<Scalar> =
        Scalar::from_canonical_bytes(arr).into();
    let blinding = match o {
        Some(s) => s,
        None => return None,
    };
    let pc_gens = bulletproofs::PedersenGens::default();
    let bp_gens = bulletproofs::BulletproofGens::new(gens_capacity, 1);
    let label: &'static [u8] = Box::leak(dst.clone().into_boxed_slice());
    let mut t = merlin::Transcript::new(label);
    let (proof, comm) = bulletproofs::RangeProof::prove_single(
        &bp_gens, &pc_gens, &mut t, v, &blinding, num_bits,
    ).unwrap();
    Some((proof.to_bytes(), comm.as_bytes().to_vec()))
}

/// Relies on bulletproofs::RangeProof::from_bytes: whether the bytes parse
/// is a function of the bytes alone.
#[verifier::external_body]
fn bp_proof_parses(proof_bytes: &Vec<u8>) -> (r: bool)
    ensures
        r == range_proof_parses(proof_bytes@),
{
    bulletproofs::RangeProof::from_bytes(proof_bytes.as_slice()).is_ok()
}

/// The gas cost up to and including proof deserialization.
pub open spec fn deserialize_gas_cost(gp: GasParameters, proof_len: int) -> int {
    gp.base + gp.per_byte_rangeproof_deserialize * proof_len
}

/// The whole gas cost of one verification: the base cost, the per-byte
/// deserialization cost, and the per-bit verification cost.
pub open spec fn verify_gas_cost(gp: GasParameters, proof_len: int, num_bits: int) -> int {
    gp.base + gp.per_byte_rangeproof_deserialize * proof_len + gp.per_bit_rangeproof_verify
        * num_bits
}

/// The complete behavior of one metered verification, relating the result
/// and the meter's balance after the call to the inputs. The base cost is
/// charged first, then the per-byte deserialization cost, then — only once
/// the proof bytes are known to parse — the per-bit verification cost; a
/// failed charge stops the call with whatever was already deducted, and
/// deserialization gas is charged even when the proof turns out malformed.
/// The verdict on a parseable proof is constrained one-sidedly, since the
/// outside verifier draws internal randomness: a commitment that is not 32
/// bytes never verifies, and a valid proof always does.
pub open spec fn metered_verify_outcome(
    gp: GasParameters,
    balance0: int,
    balance1: int,
    proof_len: int,
    num_bits: int,
    parses: bool,
    comm_len: int,
    valid: bool,
    r: Result<bool, NativeError>,
) -> bool {
    let c_base = gp.base as int;
    let c_deser = deserialize_gas_cost(gp, proof_len);
    let c_full = verify_gas_cost(gp, proof_len, num_bits);
    &&& (c_base > balance0 ==> r == Err::<bool, NativeError>(NativeError::OutOfGas) && balance1
        == balance0)
    &&& ((c_base <= balance0 && c_deser > balance0) ==> r == Err::<bool, NativeError>(
        NativeError::OutOfGas,
    ) && balance1 == balance0 - c_base)
    &&& ((c_deser <= balance0 && !parses) ==> r == Err::<bool, NativeError>(
        NativeError::Abort { code: NFE_DESERIALIZE_RANGE_PROOF },
    ) && balance1 == balance0 - c_deser)
    &&& ((c_deser <= balance0 && parses && c_full > balance0) ==> r == Err::<bool, NativeError>(
        NativeError::OutOfGas,
    ) && balance1 == balance0 - c_deser)
    &&& ((c_full <= balance0 && parses) ==> {
        &&& r is Ok
        &&& balance1 == balance0 - c_full
        &&& (comm_len != 32 ==> r == Ok::<bool, NativeError>(false))
        &&& ((comm_len == 32 && valid) ==> r == Ok::<bool, NativeError>(true))
    })
}

proof fn lemma_mul_nonneg(a: int, b: int)
    requires
        0 <= a,
        0 <= b,
    ensures
        0 <= a * b,
{
    assert(0 <= a * b) by (nonlinear_arith)
        requires
            0 <= a,
            0 <= b,
    ;
}

impl GasParameters {
    /// Gas-meter and verify a single range proof for a Pedersen commitment
    /// under the default commitment key: charge the base cost, charge the
    /// per-byte deserialization cost, parse the proof (aborting on
    /// malformed bytes), charge the per-bit verification cost, and hand the
    /// verdict back. A commitment that is not 32 bytes long can never
    /// verify.
    pub fn verify_range_proof(
        &self,
        meter: &mut GasMeter,
        comm_bytes: &Vec<u8>,
        proof_bytes: &Vec<u8>,
        num_bits: usize,
        dst: &Vec<u8>,
    ) -> (r: Result<bool, NativeError>)
        ensures
            metered_verify_outcome(
                *self,
                old(meter).balance as int,
                final(meter).balance as int,
                proof_bytes@.len() as int,
                num_bits as int,
                range_proof_parses(proof_bytes@),
                comm_bytes@.len() as int,
                valid_range_proof(proof_bytes@, comm_bytes@, num_bits, dst@, MAX_RANGE_BITS),
                r,
            ),
    {
        proof {
            lemma_mul_nonneg(
                self.per_byte_rangeproof_deserialize as int,
                proof_bytes@.len() as int,
            );
            lemma_mul_nonneg(self.per_bit_rangeproof_verify as int, num_bits as int);
        }
        match meter.charge(self.base as u128) {
            Ok(_) => {},
            Err(e) => {
                return Err(e);
            },
        }
        let per_byte = gas_mul(self.per_byte_rangeproof_deserialize, proof_bytes.len() as u64);
        match meter.charge(per_byte) {
            Ok(_) => {},
            Err(e) => {
                return Err(e);
            },
        }
        if !bp_proof_parses(proof_bytes) {
            return Err(NativeError::Abort { code: NFE_DESERIALIZE_RANGE_PROOF });
        }
        let per_bit = gas_mul(self.per_bit_rangeproof_verify, num_bits as u64);
        match meter.charge(per_bit) {
            Ok(_) => {},
            Err(e) => {
                return Err(e);
            },
        }
        if comm_bytes.len() != 32 {
            return Ok(false);
        }
        match bp_verify_range_proof(proof_bytes, comm_bytes, num_bits, dst, MAX_RANGE_BITS) {
            Err(_) => Err(NativeError::Abort { code: NFE_DESERIALIZE_RANGE_PROOF }),
            Ok(b) => Ok(b),
        }
    }

    /// The same, under a custom commitment key given by two compressed base
    /// points. Base points that do not decompress are an invariant
    /// violation in the handed-in arguments.
    pub fn verify_range_proof_custom_ck(
        &self,
        meter: &mut GasMeter,
        comm_bytes: &Vec<u8>,
        proof_bytes: &Vec<u8>,
        num_bits: usize,
        dst: &Vec<u8>,
        val_base: &Vec<u8>,
        rand_base: &Vec<u8>,
    ) -> (r: Result<bool, NativeError>)
        ensures
            (val_base@.len() != 32 || rand_base@.len() != 32) ==> r == Err::<bool, NativeError>(
                NativeError::InvariantViolation,
            ) && final(meter).balance == old(meter).balance,
            (val_base@.len() == 32 && rand_base@.len() == 32 && (!valid_point_encoding(val_base@)
                || !valid_point_encoding(rand_base@))) ==> r == Err::<bool, NativeError>(
                NativeError::InvariantViolation,
            ) && final(meter).balance == old(meter).balance,
            (val_base@.len() == 32 && rand_base@.len() == 32 && valid_point_encoding(val_base@)
                && valid_point_encoding(rand_base@)) ==> metered_verify_outcome(
                *self,
                old(meter).balance as int,
                final(meter).balance as int,
                proof_bytes@.len() as int,
                num_bits as int,
                range_proof_parses(proof_bytes@),
                comm_bytes@.len() as int,
                valid_range_proof_custom(proof_bytes@, comm_bytes@, num_bits, dst@,
                    MAX_RANGE_BITS, val_base@, rand_base@),
                r,
            ),
    {
        proof {
            lemma_mul_nonneg(
                self.per_byte_rangeproof_deserialize as int,
                proof_bytes@.len() as int,
            );
            lemma_mul_nonneg(self.per_bit_rangeproof_verify as int, num_bits as int);
        }
        if val_base.len() != 32 || rand_base.len() != 32 {
            return Err(NativeError::InvariantViolation);
        }
        if !point_decompressible(val_base) || !point_decompressible(rand_base) {
            return Err(NativeError::InvariantViolation);
        }
        match meter.charge(self.base as u128) {
            Ok(_) => {},
            Err(e) => {
                return Err(e);
            },
        }
        let per_byte = gas_mul(self.per_byte_rangeproof_deserialize, proof_bytes.len() as u64);
        match meter.charge(per_byte) {
            Ok(_) => {},
            Err(e) => {
                return Err(e);
            },
        }
        if !bp_proof_parses(proof_bytes) {
            return Err(NativeError::Abort { code: NFE_DESERIALIZE_RANGE_PROOF });
        }
        let per_bit = gas_mul(self.per_bit_rangeproof_verify, num_bits as u64);
        match meter.charge(per_bit) {
            Ok(_) => {},
            Err(e) => {
                return Err(e);
            },
        }
        if comm_bytes.len() != 32 {
            return Ok(false);
        }
        match bp_verify_range_proof_custom(proof_bytes, comm_bytes, num_bits, dst, MAX_RANGE_BITS,
            val_base, rand_base) {
            Err(_) => Err(NativeError::Abort { code: NFE_DESERIALIZE_RANGE_PROOF }),
            Ok(b) => Ok(b),
        }
    }
}

/// The range-proof verification native with the default commitment key:
/// an unsupported bit length aborts before any gas is charged; otherwise
/// the call behaves exactly as the metered verification.
pub fn native_verify_range_proof(
    gas_params: &GasParameters,
    meter: &mut GasMeter,
    comm_bytes: &Vec<u8>,
    proof_bytes: &Vec<u8>,
    num_bits: usize,
    dst: &Vec<u8>,
) -> (r: Result<bool, NativeError>)
    ensures
        !spec_is_supported_number_of_bits(num_bits) ==> r == Err::<bool, NativeError>(
            NativeError::Abort { code: NFE_RANGE_NOT_SUPPORTED },
        ) && final(meter).balance == old(meter).balance,
        spec_is_supported_number_of_bits(num_bits) ==> metered_verify_outcome(
            *gas_params,
            old(meter).balance as int,
            final(meter).balance as int,
            proof_bytes@.len() as int,
            num_bits as int,
            range_proof_parses(proof_bytes@),
            comm_bytes@.len() as int,
            valid_range_proof(proof_bytes@, comm_bytes@, num_bits, dst@, MAX_RANGE_BITS),
            r,
        ),
{
    if !is_supported_number_of_bits(num_bits) {
        return Err(NativeError::Abort { code: NFE_RANGE_NOT_SUPPORTED });
    }
    gas_params.verify_range_proof(meter, comm_bytes, proof_bytes, num_bits, dst)
}

/// The range-proof verification native with a custom commitment key: an
/// unsupported bit length aborts before any gas is charged; base points
/// that are not 32-byte canonical point encodings are an invariant
/// violation in the handed-in arguments, also before any charge; otherwise
/// the call behaves exactly as the metered verification under that key.
pub fn native_verify_range_proof_custom_ck(
    gas_params: &GasParameters,
    meter: &mut GasMeter,
    comm_bytes: &Vec<u8>,
    proof_bytes: &Vec<u8>,
    num_bits: usize,
    dst: &Vec<u8>,
    val_base: &Vec<u8>,
    rand_base: &Vec<u8>,
) -> (r: Result<bool, NativeError>)
    ensures
        !spec_is_supported_number_of_bits(num_bits) ==> r == Err::<bool, NativeError>(
            NativeError::Abort { code: NFE_RANGE_NOT_SUPPORTED },
        ) && final(meter).balance == old(meter).balance,
        (spec_is_supported_number_of_bits(num_bits) && (val_base@.len() != 32 || rand_base@.len()
            != 32)) ==> r == Err::<bool, NativeError>(NativeError::InvariantViolation) && final(meter).balance == old(meter).balance,
        (spec_is_supported_number_of_bits(num_bits) && val_base@.len() == 32 && rand_base@.len()
            == 32 && (!valid_point_encoding(val_base@) || !valid_point_encoding(rand_base@)))
            ==> r == Err::<bool, NativeError>(NativeError::InvariantViolation) && final(meter).balance == old(meter).balance,
        (spec_is_supported_number_of_bits(num_bits) && val_base@.len() == 32 && rand_base@.len()
            == 32 && valid_point_encoding(val_base@) && valid_point_encoding(rand_base@))
            ==> metered_verify_outcome(
            *gas_params,
            old(meter).balance as int,
            final(meter).balance as int,
            proof_bytes@.len() as int,
            num_bits as int,
            range_proof_parses(proof_bytes@),
            comm_bytes@.len() as int,
            valid_range_proof_custom(proof_bytes@, comm_bytes@, num_bits, dst@, MAX_RANGE_BITS,
                val_base@, rand_base@),
            r,
        ),
{
    if !is_supported_number_of_bits(num_bits) {
        return Err(NativeError::Abort { code: NFE_RANGE_NOT_SUPPORTED });
    }
    gas_params.verify_range_proof_custom_ck(meter, comm_bytes, proof_bytes, num_bits, dst,
        val_base, rand_base)
}

/// The test-only proving native: it charges no gas, validates its scalar
/// arguments, requires the committed value to fit in 64 bits, and
/// constructs a range proof with its Pedersen commitment. A value within
/// the requested range yields a proof that the verification native accepts.
#[verifier::loop_isolation(false)]
pub fn native_test_only_prove_range(
    v_bytes: &Vec<u8>,
    v_blinding_bytes: &Vec<u8>,
    num_bits: usize,
    dst: &Vec<u8>,
) -> (r: Result<(Vec<u8>, Vec<u8>), NativeError>)
    ensures
        (v_bytes@.len() != 32 || v_blinding_bytes@.len() != 32) ==> r == Err::<
            (Vec<u8>, Vec<u8>),
            NativeError,
        >(NativeError::InvariantViolation),
        (v_bytes@.len() == 32 && v_blinding_bytes@.len() == 32 && (!canonical_scalar(v_bytes@)
            || !canonical_scalar(v_blinding_bytes@))) ==> r == Err::<(Vec<u8>, Vec<u8>), NativeError>(
            NativeError::InvariantViolation,
        ),
        (v_bytes@.len() == 32 && v_blinding_bytes@.len() == 32 && canonical_scalar(v_bytes@)
            && canonical_scalar(v_blinding_bytes@) && !spec_is_supported_number_of_bits(num_bits))
            ==> r == Err::<(Vec<u8>, Vec<u8>), NativeError>(
            NativeError::Abort { code: NFE_RANGE_NOT_SUPPORTED },
        ),
        (v_bytes@.len() == 32 && v_blinding_bytes@.len() == 32 && canonical_scalar(v_bytes@)
            && canonical_scalar(v_blinding_bytes@) && spec_is_supported_number_of_bits(num_bits)
            && (exists|k: int| 8 <= k < 32 && v_bytes@[k] != 0)) ==> r == Err::<
            (Vec<u8>, Vec<u8>),
            NativeError,
        >(NativeError::Abort { code: NFE_VALUE_OUTSIDE_RANGE }),
        (v_bytes@.len() == 32 && v_blinding_bytes@.len() == 32 && canonical_scalar(v_bytes@)
            && canonical_scalar(v_blinding_bytes@) && spec_is_supported_number_of_bits(num_bits)
            && (forall|k: int| 8 <= k < 32 ==> v_bytes@[k] == 0)) ==> r is Ok,
        match r {
            Ok((proof, comm)) => {
                &&& spec_is_supported_number_of_bits(num_bits)
                &&& comm@.len() == 32
                &&& range_proof_parses(proof@)
                &&& (spec_u64_from_le_bytes(v_bytes@.subrange(0, 8)) < pow2(num_bits as nat)
                    ==> valid_range_proof(proof@, comm@, num_bits as usize, dst@, MAX_RANGE_BITS))
            },
            Err(_) => true,
        },
{
    if v_bytes.len() != 32 || v_blinding_bytes.len() != 32 {
        return Err(NativeError::InvariantViolation);
    }
    if !scalar_is_canonical(v_bytes) || !scalar_is_canonical(v_blinding_bytes) {
        return Err(NativeError::InvariantViolation);
    }
    if !is_supported_number_of_bits(num_bits) {
        return Err(NativeError::Abort { code: NFE_RANGE_NOT_SUPPORTED });
    }
    // Make sure only the first 64 bits of the committed value are set.
    let mut k: usize = 8;
    while k < 32
        invariant
            8 <= k <= 32,
            v_bytes@.len() == 32,
            forall|j: int| 8 <= j < k ==> v_bytes@[j] == 0,
        decreases 32 - k,
    {
        if v_bytes[k] != 0 {
            return Err(NativeError::Abort { code: NFE_VALUE_OUTSIDE_RANGE });
        }
        k += 1;
    }
    let v = crate::assemble::read_le_u64(v_bytes, 0);
    match bp_prove_range(v, v_blinding_bytes, num_bits, dst, MAX_RANGE_BITS) {
        Some(pair) => Ok(pair),
        None => Err(NativeError::InvariantViolation),
    }
}

} // verus!
