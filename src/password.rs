//! Salted, iterated password digests built on PBKDF2-HMAC-SHA512.
use vstd::prelude::*;
use vstd::utf8::encode_utf8;
use ring::rand::SecureRandom;

verus! {

/// Iteration count shared by derivation and verification.
pub const N_ITER: u32 = 100000;

/// Length in bytes of a salt and of a digest (the SHA-512/256 output size).
pub const CRE_LEN: usize = 32;

/// Largest salt or password, in bytes, that the digest function accepts here.
/// (The underlying hash counts its input in bits with a 64-bit counter.)
pub const MAX_KDF_INPUT_LEN: u64 = 0x1000_0000_0000_0000;

/// Byte `index` of the PBKDF2-HMAC-SHA512 output stream (the blocks
/// T1 || T2 || ...) for `secret` and `salt` with `iterations` rounds.
pub uninterp spec fn pbkdf2_sha512_byte(iterations: u32, salt: Seq<u8>, secret: Seq<u8>, index: nat) -> u8;

/// The PBKDF2-HMAC-SHA512 key of `len` bytes: a prefix of the output stream.
pub open spec fn pbkdf2_sha512(iterations: u32, salt: Seq<u8>, secret: Seq<u8>, len: nat) -> Seq<u8> {
    Seq::new(len, |i: int| pbkdf2_sha512_byte(iterations, salt, secret, i as nat))
}

/// The stored digest of password `pass` under `salt`.
pub open spec fn credential_digest(pass: Seq<char>, salt: Seq<u8>) -> Seq<u8> {
    pbkdf2_sha512(N_ITER, salt, encode_utf8(pass), CRE_LEN as nat)
}

/// Whether `digest` is the stored digest of `pass` under `salt`.
pub open spec fn password_matches(pass: Seq<char>, digest: Seq<u8>, salt: Seq<u8>) -> bool {
    digest == credential_digest(pass, salt)
}

/// Inputs small enough for the digest function.
pub open spec fn kdf_inputs_fit(pass: Seq<char>, salt: Seq<u8>) -> bool {
    &&& encode_utf8(pass).len() <= MAX_KDF_INPUT_LEN
    &&& salt.len() <= MAX_KDF_INPUT_LEN
}

/// The secure random source could not supply bytes.
#[derive(Debug, Clone, Copy, PartialEq, Eq)]
pub struct EntropyUnavailable;

/// Relies on ring::rand::SystemRandom::fill: on success the whole buffer of
/// `len` bytes has been filled from the operating system's secure source.
#[verifier::external_body]
fn secure_random_bytes(len: usize) -> (r: Option<Vec<u8>>)
    ensures
        r matches Some(v) ==> v@.len() == len,
{
    let mut buf = vec![0u8; len];
    match ring::rand::SystemRandom::new().fill(&mut buf) {
        Ok(()) => Some(buf),
        Err(_) => None,
    }
}

/// Relies on ring::pbkdf2::derive with PBKDF2_HMAC_SHA512: writes the first
/// `len` bytes of the derived key. It panics only on inputs past the bounds
/// that `requires` sets.
#[verifier::external_body]
fn pbkdf2_derive(iterations: u32, salt: &[u8], secret: &[u8], len: usize) -> (r: Vec<u8>)
    requires
        iterations > 0,
        salt@.len() <= MAX_KDF_INPUT_LEN,
        secret@.len() <= MAX_KDF_INPUT_LEN,
        len <= u32::MAX,
    ensures
        r@ == Seq::new(len as nat, |i: int| pbkdf2_sha512_byte(iterations, salt@, secret@, i as nat)),
{
    let mut out = vec![0u8; len];
    let rounds = std::num::NonZeroU32::new(iterations).unwrap();
    ring::pbkdf2::derive(ring::pbkdf2::PBKDF2_HMAC_SHA512, rounds, salt, secret, &mut out);
    out
}

/// Relies on ring::pbkdf2::verify with PBKDF2_HMAC_SHA512: succeeds exactly
/// when the non-empty `previously_derived` equals the derived key of the same
/// length; the comparison runs in constant time.
#[verifier::external_body]
fn pbkdf2_verify(iterations: u32, salt: &[u8], secret: &[u8], previously_derived: &[u8]) -> (r: bool)
    requires
        iterations > 0,
        salt@.len() <= MAX_KDF_INPUT_LEN,
        secret@.len() <= MAX_KDF_INPUT_LEN,
        0 < previously_derived@.len() <= u32::MAX,
    ensures
        r == (previously_derived@ == Seq::new(
            previously_derived@.len(),
            |i: int| pbkdf2_sha512_byte(iterations, salt@, secret@, i as nat),
        )),
{
    let rounds = std::num::NonZeroU32::new(iterations).unwrap();
    ring::pbkdf2::verify(ring::pbkdf2::PBKDF2_HMAC_SHA512, rounds, salt, secret, previously_derived).is_ok()
}

/// Draws a fresh salt of `CRE_LEN` bytes from the system's secure random source.
/// Fails only when that source cannot supply bytes.
pub fn gen_salt() -> (r: Result<Vec<u8>, EntropyUnavailable>)
    ensures
        r matches Ok(s) ==> s@.len() == CRE_LEN,
{
    match secure_random_bytes(CRE_LEN) {
        Some(s) => Ok(s),
        None => Err(EntropyUnavailable),
    }
}

/// Derives the digest of `pass` under `salt`.
pub fn hash_password(pass: String, salt: &Vec<u8>) -> (r: Vec<u8>)
    requires
        kdf_inputs_fit(pass@, salt@),
    ensures
        r@ == credential_digest(pass@, salt@),
        r@.len() == CRE_LEN,
{
    let secret = pass.as_str().as_bytes();
    pbkdf2_derive(N_ITER, salt.as_slice(), secret, CRE_LEN)
}

/// Whether `compare_to` is the digest of `pass` under `salt`.
pub fn verify_password(pass: String, compare_to: Vec<u8>, salt: &Vec<u8>) -> (r: bool)
    requires
        kdf_inputs_fit(pass@, salt@),
    ensures
        r == password_matches(pass@, compare_to@, salt@),
{
    if compare_to.len() != CRE_LEN {
        return false;
    }
    let secret = pass.as_str().as_bytes();
    pbkdf2_verify(N_ITER, salt.as_slice(), secret, compare_to.as_slice())
}

/// Derivation is deterministic: equal passwords under equal salts give
/// equal digests, whenever and however often the digest is computed.
pub proof fn law_digest_deterministic(pass1: Seq<char>, salt1: Seq<u8>, pass2: Seq<char>, salt2: Seq<u8>)
    requires
        pass1 == pass2,
        salt1 == salt2,
    ensures
        credential_digest(pass1, salt1) == credential_digest(pass2, salt2),
{
}

/// A password always matches the digest derived from it under the same salt.
pub proof fn law_verify_accepts_own_digest(pass: Seq<char>, salt: Seq<u8>)
    ensures
        password_matches(pass, credential_digest(pass, salt), salt),
        credential_digest(pass, salt).len() == CRE_LEN,
{
}

/// A digest made from one password rejects another password under the same
/// salt, wherever the two passwords' digests differ (no PBKDF2 collision).
pub proof fn law_verify_rejects_other_password(pass1: Seq<char>, pass2: Seq<char>, salt: Seq<u8>)
    requires
        credential_digest(pass1, salt) != credential_digest(pass2, salt),
    ensures
        !password_matches(pass2, credential_digest(pass1, salt), salt),
{
}

} // verus!
