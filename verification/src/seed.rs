//! Seed resolution: turning operator input (a passphrase, a raw hexadecimal
//! seed, or nothing) into the 32-byte seed that keys the byte stream.

use vstd::prelude::*;

use crate::hexcode::{all_hex_digits, decode_hex, hex_decoded};
use sha2::Digest;

verus! {

/// A resolved generator seed: exactly 32 bytes, immutable once produced.
#[derive(Debug)]
pub struct Seed {
    bytes: Vec<u8>,
}

impl View for Seed {
    type V = Seq<u8>;

    closed spec fn view(&self) -> Seq<u8> {
        self.bytes@
    }
}

impl Seed {
    /// A seed is well formed when it holds exactly 32 bytes.
    pub open spec fn wf(&self) -> bool {
        self@.len() == 32
    }

    /// Wraps 32 bytes as a seed; `None` for any other length.
    pub fn from_bytes(bytes: Vec<u8>) -> (r: Option<Seed>)
        ensures
            match r {
                Some(s) => bytes@.len() == 32 && s@ == bytes@ && s.wf(),
                None => bytes@.len() != 32,
            },
    {
        if bytes.len() == 32 {
            Some(Seed { bytes })
        } else {
            None
        }
    }

    /// The seed's bytes, for reporting a run's seed to the operator.
    pub fn bytes(&self) -> (r: &Vec<u8>)
        ensures
            r@ == self@,
    {
        &self.bytes
    }
}

/// The SHA-256 digest of a byte string.
pub uninterp spec fn sha256_of(data: Seq<u8>) -> Seq<u8>;

/// Relies on sha2::Sha256::digest: SHA-256 is a pure function of its input
/// bytes and its digest is exactly 32 bytes.
#[verifier::external_body]
fn sha256(data: &Vec<u8>) -> (r: Vec<u8>)
    ensures
        r@ == sha256_of(data@),
        r@.len() == 32,
{
    sha2::Sha256::digest(data.as_slice()).to_vec()
}

/// Relies on rand::random: draws 32 bytes from the thread-local generator.
/// Nothing is assumed of their values.
#[verifier::external_body]
fn random_seed_bytes() -> (r: Vec<u8>)
    ensures
        r@.len() == 32,
{
    let drawn: [u8; 32] = rand::random();
    drawn.to_vec()
}

/// The configuration faults that stop a run before any device is touched.
#[derive(Debug, Clone, Copy, PartialEq, Eq, Structural)]
pub enum SeedError {
    /// A passphrase and a raw seed were both supplied.
    ConflictingSeedInputs,
    /// The raw seed was not exactly 64 characters.
    InvalidRawSeedLength,
    /// The raw seed held a character that is no hexadecimal digit.
    InvalidHexEncoding,
    /// No seed was supplied for a run that reads but does not write: a random,
    /// unrecorded seed could never verify.
    RandomSeedRequiresWrite,
}

/// Resolves operator input into the 32-byte seed.
///
/// At most one of `passphrase` and `raw_hex` may be supplied. A passphrase is
/// hashed to the seed; a raw seed must be exactly 64 hexadecimal characters
/// and decodes to the seed; with neither, a random seed is drawn, which is
/// rejected when the run would read without writing.
pub fn resolve_seed(
    passphrase: Option<&Vec<u8>>,
    raw_hex: Option<&Vec<u8>>,
    write: bool,
    read: bool,
) -> (r: Result<Seed, SeedError>)
    ensures
        match (passphrase, raw_hex) {
            (Some(_), Some(_)) => r matches Err(e) && e == SeedError::ConflictingSeedInputs,
            (Some(p), None) => r matches Ok(s) && s@ == sha256_of(p@) && s.wf(),
            (None, Some(h)) => {
                if h@.len() != 64 {
                    r matches Err(e) && e == SeedError::InvalidRawSeedLength
                } else if !all_hex_digits(h@) {
                    r matches Err(e) && e == SeedError::InvalidHexEncoding
                } else {
                    r matches Ok(s) && s@ == hex_decoded(h@) && s.wf()
                }
            },
            (None, None) => {
                if !write && read {
                    r matches Err(e) && e == SeedError::RandomSeedRequiresWrite
                } else {
                    r matches Ok(s) && s.wf()
                }
            },
        },
{
    match (passphrase, raw_hex) {
        (Some(_), Some(_)) => Err(SeedError::ConflictingSeedInputs),
        (Some(p), None) => Ok(Seed { bytes: sha256(p) }),
        (None, Some(h)) => {
            if h.len() != 64 {
                return Err(SeedError::InvalidRawSeedLength);
            }
            match decode_hex(h) {
                Some(bytes) => Ok(Seed { bytes }),
                None => Err(SeedError::InvalidHexEncoding),
            }
        },
        (None, None) => {
            if !write && read {
                return Err(SeedError::RandomSeedRequiresWrite);
            }
            Ok(Seed { bytes: random_seed_bytes() })
        },
    }
}

/// Law: passphrase seeding is a pure function. Any two seeds resolved from
/// the same passphrase bytes are equal.
pub proof fn lemma_passphrase_seed_deterministic(p: Seq<u8>, s1: Seq<u8>, s2: Seq<u8>)
    requires
        s1 == sha256_of(p),
        s2 == sha256_of(p),
    ensures
        s1 == s2,
{
}

} // verus!
