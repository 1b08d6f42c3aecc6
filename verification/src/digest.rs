//! The digest accumulator: a running MD5 over a byte stream.
//!
//! The hash itself is OpenSSL's and is taken on trust.  The bytes an
//! OpenSSL hasher has absorbed are given a name, `absorbed`, and every
//! trusted contract here speaks of that name, so callers can reason about
//! the digest of a known byte sequence.

use vstd::prelude::*;

verus! {

/// The MD5 digest of a byte sequence, as OpenSSL computes it.
/// It depends on the bytes alone; nothing here states its value.
pub uninterp spec fn md5_of(data: Seq<u8>) -> Seq<u8>;

/// The bytes an OpenSSL hasher has absorbed since it was created.
pub uninterp spec fn absorbed(h: openssl::hash::Hasher) -> Seq<u8>;

#[verifier::external_type_specification]
#[verifier::external_body]
pub struct ExMessageDigest(openssl::hash::MessageDigest);

#[verifier::external_type_specification]
#[verifier::external_body]
pub struct ExHasher(openssl::hash::Hasher);

#[verifier::external_type_specification]
#[verifier::external_body]
pub struct ExErrorStack(openssl::error::ErrorStack);

/// A fatal fault of the underlying hash state.
#[derive(Clone, Copy, Debug, PartialEq, Eq, Structural)]
pub enum DigestError {
    State,
}

impl DigestError {
    pub fn message(&self) -> (r: &'static str)
        ensures
            r@ == "digest state failure"@,
    {
        "digest state failure"
    }
}

/// A running hash; its view is the sequence of bytes fed so far.
///
/// `finalize` consumes the accumulator, so a digest is read out exactly
/// once per stream.
pub struct DigestAcc {
    hasher: openssl::hash::Hasher,
}

/// Relies on openssl::hash::MessageDigest::md5: selects the MD5 algorithm.
#[verifier::external_body]
fn md5_algorithm() -> openssl::hash::MessageDigest {
    openssl::hash::MessageDigest::md5()
}

/// Relies on openssl::hash::Hasher::new: a fresh hasher has absorbed no bytes.
#[verifier::external_body]
fn hasher_new() -> (r: Result<openssl::hash::Hasher, openssl::error::ErrorStack>)
    ensures
        r matches Ok(h) ==> absorbed(h) == Seq::<u8>::empty(),
{
    openssl::hash::Hasher::new(md5_algorithm())
}

/// Relies on openssl::hash::Hasher::update: on success the hasher has
/// absorbed exactly `data` beyond what it had absorbed before.
#[verifier::external_body]
fn hasher_update(h: &mut openssl::hash::Hasher, data: &[u8]) -> (r: Result<
    (),
    openssl::error::ErrorStack,
>)
    ensures
        r is Ok ==> absorbed(*final(h)) == absorbed(*old(h)) + data@,
{
    h.update(data)
}

/// Relies on openssl::hash::Hasher::finish: the digest is a function of the
/// absorbed bytes alone, and an MD5 digest is 16 bytes long.
#[verifier::external_body]
fn hasher_finish(h: openssl::hash::Hasher) -> (r: Result<Vec<u8>, openssl::error::ErrorStack>)
    ensures
        r matches Ok(d) ==> d@ == md5_of(absorbed(h)) && d@.len() == 16,
{
    let mut h = h;
    match h.finish() {
        Ok(d) => Ok(d.to_vec()),
        Err(e) => Err(e),
    }
}

impl DigestAcc {
    pub closed spec fn view(&self) -> Seq<u8> {
        absorbed(self.hasher)
    }

    /// A fresh accumulator that has seen no bytes.
    pub fn new() -> (r: Result<DigestAcc, DigestError>)
        ensures
            r matches Ok(a) ==> a@ == Seq::<u8>::empty(),
    {
        match hasher_new() {
            Ok(h) => Ok(DigestAcc { hasher: h }),
            Err(_) => Err(DigestError::State),
        }
    }

    /// Feeds bytes into the running hash.
    pub fn update(&mut self, data: &[u8]) -> (r: Result<(), DigestError>)
        ensures
            r is Ok ==> final(self)@ == old(self)@ + data@,
    {
        match hasher_update(&mut self.hasher, data) {
            Ok(u) => Ok(u),
            Err(_) => Err(DigestError::State),
        }
    }

    /// Consumes the accumulator and returns the digest of every byte it saw.
    pub fn finalize(self) -> (r: Result<Vec<u8>, DigestError>)
        ensures
            r matches Ok(d) ==> d@ == md5_of(self@) && d@.len() == 16,
    {
        match hasher_finish(self.hasher) {
            Ok(d) => Ok(d),
            Err(_) => Err(DigestError::State),
        }
    }
}

} // verus!
