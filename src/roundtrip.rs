use vstd::prelude::*;

use crate::bytes::{random_bytes, sha256, sha256_of};

verus! {

/// Bytes in a kibibyte.
pub const KB: usize = 1024;

/// Bytes in a mebibyte.
pub const MB: usize = 1048576;

/// `megabytes` mebibytes of random data.
pub fn generate_random_data_mb(megabytes: usize) -> (r: Vec<u8>)
    requires
        megabytes * MB <= usize::MAX,
    ensures
        r@.len() == megabytes * MB,
{
    random_bytes(megabytes * MB)
}

/// `kilobytes` kibibytes of random data.
pub fn generate_random_data_kb(kilobytes: usize) -> (r: Vec<u8>)
    requires
        kilobytes * KB <= usize::MAX,
    ensures
        r@.len() == kilobytes * KB,
{
    random_bytes(kilobytes * KB)
}

/// A random payload that the client must send back unchanged.
pub struct Roundtrip {
    pub data: Vec<u8>,
}

/// Holds the SHA-256 digest of a payload.
pub struct RoundtripVerifier {
    pub hash: Vec<u8>,
}

/// Whether two byte strings are equal.
pub fn digest_matches(digest: &[u8], expected: &[u8]) -> (r: bool)
    ensures
        r == (digest@ == expected@),
{
    if digest.len() != expected.len() {
        return false;
    }
    let mut i: usize = 0;
    while i < digest.len()
        invariant
            0 <= i <= digest@.len(),
            digest@.len() == expected@.len(),
            digest@.take(i as int) == expected@.take(i as int),
        decreases digest@.len() - i,
    {
        if digest[i] != expected[i] {
            return false;
        }
        assert(digest@.take(i as int + 1) =~= digest@.take(i as int).push(digest@[i as int]));
        assert(expected@.take(i as int + 1) =~= expected@.take(i as int).push(expected@[i as int]));
        i = i + 1;
    }
    assert(digest@.take(digest@.len() as int) =~= digest@);
    assert(expected@.take(expected@.len() as int) =~= expected@);
    true
}

impl Roundtrip {
    /// Draws `size_in_kbs` kibibytes of random data; the verifier keeps their
    /// SHA-256 digest.
    pub fn generate(size_in_kbs: usize) -> (r: (Roundtrip, RoundtripVerifier))
        requires
            size_in_kbs * KB <= usize::MAX,
        ensures
            r.0.data@.len() == size_in_kbs * KB,
            r.1.hash@ == sha256_of(r.0.data@),
            r.1.hash@.len() == 32,
    {
        let data = generate_random_data_kb(size_in_kbs);
        let hash = sha256(data.as_slice());
        (Roundtrip { data }, RoundtripVerifier { hash })
    }

    /// The payload as sent: the bytes themselves.
    pub fn to_wire(self) -> (r: Vec<u8>)
        ensures
            r@ == self.data@,
    {
        self.data
    }

    /// A payload received as bytes.
    pub fn from_wire(data: Vec<u8>) -> (r: Roundtrip)
        ensures
            r.data@ == data@,
    {
        Roundtrip { data }
    }
}

impl RoundtripVerifier {
    /// Whether the response has the digest of the payload.
    pub fn verify(&self, client_response: Vec<u8>) -> (r: bool)
        ensures
            r == (sha256_of(client_response@) == self.hash@),
    {
        let digest = sha256(client_response.as_slice());
        digest_matches(digest.as_slice(), self.hash.as_slice())
    }
}

} // verus!
