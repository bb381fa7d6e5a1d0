use vstd::prelude::*;

use byteorder::{ByteOrder, NetworkEndian};
use num_bigint::BigUint;
use rand::RngCore;
use sha2::{Digest, Sha256};

verus! {

/// Value of a big-endian unsigned magnitude; leading zero bytes add nothing.
pub open spec fn be_value(s: Seq<u8>) -> nat
    decreases s.len(),
{
    if s.len() == 0 {
        0
    } else {
        be_value(s.drop_last()) * 256 + s.last() as nat
    }
}

/// A single byte is its own value.
pub proof fn lemma_be_value_single(s: Seq<u8>)
    requires
        s.len() == 1,
    ensures
        be_value(s) == s[0],
{
    reveal_with_fuel(be_value, 2);
    assert(be_value(s.drop_last()) == 0);
}

/// SHA-256 digest of a byte string.
pub uninterp spec fn sha256_of(data: Seq<u8>) -> Seq<u8>;

/// Appends `src` to `dst`.
pub fn append_bytes(dst: &mut Vec<u8>, src: &[u8])
    ensures
        final(dst)@ == old(dst)@ + src@,
{
    let mut i: usize = 0;
    while i < src.len()
        invariant
            0 <= i <= src@.len(),
            dst@ == old(dst)@ + src@.take(i as int),
        decreases src@.len() - i,
    {
        dst.push(src[i]);
        assert(src@.take(i as int + 1) =~= src@.take(i as int).push(src@[i as int]));
        i = i + 1;
    }
    assert(src@.take(src@.len() as int) =~= src@);
}

/// Relies on byteorder's `NetworkEndian::write_u64`: eight bytes, most
/// significant first.
#[verifier::external_body]
pub(crate) fn u64_to_net(v: u64) -> (r: Vec<u8>)
    ensures
        r@.len() == 8,
        be_value(r@) == v,
{
    let mut buf = vec![0u8; 8];
    NetworkEndian::write_u64(&mut buf, v);
    buf
}

/// Relies on byteorder's `NetworkEndian::write_u32`: four bytes, most
/// significant first.
#[verifier::external_body]
pub(crate) fn u32_to_net(v: u32) -> (r: Vec<u8>)
    ensures
        r@.len() == 4,
        be_value(r@) == v,
{
    let mut buf = vec![0u8; 4];
    NetworkEndian::write_u32(&mut buf, v);
    buf
}

/// Relies on byteorder's `NetworkEndian::read_u64`: reads the eight bytes
/// that start at `at`, most significant first.
#[verifier::external_body]
pub(crate) fn u64_from_net(data: &[u8], at: usize) -> (r: u64)
    requires
        at + 8 <= data@.len(),
    ensures
        r == be_value(data@.subrange(at as int, at + 8)),
{
    NetworkEndian::read_u64(&data[at..])
}

/// Relies on byteorder's `NetworkEndian::read_u32`: reads the four bytes
/// that start at `at`, most significant first.
#[verifier::external_body]
pub(crate) fn u32_from_net(data: &[u8], at: usize) -> (r: u32)
    requires
        at + 4 <= data@.len(),
    ensures
        r == be_value(data@.subrange(at as int, at + 4)),
{
    NetworkEndian::read_u32(&data[at..])
}

/// Relies on `BigUint::modpow` (with `from_bytes_be` and `to_bytes_be` to
/// convert): `base ^ exponent % modulus`, which panics on a zero modulus.
#[verifier::external_body]
pub(crate) fn big_modpow(base: &[u8], exponent: &[u8], modulus: &[u8]) -> (r: Vec<u8>)
    requires
        be_value(modulus@) > 0,
    ensures
        be_value(r@) == vstd::arithmetic::power::pow(
            be_value(base@) as int,
            be_value(exponent@),
        ) % (be_value(modulus@) as int),
{
    let b = BigUint::from_bytes_be(base);
    let e = BigUint::from_bytes_be(exponent);
    let m = BigUint::from_bytes_be(modulus);
    b.modpow(&e, &m).to_bytes_be()
}

/// Relies on `BigUint::pow`: `base ^ exponent`.
#[verifier::external_body]
pub(crate) fn big_pow(base: &[u8], exponent: u32) -> (r: Vec<u8>)
    ensures
        be_value(r@) == vstd::arithmetic::power::pow(be_value(base@) as int, exponent as nat),
{
    BigUint::from_bytes_be(base).pow(exponent).to_bytes_be()
}

/// Relies on `BigUint`'s `Mul`: the product.
#[verifier::external_body]
pub(crate) fn big_mul(x: &[u8], y: &[u8]) -> (r: Vec<u8>)
    ensures
        be_value(r@) == be_value(x@) * be_value(y@),
{
    (BigUint::from_bytes_be(x) * BigUint::from_bytes_be(y)).to_bytes_be()
}

/// Relies on `BigUint`'s `Sub`: the difference, which panics below zero.
#[verifier::external_body]
pub(crate) fn big_sub(x: &[u8], y: &[u8]) -> (r: Vec<u8>)
    requires
        be_value(x@) >= be_value(y@),
    ensures
        be_value(r@) == be_value(x@) - be_value(y@),
{
    (BigUint::from_bytes_be(x) - BigUint::from_bytes_be(y)).to_bytes_be()
}

/// Relies on `BigUint`'s `PartialEq`: two magnitudes are compared by value.
#[verifier::external_body]
pub(crate) fn big_eq(x: &[u8], y: &[u8]) -> (r: bool)
    ensures
        r == (be_value(x@) == be_value(y@)),
{
    BigUint::from_bytes_be(x) == BigUint::from_bytes_be(y)
}

/// Relies on glass_pumpkin's `prime::new`: a probable prime drawn from the
/// OS generator. Below 128 bits it refuses; otherwise the candidate is odd
/// and has exactly `bit_length` bits (its top bit set), so it is above 1.
#[verifier::external_body]
pub(crate) fn random_prime(bit_length: usize) -> (r: Option<Vec<u8>>)
    ensures
        bit_length >= 128 ==> r.is_some(),
        r matches Some(p) ==> be_value(p@) > 1,
        r matches Some(p) ==> vstd::arithmetic::power::pow(2, (bit_length - 1) as nat) <= be_value(
            p@,
        ) < vstd::arithmetic::power::pow(2, bit_length as nat),
{
    glass_pumpkin::prime::new(bit_length).ok().map(|p| p.to_bytes_be())
}

/// Relies on rand's `OsRng::fill_bytes`: `len` bytes from the OS generator.
#[verifier::external_body]
pub(crate) fn random_bytes(len: usize) -> (r: Vec<u8>)
    ensures
        r@.len() == len,
{
    let mut data = vec![0u8; len];
    rand::rngs::OsRng.fill_bytes(&mut data);
    data
}

/// Relies on sha2's `Sha256`: the 32-byte digest of `data`.
#[verifier::external_body]
pub(crate) fn sha256(data: &[u8]) -> (r: Vec<u8>)
    ensures
        r@ == sha256_of(data@),
        r@.len() == 32,
{
    Sha256::digest(data).to_vec()
}

} // verus!
