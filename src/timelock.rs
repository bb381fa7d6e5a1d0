use vstd::prelude::*;

use crate::bytes::{
    append_bytes, be_value, lemma_be_value_single, big_eq, big_modpow, big_mul, big_pow, big_sub, random_bytes,
    random_prime, u32_from_net, u32_to_net, u64_from_net, u64_to_net,
};
use vstd::arithmetic::power::pow;

verus! {

/// A time-lock puzzle: find `a ^ (2 ^ squarings) mod n`. The magnitudes `a`
/// and `n` are big-endian byte strings.
pub struct Timelock {
    pub a: Vec<u8>,
    pub n: Vec<u8>,
    pub squarings: u32,
}

/// Holds the answer to one puzzle.
pub struct TimelockVerifier {
    pub answer: Vec<u8>,
}

/// Why a serialized puzzle was refused.
#[derive(Debug, PartialEq, Eq, Structural)]
pub enum ParseError {
    /// A declared length, or a fixed-size field, runs past the buffer.
    Truncated,
    /// Bytes remain after the last field.
    TrailingData,
}

/// The answer to puzzle `(a, n, squarings)`.
pub open spec fn puzzle_answer(a: nat, n: nat, squarings: nat) -> int {
    pow(a as int, pow(2, squarings) as nat) % (n as int)
}

/// The answer to puzzle `(a, p * q, squarings)` by the trapdoor:
/// `a ^ (2 ^ squarings mod (p - 1)(q - 1)) mod p * q`.
pub open spec fn trapdoor_answer(a: nat, p: nat, q: nat, squarings: nat) -> int {
    pow(a as int, (pow(2, squarings) % ((p - 1) * (q - 1))) as nat) % ((p * q) as int)
}

/// `w` is the serialized form of puzzle `(a, n, s)`:
/// `[u64 len a][a][u64 len n][n][u32 s]`, integers in network order.
pub open spec fn is_wire_of(w: Seq<u8>, a: Seq<u8>, n: Seq<u8>, s: u32) -> bool {
    let la = a.len() as int;
    let ln = n.len() as int;
    &&& w.len() == 20 + la + ln
    &&& be_value(w.subrange(0, 8)) == la
    &&& w.subrange(8, 8 + la) == a
    &&& be_value(w.subrange(8 + la, 16 + la)) == ln
    &&& w.subrange(16 + la, 16 + la + ln) == n
    &&& be_value(w.subrange(16 + la + ln, w.len() as int)) == s
}

/// Where the fields that `w` declares end, if they fit in `w`.
pub open spec fn declared_end(w: Seq<u8>) -> Option<int> {
    if w.len() < 8 {
        None
    } else {
        let la = be_value(w.subrange(0, 8)) as int;
        if la > w.len() - 8 || w.len() - 8 - la < 8 {
            None
        } else {
            let ln = be_value(w.subrange(8 + la, 16 + la)) as int;
            if ln > w.len() - 16 - la || w.len() - 16 - la - ln < 4 {
                None
            } else {
                Some(20 + la + ln)
            }
        }
    }
}

/// The serialized form of a puzzle determines the puzzle.
pub proof fn lemma_wire_unique(w: Seq<u8>, a1: Seq<u8>, n1: Seq<u8>, s1: u32, a2: Seq<u8>, n2: Seq<u8>, s2: u32)
    requires
        is_wire_of(w, a1, n1, s1),
        is_wire_of(w, a2, n2, s2),
    ensures
        a1 == a2,
        n1 == n2,
        s1 == s2,
{
}

/// The serialized form of a puzzle declares exactly its own length, so
/// parsing it succeeds.
pub proof fn lemma_wire_parses(w: Seq<u8>, a: Seq<u8>, n: Seq<u8>, s: u32)
    requires
        is_wire_of(w, a, n, s),
    ensures
        declared_end(w) == Some(w.len() as int),
{
}

impl Timelock {
    /// Solves the puzzle the slow way: `a ^ (2 ^ squarings) mod n`.
    pub fn perform_challenge(&self) -> (r: Vec<u8>)
        requires
            be_value(self.n@) > 0,
        ensures
            be_value(r@) == puzzle_answer(be_value(self.a@), be_value(self.n@), self.squarings as nat),
    {
        let two: Vec<u8> = vec![2u8];
        proof {
            lemma_be_value_single(two@);
        }
        let exponent = big_pow(two.as_slice(), self.squarings);
        big_modpow(self.a.as_slice(), exponent.as_slice(), self.n.as_slice())
    }

    /// Serializes the puzzle.
    pub fn to_wire(&self) -> (r: Vec<u8>)
        requires
            self.a@.len() + self.n@.len() + 20 <= usize::MAX,
        ensures
            is_wire_of(r@, self.a@, self.n@, self.squarings),
    {
        let la = u64_to_net(self.a.len() as u64);
        let ln = u64_to_net(self.n.len() as u64);
        let ls = u32_to_net(self.squarings);
        let mut result: Vec<u8> = Vec::new();
        append_bytes(&mut result, la.as_slice());
        append_bytes(&mut result, self.a.as_slice());
        append_bytes(&mut result, ln.as_slice());
        append_bytes(&mut result, self.n.as_slice());
        append_bytes(&mut result, ls.as_slice());
        let ghost w = result@;
        let ghost a = self.a@;
        let ghost n = self.n@;
        let ghost la_i = a.len() as int;
        let ghost ln_i = n.len() as int;
        assert(w.subrange(0, 8) =~= la@);
        assert(w.subrange(8, 8 + la_i) =~= a);
        assert(w.subrange(8 + la_i, 16 + la_i) =~= ln@);
        assert(w.subrange(16 + la_i, 16 + la_i + ln_i) =~= n);
        assert(w.subrange(16 + la_i + ln_i, w.len() as int) =~= ls@);
        result
    }

    /// Parses a serialized puzzle. Fails with `Truncated` where a field runs
    /// past the buffer and with `TrailingData` where bytes remain after it.
    pub fn from_wire(data: Vec<u8>) -> (r: Result<Timelock, ParseError>)
        ensures
            declared_end(data@) is None <==> r == Err::<Timelock, ParseError>(ParseError::Truncated),
            (declared_end(data@) matches Some(e) && e != data@.len()) <==> r
                == Err::<Timelock, ParseError>(ParseError::TrailingData),
            r matches Ok(t) ==> is_wire_of(data@, t.a@, t.n@, t.squarings),
    {
        let d = data.as_slice();
        if d.len() < 8 {
            return Err(ParseError::Truncated);
        }
        let la = u64_from_net(d, 0);
        if la > (d.len() - 8) as u64 {
            return Err(ParseError::Truncated);
        }
        let la = la as usize;
        if d.len() - 8 - la < 8 {
            return Err(ParseError::Truncated);
        }
        let a_end = 8 + la;
        let ln = u64_from_net(d, a_end);
        if ln > (d.len() - 16 - la) as u64 {
            return Err(ParseError::Truncated);
        }
        let ln = ln as usize;
        if d.len() - 16 - la - ln < 4 {
            return Err(ParseError::Truncated);
        }
        let n_end = a_end + 8 + ln;
        let squarings = u32_from_net(d, n_end);
        if n_end + 4 != d.len() {
            return Err(ParseError::TrailingData);
        }
        let a = vstd::slice::slice_to_vec(vstd::slice::slice_subrange(d, 8, a_end));
        let n = vstd::slice::slice_to_vec(vstd::slice::slice_subrange(d, a_end + 8, n_end));
        Ok(Timelock { a, n, squarings })
    }

    /// Builds the puzzle `(a, p * q, squarings)` and its answer from the
    /// secret factors `p` and `q`: the trapdoor `2 ^ squarings mod (p - 1)(q - 1)`
    /// gives the answer without the squarings.
    pub fn from_secrets(p: &[u8], q: &[u8], a: Vec<u8>, squarings: u32) -> (r: (
        Timelock,
        TimelockVerifier,
    ))
        requires
            be_value(p@) > 1,
            be_value(q@) > 1,
        ensures
            r.0.a@ == a@,
            r.0.squarings == squarings,
            be_value(r.0.n@) == be_value(p@) * be_value(q@),
            be_value(r.1.answer@) == trapdoor_answer(
                be_value(a@),
                be_value(p@),
                be_value(q@),
                squarings as nat,
            ),
            be_value(r.1.answer@) < be_value(r.0.n@),
    {
        let one: Vec<u8> = vec![1u8];
        let two: Vec<u8> = vec![2u8];
        proof {
            lemma_be_value_single(one@);
            lemma_be_value_single(two@);
        }
        let p_less = big_sub(p, one.as_slice());
        let q_less = big_sub(q, one.as_slice());
        let phi = big_mul(p_less.as_slice(), q_less.as_slice());
        let n = big_mul(p, q);
        let ghost pv = be_value(p@);
        let ghost qv = be_value(q@);
        assert((pv - 1) * (qv - 1) > 0 && pv * qv > 0) by (nonlinear_arith)
            requires
                pv > 1,
                qv > 1,
        ;
        let s_bytes = u32_to_net(squarings);
        let e = big_modpow(two.as_slice(), s_bytes.as_slice(), phi.as_slice());
        let answer = big_modpow(a.as_slice(), e.as_slice(), n.as_slice());
        let ghost x = pow(be_value(a@) as int, be_value(e@));
        let ghost m = be_value(n@) as int;
        assert(x % m < m) by (nonlinear_arith)
            requires
                m > 0,
        ;
        (Timelock { a, n, squarings }, TimelockVerifier { answer })
    }

    /// Draws a fresh puzzle of `squarings` squarings together with its answer:
    /// two 128-bit probable primes from the OS generator are its secret
    /// factors, and 20 random bytes its base.
    pub fn generate(squarings: u32) -> (r: (Timelock, TimelockVerifier))
        ensures
            r.0.squarings == squarings,
            r.0.a@.len() == 20,
            be_value(r.1.answer@) < be_value(r.0.n@),
            exists|p: nat, q: nat|
                #![trigger p * q]
                pow(2, 127) <= p < pow(2, 128) && pow(2, 127) <= q < pow(2, 128) && be_value(
                    r.0.n@,
                ) == p * q && be_value(r.1.answer@) == trapdoor_answer(
                    be_value(r.0.a@),
                    p,
                    q,
                    squarings as nat,
                ),
    {
        let p = random_prime(128).unwrap();
        let q = random_prime(128).unwrap();
        let a = random_bytes(20);
        let r = Timelock::from_secrets(p.as_slice(), q.as_slice(), a, squarings);
        let ghost pv = be_value(p@);
        let ghost qv = be_value(q@);
        assert(be_value(r.0.n@) == pv * qv);
        r
    }
}

impl TimelockVerifier {
    /// Whether the response, a big-endian magnitude, equals the answer.
    pub fn verify(&self, client_response: &[u8]) -> (r: bool)
        ensures
            r == (be_value(client_response@) == be_value(self.answer@)),
    {
        big_eq(self.answer.as_slice(), client_response)
    }
}

} // verus!
