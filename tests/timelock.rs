use challenger::timelock::{ParseError, Timelock, TimelockVerifier};
use num_bigint::BigUint;

#[test]
fn test_timelock_correctness() {
    let (timelock, verifier) = Timelock::generate(30);
    assert_eq!(timelock.perform_challenge(), verifier.answer);

    // Generated challenges are random: no two are the same.
    let (new_timelock, new_timelock_verifier) = Timelock::generate(30);
    assert_ne!(new_timelock.perform_challenge(), verifier.answer);

    // Modifying any of the parameters gives a different answer.

    // Modifying n
    let n = BigUint::from_bytes_be(&new_timelock.n) - 1u8;
    let invalid_timelock = Timelock {
        a: new_timelock.a.clone(),
        n: n.to_bytes_be(),
        squarings: 30,
    };
    assert_ne!(
        invalid_timelock.perform_challenge(),
        new_timelock_verifier.answer
    );

    // Modifying a
    let a = BigUint::from_bytes_be(&new_timelock.a) + 2u8;
    let invalid_timelock = Timelock {
        a: a.to_bytes_be(),
        n: new_timelock.n.clone(),
        squarings: 30,
    };
    assert_ne!(
        invalid_timelock.perform_challenge(),
        new_timelock_verifier.answer
    );

    // Modifying squarings
    let invalid_timelock = Timelock {
        a: new_timelock.a,
        n: new_timelock.n,
        squarings: 31,
    };
    assert_ne!(
        invalid_timelock.perform_challenge(),
        new_timelock_verifier.answer
    );
}

#[test]
fn test_timelock_to_wire_success() {
    let (timelock, verifier) = Timelock::generate(30);
    let wire_output = timelock.to_wire();
    let possible_constructed_timelock = Timelock::from_wire(wire_output);
    assert!(possible_constructed_timelock.is_ok());
    let constructed_timelock = possible_constructed_timelock.unwrap();
    assert_eq!(constructed_timelock.squarings, timelock.squarings);
    assert_eq!(constructed_timelock.a, timelock.a);
    assert_eq!(constructed_timelock.n, timelock.n);

    assert_eq!(constructed_timelock.perform_challenge(), verifier.answer);
}

#[test]
fn test_timelock_to_wire_failure() {
    let (timelock, verifier) = Timelock::generate(30);
    let wire_output = timelock.to_wire();

    let mut first_wire_output = wire_output.clone();
    // Modifying a's length
    first_wire_output[2] = 45;
    let possible_constructed_timelock = Timelock::from_wire(first_wire_output.clone());
    assert!(!possible_constructed_timelock.is_ok());

    let mut second_clone_wire_output = wire_output.clone();
    // Modifying a itself
    second_clone_wire_output[8] = 20;
    second_clone_wire_output[9] = 21;
    second_clone_wire_output[10] = 22;
    let possible_constructed_timelock = Timelock::from_wire(second_clone_wire_output.clone());
    assert!(possible_constructed_timelock.is_ok());
    assert_ne!(
        possible_constructed_timelock.unwrap().perform_challenge(),
        verifier.answer
    );
}

#[test]
fn wire_layout_is_exact() {
    let t = Timelock { a: vec![1], n: vec![2, 3], squarings: 258 };
    assert_eq!(
        t.to_wire(),
        vec![0, 0, 0, 0, 0, 0, 0, 1, 1, 0, 0, 0, 0, 0, 0, 0, 2, 2, 3, 0, 0, 1, 2]
    );
}

#[test]
fn wire_trailing_bytes_refused() {
    let t = Timelock { a: vec![5], n: vec![7], squarings: 3 };
    let mut w = t.to_wire();
    w.push(0);
    assert_eq!(Timelock::from_wire(w).err(), Some(ParseError::TrailingData));
}

#[test]
fn wire_short_buffers_refused() {
    assert_eq!(Timelock::from_wire(vec![]).err(), Some(ParseError::Truncated));
    assert_eq!(Timelock::from_wire(vec![0; 7]).err(), Some(ParseError::Truncated));
    let t = Timelock { a: vec![5], n: vec![7], squarings: 3 };
    let mut w = t.to_wire();
    w.pop();
    assert_eq!(Timelock::from_wire(w).err(), Some(ParseError::Truncated));
}

#[test]
fn perform_challenge_small_values() {
    // 3 ^ (2 ^ 2) mod 7 = 81 mod 7 = 4
    let t = Timelock { a: vec![3], n: vec![7], squarings: 2 };
    assert_eq!(t.perform_challenge(), vec![4]);
    // 2 ^ (2 ^ 3) mod 1000 = 256
    let t = Timelock { a: vec![2], n: vec![3, 232], squarings: 3 };
    assert_eq!(t.perform_challenge(), vec![1, 0]);
}

#[test]
fn verifier_ignores_leading_zeros() {
    let v = TimelockVerifier { answer: vec![1, 0] };
    assert!(v.verify(&[0, 0, 1, 0]));
    assert!(!v.verify(&[1, 1]));
}

#[test]
fn generated_puzzle_shape() {
    let (t, _) = Timelock::generate(5);
    assert_eq!(t.a.len(), 20);
    assert_eq!(t.squarings, 5);
    // two 128-bit factors give a 255- or 256-bit modulus
    assert_eq!(t.n.len(), 32);
}

#[test]
fn puzzle_from_secrets() {
    // p = 5, q = 7: n = 35, phi = 24; 2 ^ 3 mod 24 = 8; 2 ^ 8 mod 35 = 11
    let (t, v) = Timelock::from_secrets(&[5], &[7], vec![2], 3);
    assert_eq!(t.n, vec![35]);
    assert_eq!(t.a, vec![2]);
    assert_eq!(t.squarings, 3);
    assert_eq!(v.answer, vec![11]);
    assert_eq!(t.perform_challenge(), vec![11]);
}
