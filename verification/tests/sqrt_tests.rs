use stg_engine::sqrt::round_sqrt;

#[test]
fn round_sqrt_of_small_numbers() {
    let expected = [0u128, 1, 1, 2, 2, 2, 2, 3, 3, 3, 3, 3, 3, 4, 4, 4, 4];
    for (n, r) in expected.iter().enumerate() {
        assert_eq!(round_sqrt(n as u128), *r);
    }
}

#[test]
fn round_sqrt_of_squares() {
    for k in 0..1000u128 {
        assert_eq!(round_sqrt(k * k), k);
    }
    assert_eq!(round_sqrt(4294967296u128 * 4294967296u128), 4294967296);
}

#[test]
fn round_sqrt_turns_between_two_squares() {
    // (k + 1/2)^2 lies between k^2 + k and k^2 + k + 1.
    for k in 1..1000u128 {
        assert_eq!(round_sqrt(k * k + k), k);
        assert_eq!(round_sqrt(k * k + k + 1), k + 1);
        assert_eq!(round_sqrt(k * k - k), k - 1);
        assert_eq!(round_sqrt(k * k - k + 1), k);
    }
}

#[test]
fn round_sqrt_agrees_with_floating_point() {
    for n in 0..100_000u128 {
        assert_eq!(round_sqrt(n), (n as f64).sqrt().round() as u128);
    }
}

#[test]
fn round_sqrt_of_the_largest_number() {
    assert_eq!(round_sqrt(u128::MAX), 18446744073709551616);
    assert_eq!(round_sqrt(u128::MAX - 18446744073709551616), 18446744073709551615);
}
