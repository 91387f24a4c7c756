use kp::vote::{apply_power_ratio, integer_sqrt, power_ratio};

#[test]
fn kp_account_power() {
    let balance: u64 = 1000_000_000;
    let factor = power_ratio(200000);
    // the whole part of the square root of 200000 is 447: a factor of 4.47
    assert_eq!(factor, 44700);
    let converted = apply_power_ratio(balance, factor);
    assert!(converted == 4470000000u64);
}

#[test]
fn power_ratio_has_three_ranges() {
    assert_eq!(power_ratio(0), 1000);
    assert_eq!(power_ratio(1), 1);
    assert_eq!(power_ratio(2500), 2500);
    assert_eq!(power_ratio(10000), 10000);
    assert_eq!(power_ratio(10001), 10000);
    assert_eq!(power_ratio(40000), 20000);
    assert_eq!(power_ratio(u64::MAX), 429_496_729_500);
}

#[test]
fn integer_sqrt_is_the_whole_part_of_the_root() {
    assert_eq!(integer_sqrt(0), 0);
    assert_eq!(integer_sqrt(1), 1);
    assert_eq!(integer_sqrt(3), 1);
    assert_eq!(integer_sqrt(4), 2);
    assert_eq!(integer_sqrt(99), 9);
    assert_eq!(integer_sqrt(100), 10);
    assert_eq!(integer_sqrt(200000), 447);
    assert_eq!(integer_sqrt(u64::MAX), 0xffff_ffff);
    for n in 0u64..2000 {
        let r = integer_sqrt(n);
        assert!(r * r <= n && (r + 1) * (r + 1) > n);
    }
}

#[test]
fn stake_is_scaled_and_stops_at_the_largest_value() {
    assert_eq!(apply_power_ratio(1000, 1000), 100);
    assert_eq!(apply_power_ratio(999, 1000), 99);
    assert_eq!(apply_power_ratio(7, 10000), 7);
    assert_eq!(apply_power_ratio(0, 44700), 0);
    assert_eq!(apply_power_ratio(u64::MAX, 10000), u64::MAX);
    assert_eq!(apply_power_ratio(u64::MAX, 20000), u64::MAX);
}
