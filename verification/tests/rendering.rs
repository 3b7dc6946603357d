use bitcoind_manager::fixed::{gib_string, percent_string, rounded_quotient};
use bitcoind_manager::text::decimal_string;

#[test]
fn decimal_string_matches_std() {
    for n in [0u128, 1, 9, 10, 11, 99, 100, 101, 12096, 500000, u64::MAX as u128, u128::MAX] {
        assert_eq!(decimal_string(n), n.to_string());
    }
}

#[test]
fn rounded_quotient_rounds_to_nearest() {
    assert_eq!(rounded_quotient(7, 2), 4);
    assert_eq!(rounded_quotient(5, 2), 2);
    assert_eq!(rounded_quotient(1, 3), 0);
    assert_eq!(rounded_quotient(2, 3), 1);
    assert_eq!(rounded_quotient(0, 5), 0);
    assert_eq!(rounded_quotient(10, 5), 2);
    assert_eq!(rounded_quotient(u128::MAX, 1), u128::MAX);
    assert_eq!(rounded_quotient(u128::MAX, u128::MAX), 1);
    assert_eq!(rounded_quotient(u128::MAX - 1, u128::MAX), 1);
}

#[test]
fn rounded_quotient_sends_ties_to_even() {
    assert_eq!(rounded_quotient(1, 2), 0);
    assert_eq!(rounded_quotient(3, 2), 2);
    assert_eq!(rounded_quotient(5, 2), 2);
    assert_eq!(rounded_quotient(7, 2), 4);
    assert_eq!(rounded_quotient(25, 10), 2);
    assert_eq!(rounded_quotient(35, 10), 4);
}

#[test]
fn signal_percentage_ninety() {
    assert_eq!(percent_string(900, 1000), "90.00%");
}

#[test]
fn percent_string_exact_values() {
    assert_eq!(percent_string(0, 2016), "0.00%");
    assert_eq!(percent_string(2016, 2016), "100.00%");
    assert_eq!(percent_string(1, 3), "33.33%");
    assert_eq!(percent_string(2, 3), "66.67%");
    assert_eq!(percent_string(1815, 2016), "90.03%");
    assert_eq!(percent_string(1, 2016), "0.05%");
    assert_eq!(percent_string(3, 2), "150.00%");
    assert_eq!(percent_string(1, 800), "0.12%");
    assert_eq!(percent_string(u64::MAX, 1), "1844674407370955161500.00%");
}

#[test]
fn percent_string_of_nothing() {
    assert_eq!(percent_string(0, 0), "NaN%");
    assert_eq!(percent_string(1, 0), "inf%");
    assert_eq!(percent_string(u64::MAX, 0), "inf%");
}

#[test]
fn percent_string_agrees_with_float_formatting_for_small_windows() {
    let mut checked = 0u32;
    for whole in 1u64..=400 {
        for part in 0u64..=whole {
            let float = format!("{:.2}%", 100.0 * (part as f64) / (whole as f64));
            assert_eq!(percent_string(part, whole), float, "{} of {}", part, whole);
            checked += 1;
        }
    }
    assert!(checked > 80000);
}

#[test]
fn percent_string_agrees_with_float_formatting_in_a_signalling_window() {
    for whole in [144u64, 2016] {
        for part in 0..=whole {
            let float = format!("{:.2}%", 100.0 * (part as f64) / (whole as f64));
            assert_eq!(percent_string(part, whole), float, "{} of {}", part, whole);
        }
    }
}

#[test]
fn percent_string_rounds_an_exact_half_to_even() {
    assert_eq!(percent_string(1, 32), "3.12%");
    assert_eq!(percent_string(3, 32), "9.38%");
    assert_eq!(percent_string(5, 32), "15.62%");
    assert_eq!(percent_string(3, 8000), "0.04%");
    assert_eq!(percent_string(1, 8000), "0.01%");
    assert_eq!(percent_string(5, 8000), "0.06%");
}

#[test]
fn disk_usage_two_gib() {
    assert_eq!(gib_string(2147483648), "2.00 GiB");
}

#[test]
fn gib_string_exact_values() {
    assert_eq!(gib_string(0), "0.00 GiB");
    assert_eq!(gib_string(1073741824), "1.00 GiB");
    assert_eq!(gib_string(1610612736), "1.50 GiB");
    assert_eq!(gib_string(5368709), "0.00 GiB");
    assert_eq!(gib_string(5368710), "0.01 GiB");
    assert_eq!(gib_string(134217728), "0.12 GiB");
    assert_eq!(gib_string(402653184), "0.38 GiB");
    assert_eq!(gib_string(u64::MAX), "17179869184.00 GiB");
}

#[test]
fn gib_string_agrees_with_float_formatting() {
    let mut bytes: u64 = 1;
    while bytes < (1u64 << 52) {
        for probe in [bytes - 1, bytes, bytes + 1, bytes + bytes / 3, bytes + bytes / 8] {
            let float = format!("{:.2} GiB", probe as f64 / 1024_f64.powf(3_f64));
            assert_eq!(gib_string(probe), float, "{} bytes", probe);
        }
        bytes *= 2;
    }
}
