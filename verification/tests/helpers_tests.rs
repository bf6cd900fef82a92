use rdsk::helpers::{format_number, SIZE_LIMIT};

/// The same computation done in floating point, the way a byte count is
/// usually scaled and printed.
fn float_reference(n: u64) -> String {
    let mut step = 0;
    let suffix = ["b", "kb", "mb", "gb", "tb"];
    let mut value: f64 = n as f64;
    while value >= 1024.0 {
        step += 1;
        value = value / 1024.0;
    }
    format!("{:.2} {}", value, suffix[step])
}

#[test]
fn format_number_bytes() {
    assert_eq!(format_number(0), "0.00 b");
    assert_eq!(format_number(1), "1.00 b");
    assert_eq!(format_number(1023), "1023.00 b");
}

#[test]
fn format_number_units() {
    assert_eq!(format_number(1024), "1.00 kb");
    assert_eq!(format_number(1536), "1.50 kb");
    assert_eq!(format_number(1048576), "1.00 mb");
    assert_eq!(format_number(1073741824), "1.00 gb");
    assert_eq!(format_number(1099511627776), "1.00 tb");
    assert_eq!(format_number(SIZE_LIMIT - 1), "1024.00 tb");
}

#[test]
fn format_number_rounds_up_into_next_thousand() {
    // 1048575 bytes are 1023.999 kb.
    assert_eq!(format_number(1048575), "1024.00 kb");
}

#[test]
fn format_number_ties_go_to_even() {
    // 1029 bytes are exactly 1.0048828125 kb; 1034 are 1.009765625 kb.
    assert_eq!(format_number(1029), float_reference(1029));
    // 1.125 kb, exactly halfway between 1.12 and 1.13.
    assert_eq!(format_number(1152), "1.12 kb");
    assert_eq!(format_number(1152), float_reference(1152));
    // 1.375 kb, halfway between 1.37 and 1.38.
    assert_eq!(format_number(1408), "1.38 kb");
    assert_eq!(format_number(1408), float_reference(1408));
}

#[test]
fn format_number_agrees_with_floating_point() {
    for n in 0..5000u64 {
        assert_eq!(format_number(n), float_reference(n), "n = {}", n);
    }
    let mut n: u64 = 1;
    while n < SIZE_LIMIT {
        for d in [0u64, 1, 7, 511, 512, 513, 1000] {
            let m = n.saturating_add(d).min(SIZE_LIMIT - 1);
            assert_eq!(format_number(m), float_reference(m), "n = {}", m);
            let m = n.saturating_sub(d);
            assert_eq!(format_number(m), float_reference(m), "n = {}", m);
        }
        n = n * 3 + 1;
    }
    let mut x: u64 = 0x9e3779b97f4a7c15;
    for _ in 0..20000 {
        x ^= x << 13;
        x ^= x >> 7;
        x ^= x << 17;
        let m = x % SIZE_LIMIT;
        assert_eq!(format_number(m), float_reference(m), "n = {}", m);
        let m = x % (1 << 24);
        assert_eq!(format_number(m), float_reference(m), "n = {}", m);
    }
}
