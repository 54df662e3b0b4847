use cosmic_monitor::frequency::format_frequency;

fn expected(mhz: u64) -> String {
    if mhz >= 1000 {
        format!("{:.2} GHz", (mhz as f64) / 1000.0)
    } else {
        format!("{} MHz", mhz)
    }
}

#[test]
fn frequency_matches_float_formatting_below_two_million() {
    for mhz in 0..2_000_000u64 {
        assert_eq!(format_frequency(mhz), expected(mhz), "mhz = {}", mhz);
    }
}

#[test]
fn frequency_matches_float_formatting_on_large_values() {
    let mut x: u64 = 0x9E37_79B9_7F4A_7C15;
    for _ in 0..200_000 {
        x ^= x << 13;
        x ^= x >> 7;
        x ^= x << 17;
        for shift in [0u32, 8, 16, 24, 40, 50, 53, 60] {
            let mhz = x >> shift;
            assert_eq!(format_frequency(mhz), expected(mhz), "mhz = {}", mhz);
        }
    }
    for mhz in [u64::MAX, u64::MAX - 1, 1 << 53, (1 << 53) + 1, (1 << 54) + 3, 9_007_199_254_740_993] {
        assert_eq!(format_frequency(mhz), expected(mhz), "mhz = {}", mhz);
    }
}

#[test]
fn frequency_examples() {
    assert_eq!(format_frequency(0), "0 MHz");
    assert_eq!(format_frequency(999), "999 MHz");
    assert_eq!(format_frequency(1000), "1.00 GHz");
    assert_eq!(format_frequency(3600), "3.60 GHz");
    assert_eq!(format_frequency(4567), "4.57 GHz");
}

#[test]
fn frequency_ties_round_to_even() {
    // 1.125 is exact in binary: the tie goes to the even hundredth.
    assert_eq!(format_frequency(1125), "1.12 GHz");
    assert_eq!(format_frequency(1375), "1.38 GHz");
    // 1.005 is stored just below 1.005, so it rounds down.
    assert_eq!(format_frequency(1005), "1.00 GHz");
}
