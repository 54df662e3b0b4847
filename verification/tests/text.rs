use cosmic_monitor::text::{rate_text, size_text, traffic_text, Traffic};

#[test]
fn sizes_below_a_kilo_are_bytes() {
    assert_eq!(size_text(0), "0 B");
    assert_eq!(size_text(1023), "1023 B");
    assert_eq!(rate_text(999), "999 B/s");
}

#[test]
fn sizes_use_binary_and_rates_decimal_units() {
    assert_eq!(size_text(1536), "1.50 KiB");
    assert_eq!(size_text(1024 * 1024), "1 MiB");
    assert_eq!(rate_text(1500), "1.50 kB/s");
    assert_eq!(rate_text(1_000_000), "1 MB/s");
}

#[test]
fn traffic_lines() {
    assert_eq!(traffic_text(Traffic::Disk, 1000, 5), "1 kB/s read / 5 B/s write");
    assert_eq!(traffic_text(Traffic::Network, 12, 2_500_000), "12 B/s rx / 2.50 MB/s tx");
}
