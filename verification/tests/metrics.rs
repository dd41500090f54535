use rscat::metrics::average_memory;
use rscat::{format_bytes, MemoryUsage, SampleWindow};

#[test]
fn formats_bytes_with_binary_units() {
    assert_eq!(format_bytes(512), "512 B");
    assert_eq!(format_bytes(1024), "1.0 KiB");
    assert_eq!(format_bytes(1024 * 1024), "1.0 MiB");
}

#[test]
fn formats_small_counts_exactly() {
    assert_eq!(format_bytes(0), "0 B");
    assert_eq!(format_bytes(1023), "1023 B");
}

#[test]
fn formats_one_decimal_rounding_half_to_even() {
    assert_eq!(format_bytes(1536), "1.5 KiB");
    // 1280 bytes is exactly 1.25 KiB: the tie goes to the even digit.
    assert_eq!(format_bytes(1280), "1.2 KiB");
    // 1.75 KiB rounds up to the even 1.8.
    assert_eq!(format_bytes(1792), "1.8 KiB");
    assert_eq!(format_bytes(1023 * 1024 + 100), "1023.1 KiB");
    assert_eq!(format_bytes(1023 * 1024 + 1000), "1024.0 KiB");
    assert_eq!(format_bytes(1024 * 1024 - 1), "1024.0 KiB");
    assert_eq!(format_bytes(3 * 1024 * 1024 * 1024 / 2), "1.5 GiB");
}

#[test]
fn formats_large_counts_in_tebibytes() {
    assert_eq!(format_bytes(1u64 << 40), "1.0 TiB");
    assert_eq!(format_bytes(1u64 << 50), "1024.0 TiB");
    assert_eq!(format_bytes(u64::MAX), "16777216.0 TiB");
}

#[test]
fn formatting_agrees_with_float_formatting() {
    let samples: [u64; 8] = [
        2047,
        5 * 1024 * 1024 + 123_456,
        987_654_321,
        (1u64 << 53) + 1,
        (1u64 << 53) + 3,
        (1u64 << 60) - 1,
        12_345_678_901_234,
        u64::MAX - 12345,
    ];
    let units = ["B", "KiB", "MiB", "GiB", "TiB"];
    for bytes in samples {
        let mut value = bytes as f64;
        let mut unit = 0;
        while value >= 1024.0 && unit < units.len() - 1 {
            value /= 1024.0;
            unit += 1;
        }
        let expected = format!("{value:.1} {}", units[unit]);
        assert_eq!(format_bytes(bytes), expected);
    }
}

#[test]
fn memory_figures_scale_and_saturate() {
    let m = MemoryUsage::from_system(8, 3);
    assert_eq!(m.total_bytes, 8192);
    assert_eq!(m.available_bytes, 3072);
    assert_eq!(m.used_bytes, 5120);

    let m = MemoryUsage::from_system(2, 5);
    assert_eq!(m.used_bytes, 0);

    let m = MemoryUsage::from_system(u64::MAX, 1);
    assert_eq!(m.total_bytes, u64::MAX);
    assert_eq!(m.used_bytes, u64::MAX - 1024);
}

#[test]
fn window_keeps_the_five_newest_samples() {
    let mut window = SampleWindow::new();
    assert!(window.is_empty());
    for i in 0..8u32 {
        window.push(i);
    }
    assert_eq!(window.len(), 5);
    let kept: Vec<u32> = window.samples().iter().copied().collect();
    assert_eq!(kept, vec![3, 4, 5, 6, 7]);
}

#[test]
fn averages_memory_per_sample_share() {
    let samples = [
        MemoryUsage { total_bytes: 100, used_bytes: 10, available_bytes: 90 },
        MemoryUsage { total_bytes: 200, used_bytes: 11, available_bytes: 189 },
        MemoryUsage { total_bytes: 300, used_bytes: 12, available_bytes: 288 },
    ];
    let avg = average_memory(&samples);
    assert_eq!(avg.total_bytes, 300);
    // 10/3 + 11/3 + 12/3 = 3 + 3 + 4
    assert_eq!(avg.used_bytes, 10);
    // 90/3 + 189/3 + 288/3 = 30 + 63 + 96
    assert_eq!(avg.available_bytes, 189);
}

#[test]
fn averaging_no_samples_gives_zeros() {
    let avg = average_memory(&[]);
    assert_eq!(avg, MemoryUsage { total_bytes: 0, used_bytes: 0, available_bytes: 0 });
}

#[test]
fn averaging_huge_figures_does_not_overflow() {
    let m = MemoryUsage { total_bytes: u64::MAX, used_bytes: u64::MAX, available_bytes: u64::MAX };
    let avg = average_memory(&[m, m, m, m, m]);
    assert_eq!(avg.used_bytes, (u64::MAX / 5) * 5);
}
