use ws2812_pio::divisor::clock_divisor;
use ws2812_pio::divisor::ConfigError;
use ws2812_pio::divisor::Divisor;
use ws2812_pio::divisor::BIT_FREQ_HZ;
use ws2812_pio::divisor::CYCLES_PER_BIT;
use ws2812_pio::divisor::SM_CLOCK_HZ;

#[test]
fn timing_constants() {
    assert_eq!(CYCLES_PER_BIT, 10);
    assert_eq!(BIT_FREQ_HZ, 800_000);
    assert_eq!(SM_CLOCK_HZ, 8_000_000);
}

#[test]
fn divisor_example_125_mhz() {
    // 125 MHz system clock: quotient 15, remainder 5 MHz, fraction
    // 5_000_000 * 256 / 8_000_000 = 160.
    let d: Divisor = clock_divisor(125_000_000).unwrap();
    assert_eq!(d.int, 15);
    assert_eq!(d.frac, 160);
}

#[test]
fn divisor_at_lower_boundary() {
    let d: Divisor = clock_divisor(8_000_000).unwrap();
    assert_eq!(d.int, 1);
    assert_eq!(d.frac, 0);
}

#[test]
fn divisor_with_fraction() {
    // 12_345_678 Hz: quotient 1, remainder 4_345_678, fraction
    // 4_345_678 * 256 / 8_000_000 = 139.
    let d: Divisor = clock_divisor(12_345_678).unwrap();
    assert_eq!(d.int, 1);
    assert_eq!(d.frac, 139);
}

#[test]
fn divisor_below_range_fails() {
    assert_eq!(clock_divisor(7_999_999), Err(ConfigError::DivisorOutOfRange));
    assert_eq!(clock_divisor(1), Err(ConfigError::DivisorOutOfRange));
    assert_eq!(clock_divisor(0), Err(ConfigError::DivisorOutOfRange));
}

#[test]
fn divisor_top_of_u32_range_ok() {
    let d: Divisor = clock_divisor(u32::MAX).unwrap();
    assert_eq!(d.int, (u32::MAX / 8_000_000) as u16);
    assert_eq!(d.frac, (((u32::MAX % 8_000_000) as u64 * 256) / 8_000_000) as u8);
}

#[test]
fn divisor_is_floor_of_scaled_ratio() {
    // The fixed-point value with 8 fractional bits is exactly
    // floor(256 * clock / rate), so it underestimates the true ratio by
    // less than one fractional step.
    for clock in [8_000_000u32, 12_345_678, 33_000_000, 125_000_000, 300_000_000] {
        let d: Divisor = clock_divisor(clock).unwrap();
        let fixed: u64 = d.int as u64 * 256 + d.frac as u64;
        assert_eq!(fixed, clock as u64 * 256 / 8_000_000);
        assert!(8_000_000 * fixed <= 256 * clock as u64);
        assert!(256 * clock as u64 - 8_000_000 * fixed < 8_000_000);
    }
}
