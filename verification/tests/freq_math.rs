use mk20_hal::delay::delay_reload_value;
use mk20_hal::i2c::find_freq;
use mk20_hal::mcg::pll_frequency_divider_gcd;
use mk20_hal::Error;

const DIVISIONS: &[u32] = &[
    20, 22, 24, 26, 28, 30, 32, 34, 36, 40, 44, 48, 52, 56, 60, 64, 68, 72, 80, 88, 96, 104, 112,
    128, 136, 144, 160, 176, 192, 224, 240, 256, 288, 320, 352, 384, 448, 480, 512, 576, 640, 768,
    896, 960, 1024, 1152, 1280, 1536, 1920, 1792, 2048, 2304, 2560, 3072, 3840,
];
const MULT: &[u32] = &[1, 2, 4];

/// Reference search: first combination in table order with minimal distance.
fn brute_force(target: u32, bus: u32) -> (u8, u8) {
    let mut best = (0usize, 0usize);
    let mut best_dist = u64::MAX;
    for (i, d) in DIVISIONS.iter().enumerate() {
        for (j, m) in MULT.iter().enumerate() {
            let calc = (bus / (d * m)) as u64;
            let dist = if calc > target as u64 {
                calc - target as u64
            } else {
                target as u64 - calc
            };
            if dist < best_dist {
                best_dist = dist;
                best = (i, j);
            }
        }
    }
    (best.1 as u8, best.0 as u8)
}

#[test]
fn find_freq_matches_reference_search() {
    let cases = [
        (100_000u32, 36_000_000u32),
        (400_000, 36_000_000),
        (100_000, 24_000_000),
        (375_000, 48_000_000),
        (1, 36_000_000),
        (0, 0),
        (0, 19),
        (u32::MAX, 7),
        (123_456, 72_000_000),
    ];
    for (target, bus) in cases {
        assert_eq!(find_freq(target, bus), brute_force(target, bus));
    }
}

#[test]
fn find_freq_exact_combination() {
    // 36 MHz bus, 100 kHz target: 36_000_000 / (360) == 100_000 exactly, and
    // 360 == 90 * 4 (divider index 19 is 88... check a combination that the
    // reference search confirms): divider 360 is not in the table, so the
    // nearest combination wins; trust two hand-checked entries instead.
    // 36_000_000 / (20 * 1) == 1_800_000.
    let (mul, idx) = find_freq(1_800_000, 36_000_000);
    assert_eq!((mul, idx), (0, 0));
    // 36_000_000 / (3840 * 4) == 2343; a 1 Hz target picks the largest divider.
    let (mul, idx) = find_freq(1, 36_000_000);
    assert_eq!((mul, idx), (2, 54));
}

#[test]
fn find_freq_tie_keeps_first_table_entry() {
    // A bus below the smallest divider makes every combination yield zero:
    // every distance ties, and the first combination in table order is kept.
    assert_eq!(find_freq(5, 19), (0, 0));
}

#[test]
fn pll_divider_known_ratios() {
    // 72/16 reduces to 9/2; scaled by 3 to reach the numerator minimum.
    assert_eq!(pll_frequency_divider_gcd(72, 16), (27, 6));
    // 72/18 reduces to 4/1; scaled by 6.
    assert_eq!(pll_frequency_divider_gcd(72, 18), (24, 6));
    // 72/20 reduces to 18/5; scaled by 2.
    assert_eq!(pll_frequency_divider_gcd(72, 20), (36, 10));
    // Already in range: kept as is.
    assert_eq!(pll_frequency_divider_gcd(24, 1), (24, 1));
    assert_eq!(pll_frequency_divider_gcd(48, 2), (24, 1));
    // 55/25 reduces to 11/5; scaled by 3.
    assert_eq!(pll_frequency_divider_gcd(55, 25), (33, 15));
    // Unity ratio needs the full scale-up to the numerator minimum.
    assert_eq!(pll_frequency_divider_gcd(25, 25), (24, 24));
}

#[test]
fn pll_divider_results_stay_in_window() {
    for crystal in [4u8, 8, 12, 16, 18, 20, 24] {
        let (n, d) = pll_frequency_divider_gcd(72, crystal);
        assert!((24..=55).contains(&n), "numerator {} out of range", n);
        assert!((1..=25).contains(&d), "denominator {} out of range", d);
        // Same ratio: n/d == 72/crystal.
        assert_eq!(n as u32 * crystal as u32, d as u32 * 72);
    }
}

#[test]
fn delay_reload_within_counter_width() {
    assert_eq!(delay_reload_value(1000, 72), Ok(72_000));
    // The counter takes exactly 1 << 24.
    assert_eq!(delay_reload_value(1 << 24, 1), Ok(1 << 24));
    assert_eq!(delay_reload_value(0, 72), Ok(0));
}

#[test]
fn delay_reload_too_long_is_reported() {
    assert_eq!(delay_reload_value((1 << 24) + 1, 1), Err(Error::InvalidDelay));
    assert_eq!(delay_reload_value(1_000_000, 72), Err(Error::InvalidDelay));
    // A product that overflows 32 bits is still just "too long".
    assert_eq!(delay_reload_value(u32::MAX, u32::MAX), Err(Error::InvalidDelay));
}
