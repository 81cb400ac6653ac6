use mk20_hal::mcg::{ClockMode, ClockModeName, McgRegisters, MultipurposeClockGenerator};

fn fresh(crystal_mhz: u32) -> MultipurposeClockGenerator {
    MultipurposeClockGenerator::new(McgRegisters::reset(), crystal_mhz)
}

#[test]
fn reset_state_derives_fei() {
    let mcg = fresh(16);
    assert_eq!(mcg.clock_mode_name(), ClockModeName::Fei);
}

#[test]
fn mode_derivation_is_idempotent() {
    let mcg = fresh(16);
    let first = mcg.clock_mode_name();
    let second = mcg.clock_mode_name();
    assert_eq!(first, second);
}

#[test]
fn fei_output_uses_fll_factor_table() {
    // (drst_drs, dmx32) -> factor; output is 32768 * factor / 1_000_000 MHz.
    let table = [
        (0u8, false, 20u32),
        (0, true, 23),
        (1, false, 41),
        (1, true, 47),
        (2, false, 62),
        (2, true, 71),
        (3, false, 83),
        (3, true, 95),
    ];
    for (drs, fine, mhz) in table {
        let mut regs = McgRegisters::reset();
        regs.drst_drs = drs;
        regs.dmx32 = fine;
        let mcg = MultipurposeClockGenerator::new(regs, 16);
        assert_eq!(mcg.clock_mode_name(), ClockModeName::Fei);
        assert_eq!(mcg.mcgoutclk(), mhz);
    }
}

#[test]
fn crystal_divider_round_trip_high_range() {
    for divider in [32u16, 64, 128, 256, 512, 1024, 1280, 1536] {
        let mut mcg = fresh(16);
        mcg.set_external_crystal_frequency_range_high();
        mcg.set_external_crystal_frequency_divider(divider);
        assert_eq!(mcg.get_external_crystal_frequency_divider(), divider);
    }
}

#[test]
fn crystal_divider_round_trip_low_range() {
    for divider in [1u16, 2, 4, 8, 16] {
        let mut mcg = fresh(16);
        mcg.set_external_crystal_frequency_range_low();
        mcg.set_external_crystal_frequency_divider(divider);
        assert_eq!(mcg.get_external_crystal_frequency_divider(), divider);
    }
}

#[test]
fn crystal_divider_shared_values_take_non_reference_encoding() {
    // The non-reference table takes precedence: a low-range request for 32,
    // 64 or 128 encodes as the non-reference entry of the same value, so it
    // reads back as the low-range meaning of that field value.
    for (divider, read_back) in [(32u16, 1u16), (64, 2), (128, 4)] {
        let mut mcg = fresh(16);
        mcg.set_external_crystal_frequency_range_low();
        mcg.set_external_crystal_frequency_divider(divider);
        assert_eq!(mcg.get_external_crystal_frequency_divider(), read_back);
    }
}

#[test]
fn pll_divider_round_trip_whole_window() {
    for numerator in 24u8..=55 {
        for denominator in 1u8..=25 {
            let mut mcg = fresh(16);
            mcg.set_pll_frequency_divider(numerator, denominator);
            assert_eq!(mcg.get_pll_frequency_divider(), (numerator, denominator));
        }
    }
}

#[test]
fn pll_frequency_from_divider_pair() {
    let mut mcg = fresh(16);
    mcg.set_pll_frequency_divider(27, 6);
    // 27 * 16 / 6 == 72.
    assert_eq!(mcg.get_pll_frequency(), 72);
}

#[test]
fn set_pll_frequency_programs_nearest_pair() {
    let mut mcg = fresh(20);
    mcg.set_pll_frequency(72);
    assert_eq!(mcg.get_pll_frequency_divider(), (36, 10));
    assert_eq!(mcg.get_pll_frequency(), 72);
}

#[test]
fn output_frequency_per_mode() {
    // FEE: crystal divided by the power-of-two reference divider, times the
    // FLL factor: (16 / 16) * 640 == 640.
    let mut fee = McgRegisters::reset();
    fee.range0 = 1;
    fee.frdiv = 4;
    fee.irefs = false;
    let mcg = MultipurposeClockGenerator::new(fee, 16);
    assert_eq!(mcg.clock_mode_name(), ClockModeName::Fee);
    assert_eq!(mcg.fll_ref_divider(), 16);
    assert_eq!(mcg.mcgoutclk(), 640);

    // FBI and BLPI: the fixed internal reference, which truncates to zero
    // megahertz.
    let mut fbi = McgRegisters::reset();
    fbi.clks = 1;
    let mcg = MultipurposeClockGenerator::new(fbi, 16);
    assert_eq!(mcg.clock_mode_name(), ClockModeName::Fbi);
    assert_eq!(mcg.mcgoutclk(), 0);

    // BLPE: the crystal passed through.
    let mut blpe = McgRegisters::reset();
    blpe.clks = 2;
    blpe.irefs = false;
    blpe.lp = true;
    let mcg = MultipurposeClockGenerator::new(blpe, 16);
    assert_eq!(mcg.clock_mode_name(), ClockModeName::Blpe);
    assert_eq!(mcg.mcgoutclk(), 16);
}

#[test]
fn crystal_request_settles_oscillator_status() {
    let mut mcg = fresh(16);
    assert!(!mcg.external_crystal_is_requested());
    mcg.enable_external_crystal_request();
    assert!(mcg.external_crystal_is_requested());
    mcg.disable_external_crystal_request();
    assert!(!mcg.external_crystal_is_requested());
}

#[test]
fn bring_up_chain_reaches_pee_at_72_mhz() {
    let mcg = fresh(16);
    let fei = match mcg.clock_mode() {
        ClockMode::Fei(fei) => fei,
        _ => panic!("power-on registers must derive the FEI mode"),
    };
    let fbe = fei.into_fbe();
    assert_eq!(fbe.mcg.clock_mode_name(), ClockModeName::Fbe);
    // FBE passes the crystal through.
    assert_eq!(fbe.mcg.mcgoutclk(), 16);
    assert_eq!(fbe.mcg.get_external_crystal_frequency_divider(), 512);
    let pbe = fbe.into_pbe();
    assert_eq!(pbe.mcg.clock_mode_name(), ClockModeName::Pbe);
    assert_eq!(pbe.mcg.get_pll_frequency_divider(), (27, 6));
    // PBE still passes the crystal through; the PLL is locked but bypassed.
    assert_eq!(pbe.mcg.mcgoutclk(), 16);
    let pee = pbe.into_pee();
    assert_eq!(pee.mcg.clock_mode_name(), ClockModeName::Pee);
    assert_eq!(pee.mcg.mcgoutclk(), 72);
}

#[test]
fn bring_up_chain_with_18_mhz_crystal() {
    let mcg = fresh(18);
    let fei = match mcg.clock_mode() {
        ClockMode::Fei(fei) => fei,
        _ => panic!("power-on registers must derive the FEI mode"),
    };
    let pee = fei.into_fbe().into_pbe().into_pee();
    // 24 * 18 / 6 == 72.
    assert_eq!(pee.mcg.get_pll_frequency_divider(), (24, 6));
    assert_eq!(pee.mcg.mcgoutclk(), 72);
}

#[test]
fn derived_modes_cover_truth_table() {
    // (clks, irefs, plls, lp, frdiv) against a 16 MHz crystal, high range:
    // divider 512 keeps the FLL reference in range.
    let mut regs = McgRegisters::reset();
    regs.range0 = 1;
    regs.frdiv = 4;

    let mut fee = regs;
    fee.irefs = false;
    assert_eq!(
        MultipurposeClockGenerator::new(fee, 16).clock_mode_name(),
        ClockModeName::Fee
    );

    let mut fbi = regs;
    fbi.clks = 1;
    assert_eq!(
        MultipurposeClockGenerator::new(fbi, 16).clock_mode_name(),
        ClockModeName::Fbi
    );

    let mut fbe = regs;
    fbe.clks = 2;
    fbe.irefs = false;
    assert_eq!(
        MultipurposeClockGenerator::new(fbe, 16).clock_mode_name(),
        ClockModeName::Fbe
    );

    let mut pee = regs;
    pee.irefs = false;
    pee.plls = true;
    assert_eq!(
        MultipurposeClockGenerator::new(pee, 16).clock_mode_name(),
        ClockModeName::Pee
    );

    let mut pbe = regs;
    pbe.clks = 2;
    pbe.irefs = false;
    pbe.plls = true;
    assert_eq!(
        MultipurposeClockGenerator::new(pbe, 16).clock_mode_name(),
        ClockModeName::Pbe
    );

    let mut blpi = regs;
    blpi.clks = 1;
    blpi.lp = true;
    assert_eq!(
        MultipurposeClockGenerator::new(blpi, 16).clock_mode_name(),
        ClockModeName::Blpi
    );

    let mut blpe = regs;
    blpe.clks = 2;
    blpe.irefs = false;
    blpe.lp = true;
    assert_eq!(
        MultipurposeClockGenerator::new(blpe, 16).clock_mode_name(),
        ClockModeName::Blpe
    );
}
