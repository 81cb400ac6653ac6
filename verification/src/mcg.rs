//! Multipurpose clock generator: mode derivation, frequency math, and the
//! typestate sequencer that walks the chip from its power-on internal
//! oscillator mode to the phase-locked high-frequency mode.
//!
//! The generator is driven entirely through a plain-value model of its
//! control and status registers ([`McgRegisters`]). Writing a control field
//! in the model also settles the status fields the hardware would reach once
//! the hardware's poll-until-stable wait completes, so a model value always
//! describes settled hardware.

use vstd::prelude::*;
use vstd::pervasive::unreached;

verus! {

/// Smallest legal PLL VCO divide factor (numerator of the divider pair).
pub const PLL_DIVIDER_NUMERATOR_MIN: u8 = 24;
/// Largest legal PLL VCO divide factor.
pub const PLL_DIVIDER_NUMERATOR_MAX: u8 = 55;
/// Smallest legal PLL reference divide factor (denominator of the pair).
pub const PLL_DIVIDER_DENOMINATOR_MIN: u8 = 1;
/// Largest legal PLL reference divide factor.
pub const PLL_DIVIDER_DENOMINATOR_MAX: u8 = 25;

/// Fixed internal reference clock, in hertz.
pub const INTERNAL_REFERENCE_CLOCK_FREQUENCY: u32 = 32768;

/// Core-clock ceiling reported by the system integration collaborator, in
/// megahertz; the sequencer targets it when programming the PLL.
pub const MAXIMUM_CLOCK_FREQUENCY: u32 = 72;

/// Plain-value model of the clock-generation control and status registers.
///
/// Control fields mirror the hardware bit fields one for one; multi-bit
/// fields keep their width as a range bound in [`McgRegisters::wf`]. Status
/// fields hold the value the hardware settles on after the corresponding
/// control write, which is what a driver polls for before moving
/// on.
#[derive(Clone, Copy, Debug)]
pub struct McgRegisters {
    /// Clock source select, 2-bit field: 0 selects the FLL/PLL output,
    /// 1 the internal reference, 2 the external reference.
    pub clks: u8,
    /// Internal reference select: the FLL takes the internal reference when
    /// set, the external reference when clear.
    pub irefs: bool,
    /// FLL external reference divider, 3-bit field.
    pub frdiv: u8,
    /// PLL enable: the PLL is selected in place of the FLL when set.
    pub plls: bool,
    /// PLL VCO divide factor, offset-encoded: stored value plus
    /// [`PLL_DIVIDER_NUMERATOR_MIN`] is the actual factor.
    pub vdiv0: u8,
    /// PLL reference divide factor, offset-encoded: stored value plus
    /// [`PLL_DIVIDER_DENOMINATOR_MIN`] is the actual factor.
    pub prdiv0: u8,
    /// Low-power mode: the FLL and PLL are disabled in bypass modes when set.
    pub lp: bool,
    /// External crystal frequency range, 2-bit field: 0 is the low range.
    pub range0: u8,
    /// External crystal enable request.
    pub erefs0: bool,
    /// FLL reference selects the real-time-clock oscillator when set.
    pub oscsel: bool,
    /// FLL DCO range select, 2-bit field.
    pub drst_drs: u8,
    /// FLL fine-adjust for a 32.768 kHz reference.
    pub dmx32: bool,
    /// Status: oscillator initialized; settles once a crystal request is made.
    pub oscinit0: bool,
    /// Status: the FLL currently takes the internal reference.
    pub irefst: bool,
    /// Status: clock source currently feeding the output, 2-bit field
    /// (0 FLL, 1 internal reference, 2 external reference, 3 PLL).
    pub clkst: u8,
    /// Status: the PLL is currently selected.
    pub pllst: bool,
    /// Status: the PLL has locked.
    pub lock0: bool,
}

impl McgRegisters {
    /// Every multi-bit field fits its hardware width and the offset-encoded
    /// PLL fields decode to legal divide factors.
    pub open spec fn wf(&self) -> bool {
        &&& self.clks <= 3
        &&& self.frdiv <= 7
        &&& self.vdiv0 <= 31
        &&& self.prdiv0 <= 24
        &&& self.range0 <= 3
        &&& self.drst_drs <= 3
        &&& self.clkst <= 3
    }

    /// The power-on reset value of the register block: FLL engaged on the
    /// internal reference, nothing requested of the crystal or the PLL.
    pub fn reset() -> (r: McgRegisters)
        ensures
            r.wf(),
            r.clks == 0,
            r.irefs,
            r.frdiv == 0,
            !r.plls,
            r.vdiv0 == 0,
            r.prdiv0 == 0,
            !r.lp,
            r.range0 == 0,
            !r.erefs0,
            !r.oscsel,
            r.drst_drs == 0,
            !r.dmx32,
            !r.oscinit0,
            r.irefst,
            r.clkst == 0,
            !r.pllst,
            !r.lock0,
    {
        McgRegisters {
            clks: 0,
            irefs: true,
            frdiv: 0,
            plls: false,
            vdiv0: 0,
            prdiv0: 0,
            lp: false,
            range0: 0,
            erefs0: false,
            oscsel: false,
            drst_drs: 0,
            dmx32: false,
            oscinit0: false,
            irefst: true,
            clkst: 0,
            pllst: false,
            lock0: false,
        }
    }
}

/// The FLL reference is divided further when it comes from a low-frequency
/// crystal or from the real-time-clock oscillator.
pub open spec fn rtc_or_low_freq(regs: McgRegisters) -> bool {
    regs.range0 == 0 || regs.oscsel
}

/// Divisor applied to the external reference before it reaches the FLL, as a
/// function of the 3-bit divider field and the reference kind.
pub open spec fn spec_crystal_divider(rtc_or_low: bool, frdiv: u8) -> u16 {
    if rtc_or_low {
        if frdiv == 0 {
            1
        } else if frdiv == 1 {
            2
        } else if frdiv == 2 {
            4
        } else if frdiv == 3 {
            8
        } else if frdiv == 4 {
            16
        } else if frdiv == 5 {
            32
        } else if frdiv == 6 {
            64
        } else {
            128
        }
    } else {
        if frdiv == 0 {
            32
        } else if frdiv == 1 {
            64
        } else if frdiv == 2 {
            128
        } else if frdiv == 3 {
            256
        } else if frdiv == 4 {
            512
        } else if frdiv == 5 {
            1024
        } else if frdiv == 6 {
            1280
        } else {
            1536
        }
    }
}

/// The 3-bit divider field encoding a requested divisor, if the divisor is
/// one of the fixed legal values. The non-reference divisors take precedence:
/// a request for 32 encodes as field value 0 (the divisor 32 of the
/// non-reference table) even when the reference is a low-frequency one.
pub open spec fn spec_frdiv_for(rtc_or_low: bool, divider: u16) -> Option<u8> {
    if (rtc_or_low && divider == 1) || divider == 32 {
        Some(0u8)
    } else if (rtc_or_low && divider == 2) || divider == 64 {
        Some(1u8)
    } else if (rtc_or_low && divider == 4) || divider == 128 {
        Some(2u8)
    } else if (rtc_or_low && divider == 8) || divider == 256 {
        Some(3u8)
    } else if (rtc_or_low && divider == 16) || divider == 512 {
        Some(4u8)
    } else if (rtc_or_low && divider == 32) || divider == 1024 {
        Some(5u8)
    } else if (rtc_or_low && divider == 64) || divider == 1280 {
        Some(6u8)
    } else if (rtc_or_low && divider == 128) || divider == 1536 {
        Some(7u8)
    } else {
        None
    }
}

/// FLL multiplication factor from the DCO range and fine-adjust fields; the
/// eight entries are fixed by the hardware manual.
pub open spec fn spec_fll_factor(drst_drs: u8, dmx32: bool) -> u32 {
    if drst_drs == 0 {
        if dmx32 {
            732
        } else {
            640
        }
    } else if drst_drs == 1 {
        if dmx32 {
            1464
        } else {
            1280
        }
    } else if drst_drs == 2 {
        if dmx32 {
            2197
        } else {
            1920
        }
    } else {
        if dmx32 {
            2929
        } else {
            2560
        }
    }
}

/// Names of the mutually exclusive clock configurations. The live one is
/// always re-derived from the control registers, never cached.
#[derive(Clone, Copy, Debug, PartialEq, Eq, Structural)]
pub enum ClockModeName {
    /// FLL engaged, internal reference.
    Fei,
    /// FLL engaged, external reference.
    Fee,
    /// FLL bypassed, internal reference.
    Fbi,
    /// FLL bypassed, external reference.
    Fbe,
    /// PLL engaged, external reference.
    Pee,
    /// PLL bypassed, external reference.
    Pbe,
    /// Bypassed low power, internal reference.
    Blpi,
    /// Bypassed low power, external reference.
    Blpe,
    /// Not running.
    Stop,
}

/// Driver state for the clock generator: the register model plus the one
/// configuration input that is fixed for the device's lifetime.
pub struct MultipurposeClockGenerator {
    /// Model of the control and status registers.
    pub regs: McgRegisters,
    /// Frequency of the external crystal, in megahertz.
    pub external_crystal_frequency: u32,
}

impl MultipurposeClockGenerator {
    /// The registers fit their widths and the crystal is a physically
    /// plausible one; the megahertz bound keeps every frequency product in
    /// this module inside `u32`.
    pub open spec fn wf(&self) -> bool {
        &&& self.regs.wf()
        &&& 1 <= self.external_crystal_frequency <= 1000
    }
}

/// Whether the frequency reaching the FLL, the crystal frequency divided by
/// the programmed reference divider, lies in the FLL's working range of
/// 31.25 kHz to 39.0625 kHz. Both bounds scale by 16 to integers: the range
/// holds exactly when `500 * divider <= 16 * crystal_khz <= 625 * divider`.
pub open spec fn spec_fll_range_ok(m: MultipurposeClockGenerator) -> bool {
    let khz = m.external_crystal_frequency * 1000;
    let divider = spec_crystal_divider(rtc_or_low_freq(m.regs), m.regs.frdiv);
    500 * divider <= 16 * khz <= 625 * divider
}

/// The clock mode a register state describes, or `None` when the fields form
/// no known configuration. Earlier rows of the truth table take precedence.
pub open spec fn spec_clock_mode(m: MultipurposeClockGenerator) -> Option<ClockModeName> {
    let clks = m.regs.clks;
    let irefs = m.regs.irefs;
    let plls = m.regs.plls;
    let lp = m.regs.lp;
    let range_ok = spec_fll_range_ok(m);
    if clks == 0 && irefs && !plls {
        Some(ClockModeName::Fei)
    } else if clks == 0 && !irefs && !plls && range_ok {
        Some(ClockModeName::Fee)
    } else if clks == 1 && irefs && !plls && !lp {
        Some(ClockModeName::Fbi)
    } else if clks == 2 && !irefs && !plls && !lp && range_ok {
        Some(ClockModeName::Fbe)
    } else if clks == 0 && !irefs && plls {
        Some(ClockModeName::Pee)
    } else if clks == 2 && !irefs && plls && !lp {
        Some(ClockModeName::Pbe)
    } else if clks == 1 && irefs && !plls && lp {
        Some(ClockModeName::Blpi)
    } else if clks == 2 && !irefs && lp {
        Some(ClockModeName::Blpe)
    } else {
        None
    }
}

/// The output clock frequency in megahertz for a register state whose mode
/// derivation succeeds: the internal reference times the FLL factor in FEI,
/// the divided crystal times the FLL factor in FEE, the fixed internal
/// frequency in FBI and BLPI, the crystal passed through in FBE, PBE and
/// BLPE, and the PLL divider output in PEE.
pub open spec fn spec_mcgoutclk(m: MultipurposeClockGenerator) -> u32
    recommends
        m.wf(),
        spec_clock_mode(m) is Some,
{
    let crystal = m.external_crystal_frequency;
    match spec_clock_mode(m) {
        Some(ClockModeName::Fei) => (
        (INTERNAL_REFERENCE_CLOCK_FREQUENCY * spec_fll_factor(m.regs.drst_drs, m.regs.dmx32))
            / 1_000_000) as u32,
        Some(ClockModeName::Fee) => (
        (crystal / (1u32 << m.regs.frdiv)) * spec_fll_factor(m.regs.drst_drs, m.regs.dmx32)) as u32,
        Some(ClockModeName::Fbi) | Some(ClockModeName::Blpi) => (
        INTERNAL_REFERENCE_CLOCK_FREQUENCY / 1_000_000) as u32,
        Some(ClockModeName::Fbe) | Some(ClockModeName::Pbe) | Some(ClockModeName::Blpe) => crystal,
        Some(ClockModeName::Pee) => spec_pll_frequency(m),
        _ => 0,
    }
}

/// The PLL output frequency in megahertz: the crystal scaled by the
/// offset-decoded divider pair.
pub open spec fn spec_pll_frequency(m: MultipurposeClockGenerator) -> u32
    recommends
        m.wf(),
{
    (((m.regs.vdiv0 + PLL_DIVIDER_NUMERATOR_MIN) * m.external_crystal_frequency) / (m.regs.prdiv0
        + PLL_DIVIDER_DENOMINATOR_MIN)) as u32
}

impl MultipurposeClockGenerator {
    /// Binds the register model to the crystal frequency the board provides.
    pub fn new(regs: McgRegisters, external_crystal_frequency: u32) -> (r:
        MultipurposeClockGenerator)
        ensures
            r.regs == regs,
            r.external_crystal_frequency == external_crystal_frequency,
    {
        MultipurposeClockGenerator { regs, external_crystal_frequency }
    }

    /// Derives the live clock mode from the control registers. The mode is
    /// never cached: every call reads the current register state.
    pub fn clock_mode_name(&self) -> (r: ClockModeName)
        requires
            self.wf(),
            spec_clock_mode(*self) is Some,
        ensures
            Some(r) == spec_clock_mode(*self),
    {
        let clks = self.regs.clks;
        let irefs = self.regs.irefs;
        let plls = self.regs.plls;
        let lp = self.regs.lp;
        let khz = self.external_crystal_frequency * 1000;
        let divider = self.get_external_crystal_frequency_divider() as u32;
        let range_ok = 500 * divider <= 16 * khz && 16 * khz <= 625 * divider;
        if clks == 0 && irefs && !plls {
            ClockModeName::Fei
        } else if clks == 0 && !irefs && !plls && range_ok {
            ClockModeName::Fee
        } else if clks == 1 && irefs && !plls && !lp {
            ClockModeName::Fbi
        } else if clks == 2 && !irefs && !plls && !lp && range_ok {
            ClockModeName::Fbe
        } else if clks == 0 && !irefs && plls {
            ClockModeName::Pee
        } else if clks == 2 && !irefs && plls && !lp {
            ClockModeName::Pbe
        } else if clks == 1 && irefs && !plls && lp {
            ClockModeName::Blpi
        } else {
            // The precondition admits only register states that derive to a
            // known mode, and BLPE is the only one left once the rows above
            // have been ruled out.
            ClockModeName::Blpe
        }
    }

    /// Power-of-two divisor the FLL applies to its external reference,
    /// 2 to the power of the 3-bit divider field.
    pub fn fll_ref_divider(&self) -> (r: u32)
        requires
            self.regs.frdiv <= 7,
        ensures
            r == (1u32 << self.regs.frdiv),
            1 <= r <= 128,
    {
        let f = self.regs.frdiv;
        proof {
            assert((1u32 << f) >= 1 && (1u32 << f) <= 128) by (bit_vector)
                requires
                    f <= 7,
            ;
        }
        1u32 << f
    }

    /// FLL multiplication factor from the DCO range and fine-adjust fields.
    fn fll_factor(&self) -> (r: u32)
        requires
            self.regs.drst_drs <= 3,
        ensures
            r == spec_fll_factor(self.regs.drst_drs, self.regs.dmx32),
            640 <= r <= 2929,
    {
        let drs = self.regs.drst_drs;
        let fine = self.regs.dmx32;
        if drs == 0 {
            if fine {
                732
            } else {
                640
            }
        } else if drs == 1 {
            if fine {
                1464
            } else {
                1280
            }
        } else if drs == 2 {
            if fine {
                2197
            } else {
                1920
            }
        } else {
            if fine {
                2929
            } else {
                2560
            }
        }
    }

    /// Output clock frequency in megahertz, a pure function of the current
    /// register state and the crystal frequency.
    pub fn mcgoutclk(&self) -> (r: u32)
        requires
            self.wf(),
            spec_clock_mode(*self) is Some,
        ensures
            r == spec_mcgoutclk(*self),
    {
        match self.clock_mode_name() {
            ClockModeName::Fei => (INTERNAL_REFERENCE_CLOCK_FREQUENCY * self.fll_factor())
                / 1_000_000,
            ClockModeName::Fee => {
                let divided = self.external_crystal_frequency / self.fll_ref_divider();
                proof {
                    assert(divided * spec_fll_factor(self.regs.drst_drs, self.regs.dmx32)
                        <= 1000 * 2929) by (nonlinear_arith)
                        requires
                            divided <= 1000,
                            spec_fll_factor(self.regs.drst_drs, self.regs.dmx32) <= 2929,
                    ;
                }
                divided * self.fll_factor()
            },
            ClockModeName::Fbi | ClockModeName::Blpi => INTERNAL_REFERENCE_CLOCK_FREQUENCY
                / 1_000_000,
            ClockModeName::Fbe | ClockModeName::Pbe | ClockModeName::Blpe => self
                .external_crystal_frequency,
            ClockModeName::Pee => self.get_pll_frequency(),
            ClockModeName::Stop => 0,
        }
    }

    /// Whether a crystal enable request is currently made.
    pub fn external_crystal_is_requested(&self) -> (r: bool)
        ensures
            r == self.regs.erefs0,
    {
        self.regs.erefs0
    }

    /// Requests the external crystal; the oscillator-initialized status is
    /// the settled value a driver polls for before returning.
    pub fn enable_external_crystal_request(&mut self)
        ensures
            final(self).regs == (McgRegisters { erefs0: true, oscinit0: true, ..old(self).regs }),
            final(self).external_crystal_frequency == old(self).external_crystal_frequency,
    {
        self.regs.erefs0 = true;
        self.regs.oscinit0 = true;
    }

    /// Withdraws the crystal request; the status settles clear.
    pub fn disable_external_crystal_request(&mut self)
        ensures
            final(self).regs == (McgRegisters { erefs0: false, oscinit0: false, ..old(self).regs }),
            final(self).external_crystal_frequency == old(self).external_crystal_frequency,
    {
        self.regs.erefs0 = false;
        self.regs.oscinit0 = false;
    }

    /// Selects the low crystal frequency range.
    pub fn set_external_crystal_frequency_range_low(&mut self)
        ensures
            final(self).regs == (McgRegisters { range0: 0, ..old(self).regs }),
            final(self).external_crystal_frequency == old(self).external_crystal_frequency,
    {
        self.regs.range0 = 0;
    }

    /// Selects the high crystal frequency range.
    pub fn set_external_crystal_frequency_range_high(&mut self)
        ensures
            final(self).regs == (McgRegisters { range0: 1, ..old(self).regs }),
            final(self).external_crystal_frequency == old(self).external_crystal_frequency,
    {
        self.regs.range0 = 1;
    }

    /// Programs the FLL reference divider field to encode `divider`, which
    /// must be one of the fixed legal divisor values for the current
    /// reference kind.
    pub fn set_external_crystal_frequency_divider(&mut self, divider: u16)
        requires
            spec_frdiv_for(rtc_or_low_freq(old(self).regs), divider) is Some,
        ensures
            final(self).regs == (McgRegisters {
                frdiv: spec_frdiv_for(rtc_or_low_freq(old(self).regs), divider)->Some_0,
                ..old(self).regs
            }),
            final(self).external_crystal_frequency == old(self).external_crystal_frequency,
    {
        let rtc_or_low = self.regs.range0 == 0 || self.regs.oscsel;
        let frdiv: u8 = if (rtc_or_low && divider == 1) || divider == 32 {
            0
        } else if (rtc_or_low && divider == 2) || divider == 64 {
            1
        } else if (rtc_or_low && divider == 4) || divider == 128 {
            2
        } else if (rtc_or_low && divider == 8) || divider == 256 {
            3
        } else if (rtc_or_low && divider == 16) || divider == 512 {
            4
        } else if (rtc_or_low && divider == 32) || divider == 1024 {
            5
        } else if (rtc_or_low && divider == 64) || divider == 1280 {
            6
        } else {
            7
        };
        self.regs.frdiv = frdiv;
    }

    /// Decodes the FLL reference divider field back to the divisor it applies
    /// for the current reference kind.
    pub fn get_external_crystal_frequency_divider(&self) -> (r: u16)
        requires
            self.regs.frdiv <= 7,
        ensures
            r == spec_crystal_divider(rtc_or_low_freq(self.regs), self.regs.frdiv),
            1 <= r <= 1536,
    {
        let rtc_or_low = self.regs.range0 == 0 || self.regs.oscsel;
        match self.regs.frdiv {
            0 => if rtc_or_low {
                1
            } else {
                32
            },
            1 => if rtc_or_low {
                2
            } else {
                64
            },
            2 => if rtc_or_low {
                4
            } else {
                128
            },
            3 => if rtc_or_low {
                8
            } else {
                256
            },
            4 => if rtc_or_low {
                16
            } else {
                512
            },
            5 => if rtc_or_low {
                32
            } else {
                1024
            },
            6 => if rtc_or_low {
                64
            } else {
                1280
            },
            _ => if rtc_or_low {
                128
            } else {
                1536
            },
        }
    }

    /// Switches the clock source select to the external reference and points
    /// the FLL at the crystal; the status fields settle on the external
    /// source, which is what a driver polls for.
    pub fn use_external_crystal(&mut self)
        ensures
            final(self).regs == (McgRegisters {
                clks: 2,
                irefs: false,
                irefst: false,
                clkst: 2,
                ..old(self).regs
            }),
            final(self).external_crystal_frequency == old(self).external_crystal_frequency,
    {
        self.regs.clks = 2;
        self.regs.irefs = false;
        self.regs.irefst = false;
        self.regs.clkst = 2;
    }

    /// Programs the PLL divider pair. The factors are offset-encoded into
    /// their register fields; values outside the documented ranges are
    /// programming errors and are excluded ahead of the call.
    pub fn set_pll_frequency_divider(&mut self, numerator: u8, denominator: u8)
        requires
            PLL_DIVIDER_NUMERATOR_MIN <= numerator <= PLL_DIVIDER_NUMERATOR_MAX,
            PLL_DIVIDER_DENOMINATOR_MIN <= denominator <= PLL_DIVIDER_DENOMINATOR_MAX,
        ensures
            final(self).regs == spec_set_pll_divider(old(self).regs, numerator, denominator),
            final(self).external_crystal_frequency == old(self).external_crystal_frequency,
    {
        self.regs.vdiv0 = numerator - PLL_DIVIDER_NUMERATOR_MIN;
        self.regs.prdiv0 = denominator - PLL_DIVIDER_DENOMINATOR_MIN;
    }

    /// Reads the PLL divider pair back, decoding the offset-encoded fields.
    pub fn get_pll_frequency_divider(&self) -> (r: (u8, u8))
        requires
            self.regs.wf(),
        ensures
            r == spec_get_pll_divider(self.regs),
            r.0 == self.regs.vdiv0 + PLL_DIVIDER_NUMERATOR_MIN,
            r.1 == self.regs.prdiv0 + PLL_DIVIDER_DENOMINATOR_MIN,
    {
        let numerator = self.regs.vdiv0 + PLL_DIVIDER_NUMERATOR_MIN;
        let denominator = self.regs.prdiv0 + PLL_DIVIDER_DENOMINATOR_MIN;
        (numerator, denominator)
    }

    /// Programs the PLL divider pair to make the PLL output `frequency`
    /// megahertz from the crystal, through the divider search.
    pub fn set_pll_frequency(&mut self, frequency: u32)
        requires
            1 <= frequency <= 255,
            1 <= old(self).external_crystal_frequency <= 255,
            spec_pll_divider_ok(frequency as u8, old(self).external_crystal_frequency as u8),
        ensures
            final(self).regs == (McgRegisters {
                vdiv0: (spec_pll_divider(
                    frequency as u8,
                    old(self).external_crystal_frequency as u8,
                ).0 - PLL_DIVIDER_NUMERATOR_MIN) as u8,
                prdiv0: (spec_pll_divider(
                    frequency as u8,
                    old(self).external_crystal_frequency as u8,
                ).1 - PLL_DIVIDER_DENOMINATOR_MIN) as u8,
                ..old(self).regs
            }),
            final(self).external_crystal_frequency == old(self).external_crystal_frequency,
    {
        let divider = pll_frequency_divider_gcd(
            frequency as u8,
            self.external_crystal_frequency as u8,
        );
        self.set_pll_frequency_divider(divider.0, divider.1);
    }

    /// PLL output frequency in megahertz from the programmed divider pair.
    pub fn get_pll_frequency(&self) -> (r: u32)
        requires
            self.wf(),
        ensures
            r == spec_pll_frequency(*self),
    {
        let (numerator, denominator) = self.get_pll_frequency_divider();
        let num = numerator as u32;
        let den = denominator as u32;
        proof {
            assert(num * self.external_crystal_frequency <= 55 * 1000) by (nonlinear_arith)
                requires
                    num <= 55,
                    self.external_crystal_frequency <= 1000,
            ;
        }
        (num * self.external_crystal_frequency) / den
    }

    /// Enables the PLL; the PLL-selected and PLL-locked status bits settle,
    /// which is what a driver polls for before returning.
    pub fn enable_pll(&mut self)
        ensures
            final(self).regs == (McgRegisters {
                plls: true,
                pllst: true,
                lock0: true,
                ..old(self).regs
            }),
            final(self).external_crystal_frequency == old(self).external_crystal_frequency,
    {
        self.regs.plls = true;
        self.regs.pllst = true;
        self.regs.lock0 = true;
    }

    /// Switches the clock source select to the locked-loop output; with the
    /// PLL enabled the status settles on the PLL as the live source.
    pub fn use_pll(&mut self)
        ensures
            final(self).regs == (McgRegisters { clks: 0, clkst: 3, ..old(self).regs }),
            final(self).external_crystal_frequency == old(self).external_crystal_frequency,
    {
        self.regs.clks = 0;
        self.regs.clkst = 3;
    }
}

/// The register state after programming the PLL divider pair: both factors
/// offset-encoded into their fields, everything else untouched.
pub open spec fn spec_set_pll_divider(regs: McgRegisters, numerator: u8, denominator: u8)
    -> McgRegisters
    recommends
        PLL_DIVIDER_NUMERATOR_MIN <= numerator <= PLL_DIVIDER_NUMERATOR_MAX,
        PLL_DIVIDER_DENOMINATOR_MIN <= denominator <= PLL_DIVIDER_DENOMINATOR_MAX,
{
    McgRegisters {
        vdiv0: (numerator - PLL_DIVIDER_NUMERATOR_MIN) as u8,
        prdiv0: (denominator - PLL_DIVIDER_DENOMINATOR_MIN) as u8,
        ..regs
    }
}

/// The PLL divider pair a register state decodes to.
pub open spec fn spec_get_pll_divider(regs: McgRegisters) -> (u8, u8)
    recommends
        regs.wf(),
{
    (
        (regs.vdiv0 + PLL_DIVIDER_NUMERATOR_MIN) as u8,
        (regs.prdiv0 + PLL_DIVIDER_DENOMINATOR_MIN) as u8,
    )
}

/// Law: reading the PLL divider pair back after programming it returns the
/// pair unchanged, for every numerator in its legal range and every
/// denominator in its legal range, whatever the rest of the registers hold.
pub proof fn lemma_pll_divider_round_trip(regs: McgRegisters, numerator: u8, denominator: u8)
    requires
        PLL_DIVIDER_NUMERATOR_MIN <= numerator <= PLL_DIVIDER_NUMERATOR_MAX,
        PLL_DIVIDER_DENOMINATOR_MIN <= denominator <= PLL_DIVIDER_DENOMINATOR_MAX,
    ensures
        spec_get_pll_divider(spec_set_pll_divider(regs, numerator, denominator)) == (
        numerator,
        denominator,
        ),
{
}

/// Law: clock-mode derivation is idempotent. The derived mode is a pure
/// function of the register state and the crystal frequency, never a cached
/// value, so two derivations with no register write in between agree.
pub proof fn lemma_clock_mode_derivation_stable(
    a: MultipurposeClockGenerator,
    b: MultipurposeClockGenerator,
)
    requires
        a.regs == b.regs,
        a.external_crystal_frequency == b.external_crystal_frequency,
    ensures
        spec_clock_mode(a) == spec_clock_mode(b),
{
    assert(a == b);
}

/// Capability handle for the FLL-engaged internal mode: the power-on state.
pub struct Fei {
    /// The generator whose registers derive this mode.
    pub mcg: MultipurposeClockGenerator,
}

/// Capability handle for the FLL-engaged external mode.
pub struct Fee {
    /// The generator whose registers derive this mode.
    pub mcg: MultipurposeClockGenerator,
}

/// Capability handle for the FLL-bypassed internal mode.
pub struct Fbi {
    /// The generator whose registers derive this mode.
    pub mcg: MultipurposeClockGenerator,
}

/// Capability handle for the FLL-bypassed external mode.
pub struct Fbe {
    /// The generator whose registers derive this mode.
    pub mcg: MultipurposeClockGenerator,
}

/// Capability handle for the PLL-engaged external mode: the stable
/// high-frequency end of the bring-up chain.
pub struct Pee {
    /// The generator whose registers derive this mode.
    pub mcg: MultipurposeClockGenerator,
}

/// Capability handle for the PLL-bypassed external mode.
pub struct Pbe {
    /// The generator whose registers derive this mode.
    pub mcg: MultipurposeClockGenerator,
}

/// Capability handle for the bypassed low-power internal mode.
pub struct Blpi {
    /// The generator whose registers derive this mode.
    pub mcg: MultipurposeClockGenerator,
}

/// Capability handle for the bypassed low-power external mode.
pub struct Blpe {
    /// The generator whose registers derive this mode.
    pub mcg: MultipurposeClockGenerator,
}

/// Capability handle for the stopped clock.
pub struct Stop {
    /// The generator whose registers derive this mode.
    pub mcg: MultipurposeClockGenerator,
}

/// The live clock configuration, wrapping the capability handle that grants
/// exactly the operations legal in that configuration. A transition consumes
/// the handle of the mode it leaves, so the old mode's operations cannot be
/// used afterwards.
pub enum ClockMode {
    /// FLL engaged, internal reference.
    Fei(Fei),
    /// FLL engaged, external reference.
    Fee(Fee),
    /// FLL bypassed, internal reference.
    Fbi(Fbi),
    /// FLL bypassed, external reference.
    Fbe(Fbe),
    /// PLL engaged, external reference.
    Pee(Pee),
    /// PLL bypassed, external reference.
    Pbe(Pbe),
    /// Bypassed low power, internal reference.
    Blpi(Blpi),
    /// Bypassed low power, external reference.
    Blpe(Blpe),
    /// Not running.
    Stop,
}

impl Fei {
    /// The wrapped generator really is in the FLL-engaged internal mode.
    pub open spec fn wf(&self) -> bool {
        &&& self.mcg.wf()
        &&& spec_clock_mode(self.mcg) == Some(ClockModeName::Fei)
    }
}

impl Fbe {
    /// The wrapped generator really is in the FLL-bypassed external mode.
    pub open spec fn wf(&self) -> bool {
        &&& self.mcg.wf()
        &&& spec_clock_mode(self.mcg) == Some(ClockModeName::Fbe)
    }
}

impl Pbe {
    /// The wrapped generator really is in the PLL-bypassed external mode.
    pub open spec fn wf(&self) -> bool {
        &&& self.mcg.wf()
        &&& spec_clock_mode(self.mcg) == Some(ClockModeName::Pbe)
    }
}

impl Pee {
    /// The wrapped generator really is in the PLL-engaged external mode.
    pub open spec fn wf(&self) -> bool {
        &&& self.mcg.wf()
        &&& spec_clock_mode(self.mcg) == Some(ClockModeName::Pee)
    }
}

impl ClockModeName {
    /// Wraps a generator in the capability handle of the mode its registers
    /// derive to.
    pub fn with_mcg(self, mcg: MultipurposeClockGenerator) -> (r: ClockMode)
        requires
            mcg.wf(),
            spec_clock_mode(mcg) == Some(self),
        ensures
            match r {
                ClockMode::Fei(m) => self == ClockModeName::Fei && m.mcg == mcg,
                ClockMode::Fee(m) => self == ClockModeName::Fee && m.mcg == mcg,
                ClockMode::Fbi(m) => self == ClockModeName::Fbi && m.mcg == mcg,
                ClockMode::Fbe(m) => self == ClockModeName::Fbe && m.mcg == mcg,
                ClockMode::Pee(m) => self == ClockModeName::Pee && m.mcg == mcg,
                ClockMode::Pbe(m) => self == ClockModeName::Pbe && m.mcg == mcg,
                ClockMode::Blpi(m) => self == ClockModeName::Blpi && m.mcg == mcg,
                ClockMode::Blpe(m) => self == ClockModeName::Blpe && m.mcg == mcg,
                ClockMode::Stop => self == ClockModeName::Stop,
            },
    {
        match self {
            ClockModeName::Fei => ClockMode::Fei(Fei { mcg }),
            ClockModeName::Fee => ClockMode::Fee(Fee { mcg }),
            ClockModeName::Fbi => ClockMode::Fbi(Fbi { mcg }),
            ClockModeName::Fbe => ClockMode::Fbe(Fbe { mcg }),
            ClockModeName::Pee => ClockMode::Pee(Pee { mcg }),
            ClockModeName::Pbe => ClockMode::Pbe(Pbe { mcg }),
            ClockModeName::Blpi => ClockMode::Blpi(Blpi { mcg }),
            ClockModeName::Blpe => ClockMode::Blpe(Blpe { mcg }),
            ClockModeName::Stop => ClockMode::Stop,
        }
    }
}

impl MultipurposeClockGenerator {
    /// Derives the live mode from the registers and wraps the generator in
    /// the matching capability handle, consuming the generator so that no
    /// stale handle can coexist with it.
    pub fn clock_mode(self) -> (r: ClockMode)
        requires
            self.wf(),
            spec_clock_mode(self) is Some,
        ensures
            match r {
                ClockMode::Fei(m) => spec_clock_mode(self) == Some(ClockModeName::Fei) && m.mcg
                    == self,
                ClockMode::Fee(m) => spec_clock_mode(self) == Some(ClockModeName::Fee) && m.mcg
                    == self,
                ClockMode::Fbi(m) => spec_clock_mode(self) == Some(ClockModeName::Fbi) && m.mcg
                    == self,
                ClockMode::Fbe(m) => spec_clock_mode(self) == Some(ClockModeName::Fbe) && m.mcg
                    == self,
                ClockMode::Pee(m) => spec_clock_mode(self) == Some(ClockModeName::Pee) && m.mcg
                    == self,
                ClockMode::Pbe(m) => spec_clock_mode(self) == Some(ClockModeName::Pbe) && m.mcg
                    == self,
                ClockMode::Blpi(m) => spec_clock_mode(self) == Some(ClockModeName::Blpi) && m.mcg
                    == self,
                ClockMode::Blpe(m) => spec_clock_mode(self) == Some(ClockModeName::Blpe) && m.mcg
                    == self,
                ClockMode::Stop => spec_clock_mode(self) == Some(ClockModeName::Stop),
            },
    {
        let name = self.clock_mode_name();
        name.with_mcg(self)
    }
}

impl Fei {
    /// Transition to the FLL-bypassed external mode, the only transition
    /// legal from the power-on mode: select the high crystal range, request
    /// the crystal, program the reference divider to 512, and switch the
    /// clock source to the external reference. The divider choice fits a
    /// crystal in the 16 to 20 megahertz band.
    pub fn into_fbe(self) -> (r: Fbe)
        requires
            self.wf(),
            !self.mcg.regs.lp,
            !self.mcg.regs.oscsel,
            16 <= self.mcg.external_crystal_frequency <= 20,
        ensures
            r.wf(),
            r.mcg.external_crystal_frequency == self.mcg.external_crystal_frequency,
            r.mcg.regs == (McgRegisters {
                range0: 1,
                erefs0: true,
                oscinit0: true,
                frdiv: 4,
                clks: 2,
                irefs: false,
                irefst: false,
                clkst: 2,
                ..self.mcg.regs
            }),
    {
        let mut mcg = self.mcg;
        mcg.set_external_crystal_frequency_range_high();
        mcg.enable_external_crystal_request();
        mcg.set_external_crystal_frequency_divider(512);
        mcg.use_external_crystal();
        match mcg.clock_mode() {
            ClockMode::Fbe(fbe) => fbe,
            _ => unreached(),
        }
    }
}

impl Fbe {
    /// Transition to the PLL-bypassed external mode, the only transition
    /// legal from here: program the PLL divider pair for the fixed target
    /// output frequency, then enable the PLL and let it lock. The target
    /// ratio must be expressible within the divider limits.
    pub fn into_pbe(self) -> (r: Pbe)
        requires
            self.wf(),
            self.mcg.external_crystal_frequency <= 255,
            spec_pll_divider_ok(
                MAXIMUM_CLOCK_FREQUENCY as u8,
                self.mcg.external_crystal_frequency as u8,
            ),
        ensures
            r.wf(),
            r.mcg.external_crystal_frequency == self.mcg.external_crystal_frequency,
            r.mcg.regs == (McgRegisters {
                plls: true,
                pllst: true,
                lock0: true,
                ..spec_set_pll_divider(
                    self.mcg.regs,
                    spec_pll_divider(
                        MAXIMUM_CLOCK_FREQUENCY as u8,
                        self.mcg.external_crystal_frequency as u8,
                    ).0 as u8,
                    spec_pll_divider(
                        MAXIMUM_CLOCK_FREQUENCY as u8,
                        self.mcg.external_crystal_frequency as u8,
                    ).1 as u8,
                )
            }),
    {
        let mut mcg = self.mcg;
        proof {
            lemma_pll_divider_in_range(
                MAXIMUM_CLOCK_FREQUENCY as u8,
                mcg.external_crystal_frequency as u8,
            );
        }
        mcg.set_pll_frequency(MAXIMUM_CLOCK_FREQUENCY);
        mcg.enable_pll();
        match mcg.clock_mode() {
            ClockMode::Pbe(pbe) => pbe,
            _ => unreached(),
        }
    }
}

impl Pbe {
    /// Transition to the PLL-engaged external mode, the only transition
    /// legal from here: switch the clock source select to the locked-loop
    /// output and let the status settle on the PLL.
    pub fn into_pee(self) -> (r: Pee)
        requires
            self.wf(),
        ensures
            r.wf(),
            r.mcg.external_crystal_frequency == self.mcg.external_crystal_frequency,
            r.mcg.regs == (McgRegisters { clks: 0, clkst: 3, ..self.mcg.regs }),
    {
        let mut mcg = self.mcg;
        mcg.use_pll();
        match mcg.clock_mode() {
            ClockMode::Pee(pee) => pee,
            _ => unreached(),
        }
    }
}

/// Greatest common divisor by Euclid's algorithm.
pub open spec fn spec_gcd(a: nat, b: nat) -> nat
    decreases b,
{
    if b == 0 {
        a
    } else {
        spec_gcd(b, a % b)
    }
}

/// Smallest multiplier that lifts a reduced numerator `n0` to the legal
/// window, the ceiling of `PLL_DIVIDER_NUMERATOR_MIN / n0`.
pub open spec fn spec_pll_scale(n0: nat) -> nat
    recommends
        n0 >= 1,
{
    ((n0 + PLL_DIVIDER_NUMERATOR_MIN - 1) / n0 as int) as nat
}

/// The divider pair for a target-to-crystal ratio `numerator/denominator`:
/// the ratio reduced by its greatest common divisor, then both terms scaled
/// by the smallest common multiplier that lifts the numerator to its
/// hardware minimum.
pub open spec fn spec_pll_divider(numerator: u8, denominator: u8) -> (nat, nat) {
    let g = spec_gcd(numerator as nat, denominator as nat);
    let n0 = numerator as nat / g;
    let d0 = denominator as nat / g;
    let m = spec_pll_scale(n0);
    (n0 * m, d0 * m)
}

/// Whether a ratio can be expressed within the hardware divider limits: the
/// reduced terms are nonzero and, scaled by the smallest multiplier that
/// reaches the numerator minimum, both stay within their maxima. Ratios
/// outside this set are fatal programming errors.
pub open spec fn spec_pll_divider_ok(numerator: u8, denominator: u8) -> bool {
    let g = spec_gcd(numerator as nat, denominator as nat);
    let n0 = numerator as nat / g;
    let d0 = denominator as nat / g;
    let m = spec_pll_scale(n0);
    &&& g >= 1
    &&& n0 >= 1
    &&& d0 >= 1
    &&& n0 * m <= PLL_DIVIDER_NUMERATOR_MAX
    &&& d0 * m <= PLL_DIVIDER_DENOMINATOR_MAX
}

/// Euclid's divisor really divides both arguments.
proof fn lemma_gcd_divides(a: nat, b: nat)
    requires
        a >= 1 || b >= 1,
    ensures
        spec_gcd(a, b) >= 1,
        a % spec_gcd(a, b) == 0,
        b % spec_gcd(a, b) == 0,
    decreases b,
{
    let g = spec_gcd(a, b);
    if b == 0 {
        vstd::arithmetic::div_mod::lemma_mod_self_0(a as int);
        vstd::arithmetic::div_mod::lemma_small_mod(0, a);
    } else {
        lemma_gcd_divides(b, a % b);
        vstd::arithmetic::div_mod::lemma_fundamental_div_mod(a as int, b as int);
        let q = a as int / b as int;
        vstd::arithmetic::div_mod::lemma_mul_mod_noop_left(b as int, q, g as int);
        vstd::arithmetic::div_mod::lemma_add_mod_noop(b as int * q, (a % b) as int, g as int);
        vstd::arithmetic::div_mod::lemma_small_mod(0, g);
    }
}

/// Law: the divider pair keeps the requested ratio exactly: its cross
/// products with the inputs agree, so the pair relates to the target and
/// crystal frequencies as the same ratio of integers.
pub proof fn lemma_pll_divider_preserves_ratio(numerator: u8, denominator: u8)
    requires
        numerator >= 1,
        denominator >= 1,
        spec_pll_divider_ok(numerator, denominator),
    ensures
        spec_pll_divider(numerator, denominator).0 * denominator == spec_pll_divider(
            numerator,
            denominator,
        ).1 * numerator,
{
    let a = numerator as nat;
    let b = denominator as nat;
    let g = spec_gcd(a, b);
    lemma_gcd_divides(a, b);
    let n0 = a / g;
    let d0 = b / g;
    let m = spec_pll_scale(n0);
    vstd::arithmetic::div_mod::lemma_fundamental_div_mod(a as int, g as int);
    vstd::arithmetic::div_mod::lemma_fundamental_div_mod(b as int, g as int);
    assert((n0 * m) * b == (d0 * m) * a) by (nonlinear_arith)
        requires
            a == g * n0,
            b == g * d0,
    ;
}

/// An expressible ratio's divider pair lands inside the legal window.
pub proof fn lemma_pll_divider_in_range(numerator: u8, denominator: u8)
    requires
        numerator >= 1,
        denominator >= 1,
        spec_pll_divider_ok(numerator, denominator),
    ensures
        PLL_DIVIDER_NUMERATOR_MIN <= spec_pll_divider(numerator, denominator).0
            <= PLL_DIVIDER_NUMERATOR_MAX,
        PLL_DIVIDER_DENOMINATOR_MIN <= spec_pll_divider(numerator, denominator).1
            <= PLL_DIVIDER_DENOMINATOR_MAX,
{
    let g = spec_gcd(numerator as nat, denominator as nat);
    let n0 = numerator as nat / g;
    let d0 = denominator as nat / g;
    let m = spec_pll_scale(n0);
    lemma_pll_scale(n0);
    assert(d0 * m >= 1) by (nonlinear_arith)
        requires
            d0 >= 1,
            m >= 1,
    ;
}

/// The scale factor is at least 1 and is the least multiplier whose product
/// with `n0` reaches the numerator minimum.
proof fn lemma_pll_scale(n0: nat)
    requires
        n0 >= 1,
    ensures
        spec_pll_scale(n0) >= 1,
        n0 * spec_pll_scale(n0) >= PLL_DIVIDER_NUMERATOR_MIN,
        n0 * (spec_pll_scale(n0) - 1) < PLL_DIVIDER_NUMERATOR_MIN,
{
    let m = spec_pll_scale(n0);
    let top = (n0 + PLL_DIVIDER_NUMERATOR_MIN - 1) as nat;
    vstd::arithmetic::div_mod::lemma_fundamental_div_mod(top as int, n0 as int);
    vstd::arithmetic::div_mod::lemma_mod_bound(top as int, n0 as int);
    assert(top as int == n0 * m + top as int % n0 as int);
    assert(n0 * m >= top - (n0 - 1)) by (nonlinear_arith)
        requires
            top as int == n0 * m + top as int % n0 as int,
            top as int % n0 as int <= n0 - 1,
    ;
    assert(n0 * m <= top) by (nonlinear_arith)
        requires
            top as int == n0 * m + top as int % n0 as int,
            top as int % n0 as int >= 0,
    ;
    assert(n0 * (m - 1) == n0 * m - n0) by (nonlinear_arith);
    assert(m >= 1) by (nonlinear_arith)
        requires
            n0 * m >= top - (n0 - 1),
            top >= n0 + PLL_DIVIDER_NUMERATOR_MIN - 1,
            n0 >= 1,
            PLL_DIVIDER_NUMERATOR_MIN >= 1,
            m >= 0,
    ;
}

/// Reduces `numerator/denominator` by its greatest common divisor and scales
/// the result into the legal divider window, returning the PLL divider pair.
/// Ratios that no multiplier can bring within the window are excluded ahead
/// of the call; on those the hardware cannot express the ratio at all.
pub fn pll_frequency_divider_gcd(numerator: u8, denominator: u8) -> (r: (u8, u8))
    requires
        numerator >= 1,
        denominator >= 1,
        spec_pll_divider_ok(numerator, denominator),
    ensures
        r.0 as nat == spec_pll_divider(numerator, denominator).0,
        r.1 as nat == spec_pll_divider(numerator, denominator).1,
        PLL_DIVIDER_NUMERATOR_MIN <= r.0 <= PLL_DIVIDER_NUMERATOR_MAX,
        PLL_DIVIDER_DENOMINATOR_MIN <= r.1 <= PLL_DIVIDER_DENOMINATOR_MAX,
        r.0 * denominator == r.1 * numerator,
{
    proof {
        lemma_pll_divider_preserves_ratio(numerator, denominator);
    }
    let ghost g = spec_gcd(numerator as nat, denominator as nat);
    let mut num = numerator;
    let mut den = denominator;
    while den != 0
        invariant
            spec_gcd(num as nat, den as nat) == g,
        decreases den,
    {
        let temp = den;
        den = num % den;
        num = temp;
    }
    let gcd = num;
    assert(gcd == g);
    num = numerator / gcd;
    den = denominator / gcd;
    let ghost n0 = num as nat;
    let ghost d0 = den as nat;
    let ghost m = spec_pll_scale(n0);
    proof {
        lemma_pll_scale(n0);
        assert(n0 * 1 == n0) by (nonlinear_arith);
        assert(d0 * 1 == d0) by (nonlinear_arith);
        assert(d0 * m >= d0) by (nonlinear_arith)
            requires
                m >= 1,
                d0 >= 1,
        ;
    }
    let mut freq_num = num;
    let mut freq_den = den;
    let mut mul: u8 = 1;
    while freq_num < PLL_DIVIDER_NUMERATOR_MIN
        invariant
            1 <= mul,
            mul as nat <= m,
            num as nat == n0,
            den as nat == d0,
            freq_num as nat == n0 * mul,
            freq_den as nat == d0 * mul,
            n0 * m <= PLL_DIVIDER_NUMERATOR_MAX,
            d0 * m <= PLL_DIVIDER_DENOMINATOR_MAX,
            n0 >= 1,
            d0 >= 1,
            m == spec_pll_scale(n0),
        decreases m - mul,
    {
        proof {
            lemma_pll_scale(n0);
            assert(mul < m) by (nonlinear_arith)
                requires
                    n0 * mul < PLL_DIVIDER_NUMERATOR_MIN,
                    n0 * m >= PLL_DIVIDER_NUMERATOR_MIN,
                    n0 >= 1,
            ;
            assert(m <= PLL_DIVIDER_NUMERATOR_MAX) by (nonlinear_arith)
                requires
                    n0 >= 1,
                    n0 * m <= PLL_DIVIDER_NUMERATOR_MAX,
            ;
        }
        let next_mul = mul + 1;
        proof {
            assert(n0 * next_mul <= n0 * m && d0 * next_mul <= d0 * m) by (nonlinear_arith)
                requires
                    next_mul <= m,
                    n0 >= 1,
                    d0 >= 1,
            ;
        }
        freq_num = num * next_mul;
        freq_den = den * next_mul;
        mul = next_mul;
    }
    proof {
        lemma_pll_scale(n0);
        assert(mul as nat >= m) by (nonlinear_arith)
            requires
                n0 * mul >= PLL_DIVIDER_NUMERATOR_MIN,
                n0 * (m - 1) < PLL_DIVIDER_NUMERATOR_MIN,
                n0 >= 1,
                mul >= 1,
                m >= 1,
        ;
    }
    (freq_num, freq_den)
}

} // verus!
