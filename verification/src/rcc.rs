//! Model of the clock-control backend: the register block that gates each
//! peripheral clock line, selects the oscillator feeding the real-time clock,
//! and reports the system clock frequency, the APB bus prescalers and the
//! timer-prescaler-doubling flag.
//!
//! The backend serializes raw register access; this module captures the state
//! those registers hold, so that every operation on it carries an exact
//! contract. The enable bits are viewed as a total map from clock line to
//! enabled state.

use vstd::prelude::*;

verus! {

/// How many gateable clock lines the backend has.
pub const NUM_CLOCK_LINES: usize = 25;

/// One gateable clock line of the backend.
#[derive(Clone, Copy, PartialEq, Eq, Structural, Debug)]
pub enum ClockLine {
    Dma1,
    Dma2,
    GpioA,
    GpioB,
    GpioC,
    GpioD,
    GpioE,
    GpioF,
    GpioG,
    GpioH,
    Rng,
    OtgFs,
    Fmc,
    Tim2,
    Usart2,
    Usart3,
    Spi3,
    I2c1,
    Can1,
    Dac,
    Usart1,
    Adc1,
    SysCfg,
    Rtc,
    Pwr,
}

impl ClockLine {
    /// Position of this line's enable bit in the backing array.
    pub open spec fn index(self) -> int {
        match self {
            ClockLine::Dma1 => 0,
            ClockLine::Dma2 => 1,
            ClockLine::GpioA => 2,
            ClockLine::GpioB => 3,
            ClockLine::GpioC => 4,
            ClockLine::GpioD => 5,
            ClockLine::GpioE => 6,
            ClockLine::GpioF => 7,
            ClockLine::GpioG => 8,
            ClockLine::GpioH => 9,
            ClockLine::Rng => 10,
            ClockLine::OtgFs => 11,
            ClockLine::Fmc => 12,
            ClockLine::Tim2 => 13,
            ClockLine::Usart2 => 14,
            ClockLine::Usart3 => 15,
            ClockLine::Spi3 => 16,
            ClockLine::I2c1 => 17,
            ClockLine::Can1 => 18,
            ClockLine::Dac => 19,
            ClockLine::Usart1 => 20,
            ClockLine::Adc1 => 21,
            ClockLine::SysCfg => 22,
            ClockLine::Rtc => 23,
            ClockLine::Pwr => 24,
        }
    }

    pub fn as_index(&self) -> (i: usize)
        ensures
            i as int == self.index(),
    {
        match self {
            ClockLine::Dma1 => 0,
            ClockLine::Dma2 => 1,
            ClockLine::GpioA => 2,
            ClockLine::GpioB => 3,
            ClockLine::GpioC => 4,
            ClockLine::GpioD => 5,
            ClockLine::GpioE => 6,
            ClockLine::GpioF => 7,
            ClockLine::GpioG => 8,
            ClockLine::GpioH => 9,
            ClockLine::Rng => 10,
            ClockLine::OtgFs => 11,
            ClockLine::Fmc => 12,
            ClockLine::Tim2 => 13,
            ClockLine::Usart2 => 14,
            ClockLine::Usart3 => 15,
            ClockLine::Spi3 => 16,
            ClockLine::I2c1 => 17,
            ClockLine::Can1 => 18,
            ClockLine::Dac => 19,
            ClockLine::Usart1 => 20,
            ClockLine::Adc1 => 21,
            ClockLine::SysCfg => 22,
            ClockLine::Rtc => 23,
            ClockLine::Pwr => 24,
        }
    }
}

/// The clock line whose enable bit sits at position `i` of the backing array.
pub open spec fn line_at(i: int) -> ClockLine {
    if i == 0 {
        ClockLine::Dma1
    } else if i == 1 {
        ClockLine::Dma2
    } else if i == 2 {
        ClockLine::GpioA
    } else if i == 3 {
        ClockLine::GpioB
    } else if i == 4 {
        ClockLine::GpioC
    } else if i == 5 {
        ClockLine::GpioD
    } else if i == 6 {
        ClockLine::GpioE
    } else if i == 7 {
        ClockLine::GpioF
    } else if i == 8 {
        ClockLine::GpioG
    } else if i == 9 {
        ClockLine::GpioH
    } else if i == 10 {
        ClockLine::Rng
    } else if i == 11 {
        ClockLine::OtgFs
    } else if i == 12 {
        ClockLine::Fmc
    } else if i == 13 {
        ClockLine::Tim2
    } else if i == 14 {
        ClockLine::Usart2
    } else if i == 15 {
        ClockLine::Usart3
    } else if i == 16 {
        ClockLine::Spi3
    } else if i == 17 {
        ClockLine::I2c1
    } else if i == 18 {
        ClockLine::Can1
    } else if i == 19 {
        ClockLine::Dac
    } else if i == 20 {
        ClockLine::Usart1
    } else if i == 21 {
        ClockLine::Adc1
    } else if i == 22 {
        ClockLine::SysCfg
    } else if i == 23 {
        ClockLine::Rtc
    } else {
        ClockLine::Pwr
    }
}

/// Every line has a bit position inside the backing array, and distinct lines
/// have distinct positions.
pub broadcast proof fn lemma_line_index_bijective(l: ClockLine)
    ensures
        0 <= #[trigger] l.index() < NUM_CLOCK_LINES as int,
        line_at(l.index()) == l,
{
}

/// Oscillator that can feed the real-time clock.
#[derive(Clone, Copy, PartialEq, Eq, Structural, Debug)]
pub enum RtcClockSource {
    /// Low-speed internal oscillator.
    LSI,
    /// Low-speed external oscillator.
    LSE,
}

/// Divisor applied to the system clock before it reaches an APB bus.
#[derive(Clone, Copy, PartialEq, Eq, Structural, Debug)]
pub enum APBPrescaler {
    DivideBy1,
    DivideBy2,
    DivideBy4,
    DivideBy8,
    DivideBy16,
}

impl APBPrescaler {
    /// The integer divisor this prescaler setting stands for.
    pub open spec fn divisor(self) -> int {
        match self {
            APBPrescaler::DivideBy1 => 1,
            APBPrescaler::DivideBy2 => 2,
            APBPrescaler::DivideBy4 => 4,
            APBPrescaler::DivideBy8 => 8,
            APBPrescaler::DivideBy16 => 16,
        }
    }

    pub fn to_divisor(&self) -> (d: u32)
        ensures
            d as int == self.divisor(),
    {
        match self {
            APBPrescaler::DivideBy1 => 1,
            APBPrescaler::DivideBy2 => 2,
            APBPrescaler::DivideBy4 => 4,
            APBPrescaler::DivideBy8 => 8,
            APBPrescaler::DivideBy16 => 16,
        }
    }
}

/// The enable bit of every clock line, viewed as a total map from line to
/// enabled state.
#[derive(Clone, Copy, Debug)]
pub struct ClockGates {
    pub bits: [bool; NUM_CLOCK_LINES],
}

impl View for ClockGates {
    type V = Map<ClockLine, bool>;

    open spec fn view(&self) -> Map<ClockLine, bool> {
        Map::total(|l: ClockLine| self.bits@[l.index()])
    }
}

impl ClockGates {
    /// Gates with every line disabled, the state after reset.
    pub fn all_clear() -> (g: ClockGates)
        ensures
            forall|l: ClockLine| !(#[trigger] g@[l]),
    {
        ClockGates { bits: [false; NUM_CLOCK_LINES] }
    }

    pub fn line_enabled(&self, line: ClockLine) -> (r: bool)
        ensures
            r == self@[line],
    {
        self.bits[line.as_index()]
    }

    fn set_line(&mut self, line: ClockLine, on: bool)
        ensures
            final(self)@ == old(self)@.insert(line, on),
    {
        let i = line.as_index();
        self.bits[i] = on;
        proof {
            broadcast use lemma_line_index_bijective;

            assert(self@ =~= old(self)@.insert(line, on));
        }
    }
}

/// Holds when the sys clock frequency, the APB prescalers and the
/// timer-prescaler-doubling flag agree between two backend states.
pub open spec fn same_clock_tree(a: Rcc, b: Rcc) -> bool {
    &&& a.sys_clock_frequency == b.sys_clock_frequency
    &&& a.apb1_prescaler == b.apb1_prescaler
    &&& a.apb2_prescaler == b.apb2_prescaler
    &&& a.tim_pre == b.tim_pre
}

/// Holds when the random-number-generator clock configuration agrees between
/// two backend states.
pub open spec fn same_rng_config(a: Rcc, b: Rcc) -> bool {
    &&& a.rng_clock_configured == b.rng_clock_configured
    &&& a.rng_config_count@ == b.rng_config_count@
}

/// The clock-control backend's state: the line enable bits, the clock tree settings
/// read by the frequency derivation, and the real-time clock's source.
///
/// `rng_config_count` counts, in ghost state only, how often the
/// random-number-generator clock has been reconfigured, so that contracts can
/// say that a recovery hook ran exactly once.
pub struct Rcc {
    pub gates: ClockGates,
    pub sys_clock_frequency: u32,
    pub apb1_prescaler: APBPrescaler,
    pub apb2_prescaler: APBPrescaler,
    pub tim_pre: bool,
    pub rtc_clock_source: Option<RtcClockSource>,
    pub rng_clock_configured: bool,
    pub rng_config_count: Ghost<int>,
}

/// Holds when `post` is `pre` after one run of the random-number-generator
/// clock reconfiguration hook: the configuration is applied, the ghost count
/// of runs grows by one, and nothing else moves.
pub open spec fn rng_configured_step(pre: Rcc, post: Rcc) -> bool {
    &&& post.rng_clock_configured
    &&& post.rng_config_count@ == pre.rng_config_count@ + 1
    &&& post.gates@ == pre.gates@
    &&& same_clock_tree(pre, post)
    &&& post.rtc_clock_source == pre.rtc_clock_source
}

impl Rcc {
    /// A backend fresh out of reset: every clock line off, no real-time clock
    /// source selected, the random-number-generator clock not yet configured.
    pub fn new(
        sys_clock_frequency: u32,
        apb1_prescaler: APBPrescaler,
        apb2_prescaler: APBPrescaler,
        tim_pre: bool,
    ) -> (r: Rcc)
        ensures
            forall|l: ClockLine| !(#[trigger] r.gates@[l]),
            r.sys_clock_frequency == sys_clock_frequency,
            r.apb1_prescaler == apb1_prescaler,
            r.apb2_prescaler == apb2_prescaler,
            r.tim_pre == tim_pre,
            r.rtc_clock_source is None,
            !r.rng_clock_configured,
            r.rng_config_count@ == 0,
    {
        Rcc {
            gates: ClockGates::all_clear(),
            sys_clock_frequency,
            apb1_prescaler,
            apb2_prescaler,
            tim_pre,
            rtc_clock_source: None,
            rng_clock_configured: false,
            rng_config_count: Ghost(0),
        }
    }

    pub fn is_enabled_clock(&self, line: ClockLine) -> (r: bool)
        ensures
            r == self.gates@[line],
    {
        self.gates.line_enabled(line)
    }

    pub fn enable_clock(&mut self, line: ClockLine)
        ensures
            final(self).gates@ == old(self).gates@.insert(line, true),
            same_clock_tree(*old(self), *final(self)),
            same_rng_config(*old(self), *final(self)),
            final(self).rtc_clock_source == old(self).rtc_clock_source,
    {
        self.gates.set_line(line, true);
    }

    pub fn disable_clock(&mut self, line: ClockLine)
        ensures
            final(self).gates@ == old(self).gates@.insert(line, false),
            same_clock_tree(*old(self), *final(self)),
            same_rng_config(*old(self), *final(self)),
            final(self).rtc_clock_source == old(self).rtc_clock_source,
    {
        self.gates.set_line(line, false);
    }

    /// Enabling the real-time clock also selects the oscillator feeding it.
    pub fn enable_rtc_clock(&mut self, source: RtcClockSource)
        ensures
            final(self).gates@ == old(self).gates@.insert(ClockLine::Rtc, true),
            same_clock_tree(*old(self), *final(self)),
            same_rng_config(*old(self), *final(self)),
            final(self).rtc_clock_source == Some(source),
    {
        self.gates.set_line(ClockLine::Rtc, true);
        self.rtc_clock_source = Some(source);
    }

    pub fn get_sys_clock_frequency(&self) -> (f: u32)
        ensures
            f == self.sys_clock_frequency,
    {
        self.sys_clock_frequency
    }

    pub fn get_apb1_prescaler(&self) -> (p: APBPrescaler)
        ensures
            p == self.apb1_prescaler,
    {
        self.apb1_prescaler
    }

    pub fn get_apb2_prescaler(&self) -> (p: APBPrescaler)
        ensures
            p == self.apb2_prescaler,
    {
        self.apb2_prescaler
    }

    pub fn is_enabled_tim_pre(&self) -> (r: bool)
        ensures
            r == self.tim_pre,
    {
        self.tim_pre
    }

    /// Reapplies the random-number-generator clock configuration; the recovery
    /// hook run behind a clock-error interrupt.
    pub fn configure_rng_clock(&mut self)
        ensures
            rng_configured_step(*old(self), *final(self)),
    {
        self.rng_clock_configured = true;
        self.rng_config_count = Ghost(self.rng_config_count@ + 1);
    }
}

} // verus!
