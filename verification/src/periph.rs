//! Peripheral clock handles: one per peripheral, identifying its bus and
//! clock line, with enable / disable / query / frequency operations that
//! dispatch on that identity, and the registries that construct the full,
//! fixed set of handles.

use crate::rcc::{
    rng_configured_step, same_clock_tree, same_rng_config, APBPrescaler, ClockLine, Rcc,
    RtcClockSource,
};
use vstd::prelude::*;

verus! {

/// How many GPIO ports have a gateable clock.
pub const GPIO_NUM_PORTS: usize = 8;

/// Bus + clock name for the peripherals.
#[derive(Clone, Copy, PartialEq, Eq, Structural, Debug)]
pub enum PeripheralClockType {
    AHB1(HCLK1),
    AHB2(HCLK2),
    AHB3(HCLK3),
    APB1(PCLK1),
    APB2(PCLK2),
    RTC,
    PWR,
}

/// Peripherals clocked by HCLK1.
#[derive(Clone, Copy, PartialEq, Eq, Structural, Debug)]
pub enum HCLK1 {
    DMA1,
    DMA2,
    GPIOH,
    GPIOG,
    GPIOF,
    GPIOE,
    GPIOD,
    GPIOC,
    GPIOB,
    GPIOA,
}

/// Peripherals clocked by HCLK2.
#[derive(Clone, Copy, PartialEq, Eq, Structural, Debug)]
pub enum HCLK2 {
    RNG,
    OTGFS,
}

/// Peripherals clocked by HCLK3.
#[derive(Clone, Copy, PartialEq, Eq, Structural, Debug)]
pub enum HCLK3 {
    FMC,
}

/// Peripherals clocked by PCLK1.
#[derive(Clone, Copy, PartialEq, Eq, Structural, Debug)]
pub enum PCLK1 {
    TIM2,
    USART2,
    USART3,
    SPI3,
    I2C1,
    CAN1,
    DAC,
}

/// Peripherals clocked by PCLK2.
#[derive(Clone, Copy, PartialEq, Eq, Structural, Debug)]
pub enum PCLK2 {
    USART1,
    ADC1,
    SYSCFG,
}

/// The backend clock line that gates a given peripheral clock identity.
pub open spec fn line_of(c: PeripheralClockType) -> ClockLine {
    match c {
        PeripheralClockType::AHB1(HCLK1::DMA1) => ClockLine::Dma1,
        PeripheralClockType::AHB1(HCLK1::DMA2) => ClockLine::Dma2,
        PeripheralClockType::AHB1(HCLK1::GPIOH) => ClockLine::GpioH,
        PeripheralClockType::AHB1(HCLK1::GPIOG) => ClockLine::GpioG,
        PeripheralClockType::AHB1(HCLK1::GPIOF) => ClockLine::GpioF,
        PeripheralClockType::AHB1(HCLK1::GPIOE) => ClockLine::GpioE,
        PeripheralClockType::AHB1(HCLK1::GPIOD) => ClockLine::GpioD,
        PeripheralClockType::AHB1(HCLK1::GPIOC) => ClockLine::GpioC,
        PeripheralClockType::AHB1(HCLK1::GPIOB) => ClockLine::GpioB,
        PeripheralClockType::AHB1(HCLK1::GPIOA) => ClockLine::GpioA,
        PeripheralClockType::AHB2(HCLK2::RNG) => ClockLine::Rng,
        PeripheralClockType::AHB2(HCLK2::OTGFS) => ClockLine::OtgFs,
        PeripheralClockType::AHB3(HCLK3::FMC) => ClockLine::Fmc,
        PeripheralClockType::APB1(PCLK1::TIM2) => ClockLine::Tim2,
        PeripheralClockType::APB1(PCLK1::USART2) => ClockLine::Usart2,
        PeripheralClockType::APB1(PCLK1::USART3) => ClockLine::Usart3,
        PeripheralClockType::APB1(PCLK1::SPI3) => ClockLine::Spi3,
        PeripheralClockType::APB1(PCLK1::I2C1) => ClockLine::I2c1,
        PeripheralClockType::APB1(PCLK1::CAN1) => ClockLine::Can1,
        PeripheralClockType::APB1(PCLK1::DAC) => ClockLine::Dac,
        PeripheralClockType::APB2(PCLK2::USART1) => ClockLine::Usart1,
        PeripheralClockType::APB2(PCLK2::ADC1) => ClockLine::Adc1,
        PeripheralClockType::APB2(PCLK2::SYSCFG) => ClockLine::SysCfg,
        PeripheralClockType::RTC => ClockLine::Rtc,
        PeripheralClockType::PWR => ClockLine::Pwr,
    }
}

/// Whether the identity names a peripheral on one of the AHB buses.
pub open spec fn is_ahb(c: PeripheralClockType) -> bool {
    c is AHB1 || c is AHB2 || c is AHB3
}

/// Whether `get_frequency` is defined for this identity. The real-time clock
/// and the power-control interface have no derivable frequency: querying them
/// is a contract violation.
pub open spec fn has_defined_frequency(c: PeripheralClockType) -> bool {
    !(c is RTC) && !(c is PWR)
}

/// The frequency in Hz of the clock feeding a bus divided by `p`.
pub open spec fn apb_divided(sys: int, p: APBPrescaler) -> int {
    sys / p.divisor()
}

/// The timer-frequency rule. With the timer-prescaler-doubling flag clear, a
/// bus prescaler of 1 or 2 leaves the timer at the bus frequency, with no
/// extra multiply, and any larger prescaler doubles the divided bus clock;
/// with the flag set, prescalers 1, 2 and 4 leave the timer at the undivided
/// system clock and larger prescalers quadruple the divided bus clock.
pub open spec fn tim_frequency(tim_pre: bool, sys: int, p: APBPrescaler) -> int {
    if !tim_pre {
        if p.divisor() <= 2 {
            apb_divided(sys, p)
        } else {
            apb_divided(sys, p) * 2
        }
    } else {
        if p.divisor() <= 4 {
            sys
        } else {
            apb_divided(sys, p) * 4
        }
    }
}

/// The operating frequency in Hz of a peripheral's clock domain, derived from
/// one consistent reading of the backend state: AHB peripherals run at the
/// system clock, APB peripherals at the system clock divided by their bus's
/// prescaler, and the timer on APB1 follows the timer-frequency rule.
pub open spec fn frequency_of(c: PeripheralClockType, r: Rcc) -> int {
    match c {
        PeripheralClockType::AHB1(_) => r.sys_clock_frequency as int,
        PeripheralClockType::AHB2(_) => r.sys_clock_frequency as int,
        PeripheralClockType::AHB3(_) => r.sys_clock_frequency as int,
        PeripheralClockType::APB1(PCLK1::TIM2) => tim_frequency(
            r.tim_pre,
            r.sys_clock_frequency as int,
            r.apb1_prescaler,
        ),
        PeripheralClockType::APB1(_) => apb_divided(
            r.sys_clock_frequency as int,
            r.apb1_prescaler,
        ),
        PeripheralClockType::APB2(_) => apb_divided(
            r.sys_clock_frequency as int,
            r.apb2_prescaler,
        ),
        PeripheralClockType::RTC => 0,
        PeripheralClockType::PWR => 0,
    }
}

/// The clock interface a peripheral driver consumes: switching and querying
/// one clock domain, reading its operating frequency, and reapplying its
/// backend-level configuration. Implemented by [`PeripheralClock`], which
/// dispatches on its clock identity.
pub trait PeripheralClockInterface {
    /// The bus/clock identity this handle stands for.
    spec fn id(&self) -> PeripheralClockType;

    /// Whether this handle's clock line is currently enabled; a pure query of
    /// the backend.
    fn is_enabled(&self, rcc: &Rcc) -> (r: bool)
        ensures
            r == rcc.gates@[line_of(self.id())],
    ;

    /// Switches this handle's clock line on. Idempotent: the enable bit is
    /// set and nothing else moves. Enabling the real-time clock also selects
    /// the low-speed internal oscillator as its source; that choice is baked
    /// into this layer.
    fn enable(&self, rcc: &mut Rcc)
        ensures
            final(rcc).gates@ == old(rcc).gates@.insert(line_of(self.id()), true),
            same_clock_tree(*old(rcc), *final(rcc)),
            same_rng_config(*old(rcc), *final(rcc)),
            final(rcc).rtc_clock_source == (if self.id() is RTC {
                Some(RtcClockSource::LSI)
            } else {
                old(rcc).rtc_clock_source
            }),
    ;

    /// Switches this handle's clock line off. Idempotent: the enable bit is
    /// cleared and nothing else moves.
    fn disable(&self, rcc: &mut Rcc)
        ensures
            final(rcc).gates@ == old(rcc).gates@.insert(line_of(self.id()), false),
            same_clock_tree(*old(rcc), *final(rcc)),
            same_rng_config(*old(rcc), *final(rcc)),
            final(rcc).rtc_clock_source == old(rcc).rtc_clock_source,
    ;

    /// The operating frequency of this handle's clock domain, from one
    /// consistent reading of the backend. Undefined — a fatal contract
    /// violation, excluded by the precondition — for the real-time clock and
    /// the power-control interface.
    fn get_frequency(&self, rcc: &Rcc) -> (f: u32)
        requires
            has_defined_frequency(self.id()),
        ensures
            f as int == frequency_of(self.id(), *rcc),
    ;

    /// Reapplies backend-level configuration for the random-number-generator
    /// clock; a no-op for every other identity. Called by the entropy
    /// driver's clock-error recovery path.
    fn configure(&self, rcc: &mut Rcc)
        ensures
            self.id() == PeripheralClockType::AHB2(HCLK2::RNG) ==> rng_configured_step(
                *old(rcc),
                *final(rcc),
            ),
            self.id() != PeripheralClockType::AHB2(HCLK2::RNG) ==> *final(rcc) == *old(rcc),
    ;
}

/// One peripheral's clock handle: the immutable bus/clock identity it was
/// constructed with. Every operation dispatches on that identity against the
/// clock-control backend.
#[derive(Clone, Copy, PartialEq, Eq, Structural, Debug)]
pub struct PeripheralClock {
    pub clock: PeripheralClockType,
}

/// The timer-frequency derivation on one consistent backend reading.
fn tim_freq(tim_pre: bool, sys: u32, prescaler: APBPrescaler) -> (f: u32)
    ensures
        f as int == tim_frequency(tim_pre, sys as int, prescaler),
{
    if !tim_pre {
        match prescaler {
            APBPrescaler::DivideBy1 => sys,
            APBPrescaler::DivideBy2 => sys / 2,
            _ => {
                let d = prescaler.to_divisor();
                assert(d == 4 || d == 8 || d == 16);
                (sys / d) * 2
            },
        }
    } else {
        match prescaler {
            APBPrescaler::DivideBy1 => sys,
            APBPrescaler::DivideBy2 => sys,
            APBPrescaler::DivideBy4 => sys,
            _ => {
                let d = prescaler.to_divisor();
                assert(d == 8 || d == 16);
                (sys / d) * 4
            },
        }
    }
}

impl PeripheralClock {
    pub fn new(clock: PeripheralClockType) -> (r: Self)
        ensures
            r.clock == clock,
    {
        PeripheralClock { clock }
    }

    /// The backend clock line this handle gates.
    pub fn clock_line(&self) -> (l: ClockLine)
        ensures
            l == line_of(self.clock),
    {
        match self.clock {
            PeripheralClockType::AHB1(v) => match v {
                HCLK1::DMA1 => ClockLine::Dma1,
                HCLK1::DMA2 => ClockLine::Dma2,
                HCLK1::GPIOH => ClockLine::GpioH,
                HCLK1::GPIOG => ClockLine::GpioG,
                HCLK1::GPIOF => ClockLine::GpioF,
                HCLK1::GPIOE => ClockLine::GpioE,
                HCLK1::GPIOD => ClockLine::GpioD,
                HCLK1::GPIOC => ClockLine::GpioC,
                HCLK1::GPIOB => ClockLine::GpioB,
                HCLK1::GPIOA => ClockLine::GpioA,
            },
            PeripheralClockType::AHB2(v) => match v {
                HCLK2::RNG => ClockLine::Rng,
                HCLK2::OTGFS => ClockLine::OtgFs,
            },
            PeripheralClockType::AHB3(v) => match v {
                HCLK3::FMC => ClockLine::Fmc,
            },
            PeripheralClockType::APB1(v) => match v {
                PCLK1::TIM2 => ClockLine::Tim2,
                PCLK1::USART2 => ClockLine::Usart2,
                PCLK1::USART3 => ClockLine::Usart3,
                PCLK1::SPI3 => ClockLine::Spi3,
                PCLK1::I2C1 => ClockLine::I2c1,
                PCLK1::CAN1 => ClockLine::Can1,
                PCLK1::DAC => ClockLine::Dac,
            },
            PeripheralClockType::APB2(v) => match v {
                PCLK2::USART1 => ClockLine::Usart1,
                PCLK2::ADC1 => ClockLine::Adc1,
                PCLK2::SYSCFG => ClockLine::SysCfg,
            },
            PeripheralClockType::RTC => ClockLine::Rtc,
            PeripheralClockType::PWR => ClockLine::Pwr,
        }
    }
}

impl PeripheralClockInterface for PeripheralClock {
    open spec fn id(&self) -> PeripheralClockType {
        self.clock
    }

    fn is_enabled(&self, rcc: &Rcc) -> (r: bool) {
        rcc.is_enabled_clock(self.clock_line())
    }

    fn enable(&self, rcc: &mut Rcc) {
        match self.clock {
            PeripheralClockType::RTC => rcc.enable_rtc_clock(RtcClockSource::LSI),
            _ => rcc.enable_clock(self.clock_line()),
        }
    }

    fn disable(&self, rcc: &mut Rcc) {
        rcc.disable_clock(self.clock_line());
    }

    fn get_frequency(&self, rcc: &Rcc) -> (f: u32) {
        let sys = rcc.get_sys_clock_frequency();
        match self.clock {
            PeripheralClockType::AHB1(_) => sys,
            PeripheralClockType::AHB2(_) => sys,
            PeripheralClockType::AHB3(_) => sys,
            PeripheralClockType::APB1(v) => {
                let prescaler = rcc.get_apb1_prescaler();
                match v {
                    PCLK1::TIM2 => tim_freq(rcc.is_enabled_tim_pre(), sys, prescaler),
                    _ => sys / prescaler.to_divisor(),
                }
            },
            PeripheralClockType::APB2(_) => {
                let prescaler = rcc.get_apb2_prescaler();
                sys / prescaler.to_divisor()
            },
            PeripheralClockType::RTC => vstd::pervasive::unreached(),
            PeripheralClockType::PWR => vstd::pervasive::unreached(),
        }
    }

    fn configure(&self, rcc: &mut Rcc) {
        match self.clock {
            PeripheralClockType::AHB2(HCLK2::RNG) => rcc.configure_rng_clock(),
            _ => (),
        }
    }
}

/// The GPIO port whose clock handle sits at position `i` of the GPIO clock
/// registry; the ports come in order, port A first.
pub open spec fn gpio_port_at(i: int) -> HCLK1 {
    if i == 0 {
        HCLK1::GPIOA
    } else if i == 1 {
        HCLK1::GPIOB
    } else if i == 2 {
        HCLK1::GPIOC
    } else if i == 3 {
        HCLK1::GPIOD
    } else if i == 4 {
        HCLK1::GPIOE
    } else if i == 5 {
        HCLK1::GPIOF
    } else if i == 6 {
        HCLK1::GPIOG
    } else {
        HCLK1::GPIOH
    }
}

/// One clock handle per GPIO port, ordered and indexable by port index, so
/// the GPIO subsystem can switch any port's clock.
pub struct GpioClocks(pub [PeripheralClock; GPIO_NUM_PORTS]);

impl GpioClocks {
    pub fn new() -> (r: Self)
        ensures
            forall|i: int|
                0 <= i < 8 ==> (#[trigger] r.0@[i]).clock == PeripheralClockType::AHB1(
                    gpio_port_at(i),
                ),
    {
        GpioClocks(
            [
                PeripheralClock::new(PeripheralClockType::AHB1(HCLK1::GPIOA)),
                PeripheralClock::new(PeripheralClockType::AHB1(HCLK1::GPIOB)),
                PeripheralClock::new(PeripheralClockType::AHB1(HCLK1::GPIOC)),
                PeripheralClock::new(PeripheralClockType::AHB1(HCLK1::GPIOD)),
                PeripheralClock::new(PeripheralClockType::AHB1(HCLK1::GPIOE)),
                PeripheralClock::new(PeripheralClockType::AHB1(HCLK1::GPIOF)),
                PeripheralClock::new(PeripheralClockType::AHB1(HCLK1::GPIOG)),
                PeripheralClock::new(PeripheralClockType::AHB1(HCLK1::GPIOH)),
            ],
        )
    }

    pub fn get_refs(&self) -> (r: [&PeripheralClock; GPIO_NUM_PORTS])
        ensures
            forall|i: int| 0 <= i < 8 ==> #[trigger] r@[i] == self.0@[i],
    {
        [
            &self.0[0],
            &self.0[1],
            &self.0[2],
            &self.0[3],
            &self.0[4],
            &self.0[5],
            &self.0[6],
            &self.0[7],
        ]
    }
}

/// The single construction point for every peripheral clock handle: one named
/// handle per fixed peripheral, plus the GPIO clock registry.
pub struct PeripheralClocks {
    pub adc1: PeripheralClock,
    pub can1: PeripheralClock,
    pub dac: PeripheralClock,
    pub dma1: PeripheralClock,
    pub dma2: PeripheralClock,
    pub fsmc: PeripheralClock,
    pub i2c1: PeripheralClock,
    pub pwr: PeripheralClock,
    pub rtc: PeripheralClock,
    pub syscfg: PeripheralClock,
    pub spi3: PeripheralClock,
    pub tim2: PeripheralClock,
    pub trng: PeripheralClock,
    pub usart1: PeripheralClock,
    pub usart2: PeripheralClock,
    pub usart3: PeripheralClock,
    pub gpio_ports: GpioClocks,
}

impl PeripheralClocks {
    pub fn new() -> (r: Self)
        ensures
            r.adc1.clock == PeripheralClockType::APB2(PCLK2::ADC1),
            r.can1.clock == PeripheralClockType::APB1(PCLK1::CAN1),
            r.dac.clock == PeripheralClockType::APB1(PCLK1::DAC),
            r.dma1.clock == PeripheralClockType::AHB1(HCLK1::DMA1),
            r.dma2.clock == PeripheralClockType::AHB1(HCLK1::DMA2),
            r.fsmc.clock == PeripheralClockType::AHB3(HCLK3::FMC),
            r.i2c1.clock == PeripheralClockType::APB1(PCLK1::I2C1),
            r.pwr.clock == PeripheralClockType::PWR,
            r.rtc.clock == PeripheralClockType::RTC,
            r.syscfg.clock == PeripheralClockType::APB2(PCLK2::SYSCFG),
            r.spi3.clock == PeripheralClockType::APB1(PCLK1::SPI3),
            r.tim2.clock == PeripheralClockType::APB1(PCLK1::TIM2),
            r.trng.clock == PeripheralClockType::AHB2(HCLK2::RNG),
            r.usart1.clock == PeripheralClockType::APB2(PCLK2::USART1),
            r.usart2.clock == PeripheralClockType::APB1(PCLK1::USART2),
            r.usart3.clock == PeripheralClockType::APB1(PCLK1::USART3),
            forall|i: int|
                0 <= i < 8 ==> (#[trigger] r.gpio_ports.0@[i]).clock == PeripheralClockType::AHB1(
                    gpio_port_at(i),
                ),
    {
        PeripheralClocks {
            adc1: PeripheralClock::new(PeripheralClockType::APB2(PCLK2::ADC1)),
            can1: PeripheralClock::new(PeripheralClockType::APB1(PCLK1::CAN1)),
            dac: PeripheralClock::new(PeripheralClockType::APB1(PCLK1::DAC)),
            dma1: PeripheralClock::new(PeripheralClockType::AHB1(HCLK1::DMA1)),
            dma2: PeripheralClock::new(PeripheralClockType::AHB1(HCLK1::DMA2)),
            fsmc: PeripheralClock::new(PeripheralClockType::AHB3(HCLK3::FMC)),
            i2c1: PeripheralClock::new(PeripheralClockType::APB1(PCLK1::I2C1)),
            pwr: PeripheralClock::new(PeripheralClockType::PWR),
            rtc: PeripheralClock::new(PeripheralClockType::RTC),
            syscfg: PeripheralClock::new(PeripheralClockType::APB2(PCLK2::SYSCFG)),
            spi3: PeripheralClock::new(PeripheralClockType::APB1(PCLK1::SPI3)),
            tim2: PeripheralClock::new(PeripheralClockType::APB1(PCLK1::TIM2)),
            trng: PeripheralClock::new(PeripheralClockType::AHB2(HCLK2::RNG)),
            usart1: PeripheralClock::new(PeripheralClockType::APB2(PCLK2::USART1)),
            usart2: PeripheralClock::new(PeripheralClockType::APB1(PCLK1::USART2)),
            usart3: PeripheralClock::new(PeripheralClockType::APB1(PCLK1::USART3)),
            gpio_ports: GpioClocks::new(),
        }
    }

    pub fn get_gpio_ports(&self) -> (r: [&PeripheralClock; GPIO_NUM_PORTS])
        ensures
            forall|i: int| 0 <= i < 8 ==> #[trigger] r@[i] == self.gpio_ports.0@[i],
    {
        self.gpio_ports.get_refs()
    }
}

/// Law: enabling a clock makes that clock's line read back as enabled, and
/// disabling makes it read back as disabled, for every clock identity.
pub proof fn lemma_enable_then_is_enabled(g: crate::rcc::ClockGates, c: PeripheralClockType)
    ensures
        g@.insert(line_of(c), true)[line_of(c)],
        !g@.insert(line_of(c), false)[line_of(c)],
{
}

/// Law: enabling is idempotent — a second enable of the same clock leaves the
/// gates exactly as the first did; likewise for disable.
pub proof fn lemma_enable_idempotent(g: crate::rcc::ClockGates, c: PeripheralClockType)
    ensures
        g@.insert(line_of(c), true).insert(line_of(c), true) == g@.insert(line_of(c), true),
        g@.insert(line_of(c), false).insert(line_of(c), false) == g@.insert(line_of(c), false),
{
    assert(g@.insert(line_of(c), true).insert(line_of(c), true) =~= g@.insert(line_of(c), true));
    assert(g@.insert(line_of(c), false).insert(line_of(c), false) =~= g@.insert(line_of(c), false));
}

/// Law: enabling or disabling one clock has no side effect on any other line.
pub proof fn lemma_enable_leaves_other_lines(
    g: crate::rcc::ClockGates,
    c: PeripheralClockType,
    l: ClockLine,
)
    requires
        l != line_of(c),
    ensures
        g@.insert(line_of(c), true)[l] == g@[l],
        g@.insert(line_of(c), false)[l] == g@[l],
{
}

/// Law: the timer-frequency rule with the timer-prescaler-doubling flag
/// clear — prescalers 1 and 2 leave the timer at the bus frequency with no
/// extra multiply, a larger prescaler doubles the divided bus clock.
pub proof fn lemma_tim_frequency_flag_clear(sys: int)
    ensures
        tim_frequency(false, sys, APBPrescaler::DivideBy1) == apb_divided(
            sys,
            APBPrescaler::DivideBy1,
        ),
        tim_frequency(false, sys, APBPrescaler::DivideBy2) == apb_divided(
            sys,
            APBPrescaler::DivideBy2,
        ),
        tim_frequency(false, sys, APBPrescaler::DivideBy4) == apb_divided(
            sys,
            APBPrescaler::DivideBy4,
        ) * 2,
        tim_frequency(false, sys, APBPrescaler::DivideBy8) == apb_divided(
            sys,
            APBPrescaler::DivideBy8,
        ) * 2,
        tim_frequency(false, sys, APBPrescaler::DivideBy16) == apb_divided(
            sys,
            APBPrescaler::DivideBy16,
        ) * 2,
{
}

/// Law: the timer-frequency rule with the timer-prescaler-doubling flag set —
/// prescalers 1, 2 and 4 leave the timer at the undivided system clock, a
/// larger prescaler quadruples the divided bus clock.
pub proof fn lemma_tim_frequency_flag_set(sys: int)
    ensures
        tim_frequency(true, sys, APBPrescaler::DivideBy1) == sys,
        tim_frequency(true, sys, APBPrescaler::DivideBy2) == sys,
        tim_frequency(true, sys, APBPrescaler::DivideBy4) == sys,
        tim_frequency(true, sys, APBPrescaler::DivideBy8) == apb_divided(
            sys,
            APBPrescaler::DivideBy8,
        ) * 4,
        tim_frequency(true, sys, APBPrescaler::DivideBy16) == apb_divided(
            sys,
            APBPrescaler::DivideBy16,
        ) * 4,
{
}

/// Law: every APB peripheral other than the timer runs at the system clock
/// divided by its own bus's prescaler, whatever that prescaler is.
pub proof fn lemma_apb_frequency(r: Rcc, c: PeripheralClockType)
    requires
        c is APB1 || c is APB2,
        c != PeripheralClockType::APB1(PCLK1::TIM2),
    ensures
        c is APB1 ==> frequency_of(c, r) == r.sys_clock_frequency as int
            / r.apb1_prescaler.divisor(),
        c is APB2 ==> frequency_of(c, r) == r.sys_clock_frequency as int
            / r.apb2_prescaler.divisor(),
{
}

/// Law: an AHB peripheral runs at the system clock frequency regardless of
/// any APB prescaler setting.
pub proof fn lemma_ahb_frequency_ignores_apb_prescalers(
    r: Rcc,
    c: PeripheralClockType,
    p1: APBPrescaler,
    p2: APBPrescaler,
)
    requires
        is_ahb(c),
    ensures
        frequency_of(c, (Rcc { apb1_prescaler: p1, apb2_prescaler: p2, ..r }))
            == r.sys_clock_frequency as int,
        frequency_of(c, r) == r.sys_clock_frequency as int,
{
}

} // verus!
