//! The board's two pins as `stm32f4xx-hal` drives them, each with the
//! record of the register writes it has made. The record is private to this
//! module and only the trusted methods here change it, each by the writes
//! that its `stm32f4xx-hal` call makes.
use vstd::prelude::*;
use stm32f4xx_hal::gpio::gpioa::PA5;
use stm32f4xx_hal::gpio::gpioc::PC13;
use stm32f4xx_hal::gpio::{ExtiPin, Input, Output, PullUp, PushPull};
use stm32f4xx_hal::pac::EXTI;
use stm32f4xx_hal::syscfg::SysCfg;
use embedded_hal::digital::v2::{OutputPin, ToggleableOutputPin};
use crate::regs::{
    EXTI_PORT_C, Edge, Register, RegisterWrite, line13_clear, pa5_drive, pa5_level, pa5_push_pull_writes, pc13_pull_up_writes, trigger_writes,
};

verus! {

/// PA5 as a push-pull output.
pub struct OutputPa5 {
    pin: PA5<Output<PushPull>>,
    /// The level PA5 drove when it was taken over.
    before: Ghost<bool>,
    /// The register writes made through this pin, oldest first.
    writes: Ghost<Seq<RegisterWrite>>,
}

impl OutputPa5 {
    /// The register writes made through this pin, oldest first.
    pub closed spec fn writes(&self) -> Seq<RegisterWrite> {
        self.writes@
    }

    /// The level PA5 drove when this pin took it over. It is whatever the
    /// output data register held then, which nothing here tells.
    pub closed spec fn level_before(&self) -> bool {
        self.before@
    }

    /// The level PA5 drives now.
    pub open spec fn level(&self) -> bool {
        pa5_level(self.writes(), self.level_before())
    }

    /// Calls `into_push_pull_output` of `stm32f4xx_hal`'s `PA5`, which
    /// writes PA5's fields of GPIOA's PUPDR (no pull), OTYPER (push-pull)
    /// and MODER (output), in that order, and no other register. Claimed:
    /// those three writes are the pin's record; the level is whatever the
    /// output data register held, which the call does not write.
    #[verifier::external_body]
    pub(crate) fn configure<M>(pin: PA5<M>) -> (out: Self)
        ensures
            out.writes() == pa5_push_pull_writes(),
    {
        OutputPa5 { pin: pin.into_push_pull_output(), before: Ghost(arbitrary()), writes: Ghost(pa5_push_pull_writes()) }
    }

    /// Calls `OutputPin::set_high` on PA5, which writes `1 << 5` to GPIOA's
    /// BSRR and always returns `Ok`. Claimed: that write is added to the
    /// record.
    #[verifier::external_body]
    pub(crate) fn set_high(&mut self)
        ensures
            final(self).writes() == old(self).writes().push(pa5_drive(true)),
            final(self).level_before() == old(self).level_before(),
    {
        self.pin.set_high().ok();
    }

    /// Calls `OutputPin::set_low` on PA5, which writes `1 << 21` to GPIOA's
    /// BSRR and always returns `Ok`. Claimed: that write is added to the
    /// record.
    #[verifier::external_body]
    pub(crate) fn set_low(&mut self)
        ensures
            final(self).writes() == old(self).writes().push(pa5_drive(false)),
            final(self).level_before() == old(self).level_before(),
    {
        self.pin.set_low().ok();
    }

    /// Calls `ToggleableOutputPin::toggle` on PA5: `embedded-hal`'s
    /// software toggle, which `stm32f4xx_hal` uses for this pin, reads bit 5
    /// of GPIOA's output data register and calls `set_high` when it is 0,
    /// `set_low` otherwise; it always returns `Ok`. Claimed: the write that
    /// drives PA5 away from the level it drove is added to the record. That
    /// the bit read is the pin's level rests on this pin owning PA5, so that
    /// every write of the bit goes through it.
    #[verifier::external_body]
    pub(crate) fn toggle(&mut self)
        ensures
            final(self).writes() == old(self).writes().push(pa5_drive(!old(self).level())),
            final(self).level_before() == old(self).level_before(),
    {
        self.pin.toggle().ok();
    }
}

/// PC13 as a pulled-up input.
pub struct InputPc13 {
    pin: PC13<Input<PullUp>>,
    /// The register writes made through this pin, oldest first.
    writes: Ghost<Seq<RegisterWrite>>,
}

impl InputPc13 {
    /// The register writes made through this pin, oldest first.
    pub closed spec fn writes(&self) -> Seq<RegisterWrite> {
        self.writes@
    }

    /// Calls `into_pull_up_input` of `stm32f4xx_hal`'s `PC13`, which writes
    /// PC13's fields of GPIOC's PUPDR (pull-up) and MODER (input), in that
    /// order, and no other register. Claimed: those two writes are the
    /// pin's record.
    #[verifier::external_body]
    pub(crate) fn configure<M>(pin: PC13<M>) -> (out: Self)
        ensures
            out.writes() == pc13_pull_up_writes(),
    {
        InputPc13 { pin: pin.into_pull_up_input(), writes: Ghost(pc13_pull_up_writes()) }
    }

    /// Calls `ExtiPin::make_interrupt_source` on PC13, which writes the
    /// line 13 field of SYSCFG's EXTICR4 with port C's number, 2. Claimed:
    /// that write is added to the record.
    #[verifier::external_body]
    pub(crate) fn make_interrupt_source(&mut self, syscfg: &mut SysCfg)
        ensures
            final(self).writes() == old(self).writes().push(
                RegisterWrite::Field { reg: Register::SyscfgExticr4, index: 13, value: EXTI_PORT_C },
            ),
    {
        self.pin.make_interrupt_source(syscfg);
    }

    /// Calls `ExtiPin::enable_interrupt` on PC13, which sets bit 13 of
    /// EXTI's IMR. Claimed: that write is added to the record.
    #[verifier::external_body]
    pub(crate) fn enable_interrupt(&mut self, exti: &mut EXTI)
        ensures
            final(self).writes() == old(self).writes().push(
                RegisterWrite::Field { reg: Register::ExtiImr, index: 13, value: 1 },
            ),
    {
        self.pin.enable_interrupt(exti);
    }

    /// Calls `ExtiPin::trigger_on_edge` on PC13 with the `stm32f4xx_hal`
    /// edge of the same name as `edge`. For a rising edge it sets bit 13 of
    /// EXTI's RTSR and clears it in FTSR; for a falling edge it sets it in
    /// FTSR and clears it in RTSR; for both it sets it in RTSR and then in
    /// FTSR. Claimed: those two writes are added to the record.
    #[verifier::external_body]
    pub(crate) fn trigger_on_edge(&mut self, exti: &mut EXTI, edge: Edge)
        ensures
            final(self).writes() == old(self).writes() + trigger_writes(edge),
    {
        let edge = match edge {
            Edge::Rising => stm32f4xx_hal::gpio::Edge::RISING,
            Edge::Falling => stm32f4xx_hal::gpio::Edge::FALLING,
            Edge::RisingFalling => stm32f4xx_hal::gpio::Edge::RISING_FALLING,
        };
        self.pin.trigger_on_edge(exti, edge);
    }

    /// Calls `ExtiPin::clear_interrupt_pending_bit` on PC13, which writes
    /// `1 << 13` to EXTI's PR. Claimed: that write is added to the record.
    #[verifier::external_body]
    pub(crate) fn clear_interrupt_pending_bit(&mut self)
        ensures
            final(self).writes() == old(self).writes().push(line13_clear()),
    {
        self.pin.clear_interrupt_pending_bit();
    }
}

} // verus!
