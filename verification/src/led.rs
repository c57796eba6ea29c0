//! The user LED (LD2) on PA5.
use vstd::prelude::*;
use stm32f4xx_hal::gpio::gpioa::PA5;
use crate::pins::OutputPa5;
use crate::regs::{
    word_value, Register,
    BSRR_RESET_PA5, BSRR_SET_PA5, RegisterWrite, bsrr_effect, lemma_drive_keeps_pa5_config, lemma_pa5_level_push, lemma_pa5_push_pull_writes, pa5_config, pa5_drive, pa5_level, pa5_push_pull_output, pa5_push_pull_writes,
};

verus! {

/// Onboard led
pub struct Led {
    pa5: OutputPa5,
}

/// Whether the led is lit: the level PA5 drives (high lights it).
impl View for Led {
    type V = bool;

    closed spec fn view(&self) -> bool {
        self.pa5.level()
    }
}

impl Led {
    /// The register writes that the led has made, oldest first.
    pub closed spec fn writes(&self) -> Seq<RegisterWrite> {
        self.pa5.writes()
    }

    /// Whether PA5 drove high when the led took it over: whatever GPIOA's
    /// output data register held then, which nothing here tells.
    pub closed spec fn lit_when_taken(&self) -> bool {
        self.pa5.level_before()
    }

    /// Takes PA5 in any mode and makes it a push-pull output for the led.
    /// The only writes are to PA5's pull, output type and mode fields; the
    /// level it drives is left as it was, which nothing here tells.
    pub fn new<M>(pin: PA5<M>) -> (led: Self)
        ensures
            led.writes() == pa5_push_pull_writes(),
            pa5_push_pull_output(led.writes()),
            led@ == led.lit_when_taken(),
    {
        let pa5 = OutputPa5::configure(pin);
        proof {
            lemma_pa5_push_pull_writes(Seq::empty(), pa5.level_before());
            assert(Seq::<RegisterWrite>::empty() + pa5_push_pull_writes() =~= pa5_push_pull_writes());
        }
        Led { pa5 }
    }

    /// Lights the led when `enable` holds and darkens it otherwise, by one
    /// write to GPIOA's BSRR; PA5's configuration is left as it was.
    pub fn set(&mut self, enable: bool)
        ensures
            final(self).writes() == old(self).writes().push(pa5_drive(enable)),
            final(self)@ == enable,
            pa5_config(final(self).writes()) == pa5_config(old(self).writes()),
    {
        if enable {
            self.pa5.set_high();
        } else {
            self.pa5.set_low();
        }
        proof {
            lemma_pa5_level_push(old(self).writes(), pa5_drive(enable), self.pa5.level_before());
            lemma_drive_keeps_pa5_config(old(self).writes(), enable);
        }
    }

    /// Inverts the led, by one write to GPIOA's BSRR; PA5's configuration is
    /// left as it was.
    pub fn toggle(&mut self)
        ensures
            final(self).writes() == old(self).writes().push(pa5_drive(!old(self)@)),
            final(self)@ == !old(self)@,
            pa5_config(final(self).writes()) == pa5_config(old(self).writes()),
    {
        self.pa5.toggle();
        proof {
            lemma_pa5_level_push(old(self).writes(), pa5_drive(!old(self)@), self.pa5.level_before());
            lemma_drive_keeps_pa5_config(old(self).writes(), !old(self)@);
        }
    }
}

/// The level after `n` toggles of a led that was lit when `lit` holds.
pub open spec fn after_toggles(lit: bool, n: nat) -> bool
    decreases n,
{
    if n == 0 {
        lit
    } else {
        !after_toggles(lit, (n - 1) as nat)
    }
}

/// Toggling the led twice gives back the level it had, whatever it was.
pub proof fn lemma_toggle_twice(lit: bool)
    ensures
        after_toggles(lit, 2) == lit,
{
    reveal_with_fuel(after_toggles, 3);
}

/// After `n` toggles the led is lit as it was when `n` is even, and the
/// other way when `n` is odd.
pub proof fn lemma_toggles_parity(lit: bool, n: nat)
    ensures
        after_toggles(lit, n) == (lit != (n % 2 == 1)),
    decreases n,
{
    if n > 0 {
        lemma_toggles_parity(lit, (n - 1) as nat);
    }
}

/// Setting the led to `enable` and then toggling it leaves it as setting it
/// to `!enable` does: the same level and the same configuration.
pub proof fn lemma_set_then_toggle(writes: Seq<RegisterWrite>, before: bool, enable: bool)
    ensures
        pa5_level(writes.push(pa5_drive(enable)).push(pa5_drive(!enable)), before)
            == pa5_level(writes.push(pa5_drive(!enable)), before),
        pa5_config(writes.push(pa5_drive(enable)).push(pa5_drive(!enable)))
            == pa5_config(writes.push(pa5_drive(!enable))),
{
    lemma_pa5_level_push(writes.push(pa5_drive(enable)), pa5_drive(!enable), before);
    lemma_pa5_level_push(writes, pa5_drive(!enable), before);
    lemma_drive_keeps_pa5_config(writes.push(pa5_drive(enable)), !enable);
    lemma_drive_keeps_pa5_config(writes, enable);
    lemma_drive_keeps_pa5_config(writes, !enable);
}

/// Setting the led twice to the same level leaves the registers as setting
/// it once does: the output data register, and every configuration field.
pub proof fn lemma_set_twice(writes: Seq<RegisterWrite>, before: bool, enable: bool, odr: u32)
    ensures
        pa5_level(writes.push(pa5_drive(enable)).push(pa5_drive(enable)), before)
            == pa5_level(writes.push(pa5_drive(enable)), before),
        pa5_config(writes.push(pa5_drive(enable)).push(pa5_drive(enable)))
            == pa5_config(writes.push(pa5_drive(enable))),
        bsrr_effect(bsrr_effect(odr, BSRR_SET_PA5), BSRR_SET_PA5) == bsrr_effect(odr, BSRR_SET_PA5),
        bsrr_effect(bsrr_effect(odr, BSRR_RESET_PA5), BSRR_RESET_PA5) == bsrr_effect(odr, BSRR_RESET_PA5),
{
    lemma_pa5_level_push(writes.push(pa5_drive(enable)), pa5_drive(enable), before);
    lemma_pa5_level_push(writes, pa5_drive(enable), before);
    lemma_drive_keeps_pa5_config(writes.push(pa5_drive(enable)), enable);
    lemma_drive_keeps_pa5_config(writes, enable);
    assert(bsrr_effect(bsrr_effect(odr, 0x20), 0x20) == bsrr_effect(odr, 0x20)) by (bit_vector);
    assert(bsrr_effect(bsrr_effect(odr, 0x20_0000), 0x20_0000) == bsrr_effect(odr, 0x20_0000)) by (bit_vector);
}

/// The BSRR words that drive the led change bit 5 of GPIOA's output data
/// register to the level they drive, and no other bit.
pub proof fn lemma_drive_touches_only_pa5(odr: u32, i: u32)
    requires
        i < 32,
    ensures
        (bsrr_effect(odr, BSRR_SET_PA5) >> i) & 1 == if i == 5 { 1 } else { (odr >> i) & 1 },
        (bsrr_effect(odr, BSRR_RESET_PA5) >> i) & 1 == if i == 5 { 0 } else { (odr >> i) & 1 },
{
    assert(i < 32 ==> (bsrr_effect(odr, 0x20) >> i) & 1 == if i == 5 { 1 } else { (odr >> i) & 1 })
        by (bit_vector);
    assert(i < 32 ==> (bsrr_effect(odr, 0x20_0000) >> i) & 1 == if i == 5 { 0 } else { (odr >> i) & 1 })
        by (bit_vector);
}

/// Whatever GPIOA's output data register held, the word that `set(enable)`
/// writes leaves bit 5 equal to `enable` and every other bit as it was, and
/// the led's level afterwards is `enable`.
pub proof fn lemma_set_drives(writes: Seq<RegisterWrite>, before: bool, odr: u32, enable: bool, i: u32)
    requires
        i < 32,
    ensures
        pa5_level(writes.push(pa5_drive(enable)), before) == enable,
        ((bsrr_effect(odr, word_value(pa5_drive(enable))) >> 5u32) & 1u32 == 1u32) == enable,
        i != 5 ==> (bsrr_effect(odr, word_value(pa5_drive(enable))) >> i) & 1u32 == (odr >> i) & 1u32,
{
    lemma_pa5_level_push(writes, pa5_drive(enable), before);
    lemma_drive_touches_only_pa5(odr, i);
    lemma_drive_touches_only_pa5(odr, 5);
}

/// Where bit 5 of GPIOA's output data register is the led's level, the
/// word that `toggle` writes flips that bit and keeps every other, and the
/// led's level afterwards is the opposite of the one before.
pub proof fn lemma_toggle_flips(writes: Seq<RegisterWrite>, before: bool, odr: u32, i: u32)
    requires
        ((odr >> 5u32) & 1u32 == 1u32) == pa5_level(writes, before),
        i < 32,
    ensures
        pa5_level(writes.push(pa5_drive(!pa5_level(writes, before))), before) != pa5_level(writes, before),
        (bsrr_effect(odr, word_value(pa5_drive(!pa5_level(writes, before)))) >> 5u32) & 1u32
            != (odr >> 5u32) & 1u32,
        i != 5 ==> (bsrr_effect(odr, word_value(pa5_drive(!pa5_level(writes, before)))) >> i) & 1u32
            == (odr >> i) & 1u32,
{
    lemma_pa5_level_push(writes, pa5_drive(!pa5_level(writes, before)), before);
    lemma_drive_touches_only_pa5(odr, i);
    lemma_drive_touches_only_pa5(odr, 5);
    assert((odr >> 5u32) & 1u32 == 0u32 || (odr >> 5u32) & 1u32 == 1u32) by (bit_vector);
}

/// Taking PA5 over for the led writes no whole word, so neither GPIOA's
/// BSRR nor its output data register: the level PA5 drives is the one it
/// drove before, whatever came earlier, and PA5 ends a push-pull output.
pub proof fn lemma_new_keeps_level(writes: Seq<RegisterWrite>, before: bool)
    ensures
        forall|k: int| 0 <= k < pa5_push_pull_writes().len() ==> #[trigger] pa5_push_pull_writes()[k] is Field,
        forall|k: int| 0 <= k < pa5_push_pull_writes().len() ==> #[trigger] pa5_push_pull_writes()[k]
            != (RegisterWrite::Word { reg: Register::GpioaBsrr, value: word_value(pa5_push_pull_writes()[k]) }),
        pa5_level(writes + pa5_push_pull_writes(), before) == pa5_level(writes, before),
        pa5_push_pull_output(writes + pa5_push_pull_writes()),
{
    lemma_pa5_push_pull_writes(writes, before);
}

} // verus!
