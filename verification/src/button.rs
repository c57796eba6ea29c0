//! The user button (B1) on PC13.
use vstd::prelude::*;
use stm32f4xx_hal::gpio::gpioc::PC13;
use stm32f4xx_hal::pac::EXTI;
use stm32f4xx_hal::syscfg::SysCfg;
use crate::pins::InputPc13;
use crate::regs::{
    word_value,
    Edge, PR_LINE13, Register, RegisterWrite, last_field, lemma_line13_interrupt_arms, lemma_line13_interrupt_fields, lemma_word_keeps_fields, line13_armed, line13_clear, line13_interrupt_writes, pc13_config, pc13_pull_up_input, pc13_pull_up_writes, pr_effect, same_fields,
};

verus! {

pub struct Button {
    pin: InputPc13,
}

impl Button {
    /// The register writes that the button has made, oldest first: to
    /// GPIOC for its pin, and to SYSCFG and EXTI for its interrupt line.
    pub closed spec fn writes(&self) -> Seq<RegisterWrite> {
        self.pin.writes()
    }

    /// Takes PC13 in any mode and makes it a pulled-up input for the
    /// button. The only writes are to PC13's pull and mode fields; SYSCFG
    /// and EXTI are not written.
    pub fn new<M>(pc13: PC13<M>) -> (button: Self)
        ensures
            button.writes() == pc13_pull_up_writes(),
            pc13_pull_up_input(button.writes()),
    {
        let pin = InputPc13::configure(pc13);
        proof {
            reveal_with_fuel(last_field, 3);
            let w = pc13_pull_up_writes();
            assert(w.drop_last() =~= seq![w[0]]);
            assert(w.drop_last().drop_last() =~= Seq::<RegisterWrite>::empty());
        }
        Button { pin }
    }

    /// Makes PC13 raise external interrupt 13 on `edge`: routes line 13 to
    /// port C in SYSCFG's EXTICR4, unmasks it in EXTI's IMR, and selects its
    /// edges in RTSR and FTSR. Those are the only writes; PC13's
    /// configuration is left as it was.
    pub fn enable_interrupt(&mut self, edge: Edge, syscfg: &mut SysCfg, exti: &mut EXTI)
        ensures
            final(self).writes() == old(self).writes() + line13_interrupt_writes(edge),
            line13_armed(final(self).writes(), edge),
            pc13_config(final(self).writes()) == pc13_config(old(self).writes()),
    {
        // Enable external interrupt on PC13
        self.pin.make_interrupt_source(syscfg);
        self.pin.enable_interrupt(exti);
        self.pin.trigger_on_edge(exti, edge);
        proof {
            let w = old(self).writes();
            let i = line13_interrupt_writes(edge);
            assert(self.writes() =~= w + i);
            lemma_line13_interrupt_arms(w, edge);
            lemma_line13_interrupt_fields(w, edge, Register::GpiocModer, 13);
            lemma_line13_interrupt_fields(w, edge, Register::GpiocPupdr, 13);
        }
    }

    /// Acknowledges a pending interrupt of PC13's line: writes `1 << 13` to
    /// EXTI's PR, which clears line 13's pending bit and keeps the other
    /// lines' pending bits. No field of any register changes.
    pub fn clear_interrupt_pending_bit(&mut self)
        ensures
            final(self).writes() == old(self).writes().push(line13_clear()),
            same_fields(final(self).writes(), old(self).writes()),
    {
        self.pin.clear_interrupt_pending_bit();
        proof {
            lemma_word_keeps_fields(old(self).writes(), Register::ExtiPr, PR_LINE13);
        }
    }
}

/// Making PC13 raise line 13 on `first` and then on `second` leaves every
/// register field as making it raise the line on `second` alone does: the
/// later edge replaces the earlier one.
pub proof fn lemma_enable_interrupt_replaces(writes: Seq<RegisterWrite>, first: Edge, second: Edge)
    ensures
        same_fields(
            writes + line13_interrupt_writes(first) + line13_interrupt_writes(second),
            writes + line13_interrupt_writes(second),
        ),
        line13_armed(writes + line13_interrupt_writes(first) + line13_interrupt_writes(second), second),
{
    let once = writes + line13_interrupt_writes(first);
    assert forall|reg: Register, index: u8|
        #[trigger] last_field(once + line13_interrupt_writes(second), reg, index)
            == last_field(writes + line13_interrupt_writes(second), reg, index) by {
        lemma_line13_interrupt_fields(once, second, reg, index);
        lemma_line13_interrupt_fields(writes, first, reg, index);
        lemma_line13_interrupt_fields(writes, second, reg, index);
    }
    lemma_line13_interrupt_arms(once, second);
}

/// Clearing line 13's pending bit clears that bit of EXTI's PR and keeps
/// every other line's pending bit.
pub proof fn lemma_clear_touches_only_line13(pr: u32, i: u32)
    requires
        i < 32,
    ensures
        (pr_effect(pr, PR_LINE13) >> i) & 1 == if i == 13 { 0 } else { (pr >> i) & 1 },
{
    assert(i < 32 ==> (pr_effect(pr, 0x2000) >> i) & 1 == if i == 13 { 0 } else { (pr >> i) & 1 })
        by (bit_vector);
}

/// Making PC13 raise line 13 on `edge` selects the rising trigger of line
/// 13 exactly for a rising or a two-way edge, and the falling trigger
/// exactly for a falling or a two-way edge; it leaves line 13 unmasked and
/// routed to port C.
pub proof fn lemma_enable_trigger_bits(writes: Seq<RegisterWrite>, edge: Edge)
    ensures
        last_field(writes + line13_interrupt_writes(edge), Register::ExtiRtsr, 13) == Some(1u32)
            <==> (edge is Rising || edge is RisingFalling),
        last_field(writes + line13_interrupt_writes(edge), Register::ExtiRtsr, 13) == Some(0u32)
            <==> edge is Falling,
        last_field(writes + line13_interrupt_writes(edge), Register::ExtiFtsr, 13) == Some(1u32)
            <==> (edge is Falling || edge is RisingFalling),
        last_field(writes + line13_interrupt_writes(edge), Register::ExtiFtsr, 13) == Some(0u32)
            <==> edge is Rising,
        last_field(writes + line13_interrupt_writes(edge), Register::ExtiImr, 13) == Some(1u32),
        last_field(writes + line13_interrupt_writes(edge), Register::SyscfgExticr4, 13) == Some(2u32),
{
    lemma_line13_interrupt_arms(writes, edge);
}

/// Whatever EXTI's PR held, the word that acknowledging the button writes
/// to it clears line 13's pending bit and keeps every other line's.
pub proof fn lemma_clear_acknowledges(writes: Seq<RegisterWrite>, pr: u32, i: u32)
    requires
        i < 32,
    ensures
        writes.push(line13_clear()).last() == (RegisterWrite::Word { reg: Register::ExtiPr, value: word_value(line13_clear()) }),
        (pr_effect(pr, word_value(line13_clear())) >> 13u32) & 1u32 == 0,
        i != 13 ==> (pr_effect(pr, word_value(line13_clear())) >> i) & 1u32 == (pr >> i) & 1u32,
{
    lemma_clear_touches_only_line13(pr, i);
    lemma_clear_touches_only_line13(pr, 13);
}

} // verus!
