//! A model of the register writes that the board's pins make, and of what
//! those writes do to the registers they reach.
use vstd::prelude::*;

verus! {

/// The registers that the user LED and the user button write.
pub enum Register {
    /// GPIOA's mode register (2 bits per pin).
    GpioaModer,
    /// GPIOA's output type register (1 bit per pin: 0 push-pull).
    GpioaOtyper,
    /// GPIOA's pull-up/pull-down register (2 bits per pin).
    GpioaPupdr,
    /// GPIOA's bit set/reset register (write only).
    GpioaBsrr,
    /// GPIOC's mode register (2 bits per pin).
    GpiocModer,
    /// GPIOC's pull-up/pull-down register (2 bits per pin).
    GpiocPupdr,
    /// SYSCFG's EXTICR4, which picks the port of EXTI lines 12 to 15.
    SyscfgExticr4,
    /// EXTI's interrupt mask register (1 bit per line: 1 unmasked).
    ExtiImr,
    /// EXTI's rising trigger selection register (1 bit per line).
    ExtiRtsr,
    /// EXTI's falling trigger selection register (1 bit per line).
    ExtiFtsr,
    /// EXTI's pending register (write 1 to clear).
    ExtiPr,
}

/// One write to a register.
pub enum RegisterWrite {
    /// A read-modify-write that gives the field of pin or line `index` in
    /// `reg` the value `value` and leaves every other field as it was.
    Field { reg: Register, index: u8, value: u32 },
    /// A write of the whole word `value` to `reg`.
    Word { reg: Register, value: u32 },
}

/// The edges on which an external interrupt line can trigger.
pub enum Edge {
    Rising,
    Falling,
    RisingFalling,
}

/// GPIOA's BSRR word that drives PA5 high.
pub const BSRR_SET_PA5: u32 = 0x0000_0020;

/// GPIOA's BSRR word that drives PA5 low.
pub const BSRR_RESET_PA5: u32 = 0x0020_0000;

/// EXTI's PR word that clears the pending bit of line 13.
pub const PR_LINE13: u32 = 0x0000_2000;

/// The EXTICR value that routes an EXTI line to port C.
pub const EXTI_PORT_C: u32 = 2;

/// Mode field value of a general purpose output.
pub const MODE_OUTPUT: u32 = 0b01;

/// Mode field value of an input.
pub const MODE_INPUT: u32 = 0b00;

/// Pull field value with neither pull-up nor pull-down.
pub const PULL_NONE: u32 = 0b00;

/// Pull field value with the pull-up on.
pub const PULL_UP: u32 = 0b01;

/// Output type bit value of a push-pull output.
pub const OTYPE_PUSH_PULL: u32 = 0;

/// The value that the field of `index` in `reg` was last given by
/// `writes`, or `None` where no write of `writes` reached that field.
pub open spec fn last_field(writes: Seq<RegisterWrite>, reg: Register, index: u8) -> Option<u32>
    decreases writes.len(),
{
    if writes.len() == 0 {
        None
    } else {
        match writes.last() {
            RegisterWrite::Field { reg: r, index: i, value } => {
                if r == reg && i == index {
                    Some(value)
                } else {
                    last_field(writes.drop_last(), reg, index)
                }
            },
            RegisterWrite::Word { .. } => last_field(writes.drop_last(), reg, index),
        }
    }
}

/// The level that PA5 drives after `writes`, where it drove `before` ahead
/// of them: the last BSRR word that sets or resets PA5 decides it.
pub open spec fn pa5_level(writes: Seq<RegisterWrite>, before: bool) -> bool
    decreases writes.len(),
{
    if writes.len() == 0 {
        before
    } else if writes.last() == (RegisterWrite::Word { reg: Register::GpioaBsrr, value: BSRR_SET_PA5 }) {
        true
    } else if writes.last() == (RegisterWrite::Word { reg: Register::GpioaBsrr, value: BSRR_RESET_PA5 }) {
        false
    } else {
        pa5_level(writes.drop_last(), before)
    }
}

/// The BSRR word that drives PA5 to `high`.
pub open spec fn pa5_drive(high: bool) -> RegisterWrite {
    RegisterWrite::Word { reg: Register::GpioaBsrr, value: if high { BSRR_SET_PA5 } else { BSRR_RESET_PA5 } }
}

/// PA5's mode, output type and pull fields as `writes` last left them.
pub open spec fn pa5_config(writes: Seq<RegisterWrite>) -> (Option<u32>, Option<u32>, Option<u32>) {
    (
        last_field(writes, Register::GpioaModer, 5),
        last_field(writes, Register::GpioaOtyper, 5),
        last_field(writes, Register::GpioaPupdr, 5),
    )
}

/// PA5 is a push-pull output without pull resistors.
pub open spec fn pa5_push_pull_output(writes: Seq<RegisterWrite>) -> bool {
    pa5_config(writes) == (Some(MODE_OUTPUT), Some(OTYPE_PUSH_PULL), Some(PULL_NONE))
}

/// PC13's mode and pull fields as `writes` last left them.
pub open spec fn pc13_config(writes: Seq<RegisterWrite>) -> (Option<u32>, Option<u32>) {
    (last_field(writes, Register::GpiocModer, 13), last_field(writes, Register::GpiocPupdr, 13))
}

/// PC13 is an input with its pull-up on.
pub open spec fn pc13_pull_up_input(writes: Seq<RegisterWrite>) -> bool {
    pc13_config(writes) == (Some(MODE_INPUT), Some(PULL_UP))
}

/// The writes that make PA5 a push-pull output: pull, output type, mode.
pub open spec fn pa5_push_pull_writes() -> Seq<RegisterWrite> {
    seq![
        RegisterWrite::Field { reg: Register::GpioaPupdr, index: 5, value: PULL_NONE },
        RegisterWrite::Field { reg: Register::GpioaOtyper, index: 5, value: OTYPE_PUSH_PULL },
        RegisterWrite::Field { reg: Register::GpioaModer, index: 5, value: MODE_OUTPUT },
    ]
}

/// The writes that make PC13 a pulled-up input: pull, mode.
pub open spec fn pc13_pull_up_writes() -> Seq<RegisterWrite> {
    seq![
        RegisterWrite::Field { reg: Register::GpiocPupdr, index: 13, value: PULL_UP },
        RegisterWrite::Field { reg: Register::GpiocModer, index: 13, value: MODE_INPUT },
    ]
}

/// The rising trigger bit that `edge` asks for.
pub open spec fn rising_bit(edge: Edge) -> u32 {
    match edge {
        Edge::Falling => 0,
        _ => 1,
    }
}

/// The falling trigger bit that `edge` asks for.
pub open spec fn falling_bit(edge: Edge) -> u32 {
    match edge {
        Edge::Rising => 0,
        _ => 1,
    }
}

/// The trigger writes for line 13 and `edge`, in the order the HAL makes
/// them: the bit that is set first, then the other.
pub open spec fn trigger_writes(edge: Edge) -> Seq<RegisterWrite> {
    match edge {
        Edge::Falling => seq![
            RegisterWrite::Field { reg: Register::ExtiFtsr, index: 13, value: 1 },
            RegisterWrite::Field { reg: Register::ExtiRtsr, index: 13, value: 0 },
        ],
        _ => seq![
            RegisterWrite::Field { reg: Register::ExtiRtsr, index: 13, value: 1 },
            RegisterWrite::Field { reg: Register::ExtiFtsr, index: 13, value: falling_bit(edge) },
        ],
    }
}

/// The writes that make PC13 raise EXTI line 13 on `edge`: route the line
/// to port C, unmask it, select its edges.
pub open spec fn line13_interrupt_writes(edge: Edge) -> Seq<RegisterWrite> {
    seq![
        RegisterWrite::Field { reg: Register::SyscfgExticr4, index: 13, value: EXTI_PORT_C },
        RegisterWrite::Field { reg: Register::ExtiImr, index: 13, value: 1 },
    ] + trigger_writes(edge)
}

/// EXTI line 13 is routed to port C, unmasked, and triggers on `edge`
/// alone, as `writes` last left it.
pub open spec fn line13_armed(writes: Seq<RegisterWrite>, edge: Edge) -> bool {
    &&& last_field(writes, Register::SyscfgExticr4, 13) == Some(EXTI_PORT_C)
    &&& last_field(writes, Register::ExtiImr, 13) == Some(1u32)
    &&& last_field(writes, Register::ExtiRtsr, 13) == Some(rising_bit(edge))
    &&& last_field(writes, Register::ExtiFtsr, 13) == Some(falling_bit(edge))
}

/// The write that clears the pending bit of line 13.
pub open spec fn line13_clear() -> RegisterWrite {
    RegisterWrite::Word { reg: Register::ExtiPr, value: PR_LINE13 }
}

/// What a BSRR word does to the output data register: the low half sets
/// bits, the high half resets them, and setting wins.
pub open spec fn bsrr_effect(odr: u32, bsrr: u32) -> u32 {
    (odr & !(bsrr >> 16u32)) | (bsrr & 0xffffu32)
}

/// What a word written to EXTI's PR does to it: each 1 clears its bit.
pub open spec fn pr_effect(pr: u32, word: u32) -> u32 {
    pr & !word
}

/// The field value that a write gives, where it is a write of that field.
pub open spec fn field_value(w: RegisterWrite, reg: Register, index: u8) -> Option<u32> {
    match w {
        RegisterWrite::Field { reg: r, index: i, value } => if r == reg && i == index {
            Some(value)
        } else {
            None
        },
        RegisterWrite::Word { .. } => None,
    }
}

/// A write to some other field, or a word write, leaves the field's value.
pub proof fn lemma_last_field_push(writes: Seq<RegisterWrite>, w: RegisterWrite, reg: Register, index: u8)
    ensures
        last_field(writes.push(w), reg, index) == match field_value(w, reg, index) {
            Some(v) => Some(v),
            None => last_field(writes, reg, index),
        },
{
    assert(writes.push(w).drop_last() =~= writes);
}

/// A word that neither sets nor resets PA5 leaves its level.
pub proof fn lemma_pa5_level_push(writes: Seq<RegisterWrite>, w: RegisterWrite, before: bool)
    ensures
        w == pa5_drive(true) ==> pa5_level(writes.push(w), before),
        w == pa5_drive(false) ==> !pa5_level(writes.push(w), before),
        w != pa5_drive(true) && w != pa5_drive(false) ==> pa5_level(writes.push(w), before)
            == pa5_level(writes, before),
{
    assert(writes.push(w).drop_last() =~= writes);
}

/// Driving PA5 changes none of its configuration fields.
pub proof fn lemma_drive_keeps_pa5_config(writes: Seq<RegisterWrite>, high: bool)
    ensures
        pa5_config(writes.push(pa5_drive(high))) == pa5_config(writes),
{
    lemma_last_field_push(writes, pa5_drive(high), Register::GpioaModer, 5);
    lemma_last_field_push(writes, pa5_drive(high), Register::GpioaOtyper, 5);
    lemma_last_field_push(writes, pa5_drive(high), Register::GpioaPupdr, 5);
}

/// The writes that configure PA5 leave it a push-pull output.
pub proof fn lemma_pa5_push_pull_writes(writes: Seq<RegisterWrite>, before: bool)
    ensures
        pa5_push_pull_output(writes + pa5_push_pull_writes()),
        pa5_level(writes + pa5_push_pull_writes(), before) == pa5_level(writes, before),
{
    let s = pa5_push_pull_writes();
    let s1 = writes.push(s[0]);
    let s2 = s1.push(s[1]);
    let s3 = s2.push(s[2]);
    assert(writes + s =~= s3);
    lemma_last_field_push(writes, s[0], Register::GpioaModer, 5);
    lemma_last_field_push(writes, s[0], Register::GpioaOtyper, 5);
    lemma_last_field_push(writes, s[0], Register::GpioaPupdr, 5);
    lemma_last_field_push(s1, s[1], Register::GpioaModer, 5);
    lemma_last_field_push(s1, s[1], Register::GpioaOtyper, 5);
    lemma_last_field_push(s1, s[1], Register::GpioaPupdr, 5);
    lemma_last_field_push(s2, s[2], Register::GpioaModer, 5);
    lemma_last_field_push(s2, s[2], Register::GpioaOtyper, 5);
    lemma_last_field_push(s2, s[2], Register::GpioaPupdr, 5);
    lemma_pa5_level_push(writes, s[0], before);
    lemma_pa5_level_push(s1, s[1], before);
    lemma_pa5_level_push(s2, s[2], before);
}

/// Both write records leave every field of every register with the same
/// value.
pub open spec fn same_fields(a: Seq<RegisterWrite>, b: Seq<RegisterWrite>) -> bool {
    forall|reg: Register, index: u8| #[trigger] last_field(a, reg, index) == last_field(b, reg, index)
}

/// A word write changes no field.
pub proof fn lemma_word_keeps_fields(writes: Seq<RegisterWrite>, reg: Register, value: u32)
    ensures
        same_fields(writes.push(RegisterWrite::Word { reg, value }), writes),
{
    assert forall|r: Register, i: u8|
        #[trigger] last_field(writes.push(RegisterWrite::Word { reg, value }), r, i) == last_field(writes, r, i) by {
        lemma_last_field_push(writes, RegisterWrite::Word { reg, value }, r, i);
    }
}

/// The value that making PC13 raise line 13 on `edge` gives the field of
/// `index` in `reg`, or `None` for a field it does not write.
pub open spec fn line13_interrupt_field(edge: Edge, reg: Register, index: u8) -> Option<u32> {
    if index != 13 {
        None
    } else {
        match reg {
            Register::SyscfgExticr4 => Some(EXTI_PORT_C),
            Register::ExtiImr => Some(1u32),
            Register::ExtiRtsr => Some(rising_bit(edge)),
            Register::ExtiFtsr => Some(falling_bit(edge)),
            _ => None,
        }
    }
}

/// What the interrupt writes for `edge` leave of each field.
pub proof fn lemma_line13_interrupt_fields(writes: Seq<RegisterWrite>, edge: Edge, reg: Register, index: u8)
    ensures
        last_field(writes + line13_interrupt_writes(edge), reg, index) == match line13_interrupt_field(edge, reg, index) {
            Some(v) => Some(v),
            None => last_field(writes, reg, index),
        },
{
    let i = line13_interrupt_writes(edge);
    let s1 = writes.push(i[0]);
    let s2 = s1.push(i[1]);
    let s3 = s2.push(i[2]);
    let s4 = s3.push(i[3]);
    assert(writes + i =~= s4);
    lemma_last_field_push(writes, i[0], reg, index);
    lemma_last_field_push(s1, i[1], reg, index);
    lemma_last_field_push(s2, i[2], reg, index);
    lemma_last_field_push(s3, i[3], reg, index);
}

/// The interrupt writes for `edge` leave line 13 armed on `edge`.
pub proof fn lemma_line13_interrupt_arms(writes: Seq<RegisterWrite>, edge: Edge)
    ensures
        line13_armed(writes + line13_interrupt_writes(edge), edge),
{
    lemma_line13_interrupt_fields(writes, edge, Register::SyscfgExticr4, 13);
    lemma_line13_interrupt_fields(writes, edge, Register::ExtiImr, 13);
    lemma_line13_interrupt_fields(writes, edge, Register::ExtiRtsr, 13);
    lemma_line13_interrupt_fields(writes, edge, Register::ExtiFtsr, 13);
}

/// The word a whole-word write writes (0 for a field write).
pub open spec fn word_value(w: RegisterWrite) -> u32 {
    match w {
        RegisterWrite::Word { value, .. } => value,
        RegisterWrite::Field { .. } => 0,
    }
}

} // verus!
