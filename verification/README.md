# nucleo-f401re

Board support for the ST Nucleo-F401RE, verified with Verus.

* `Led`: the user LED (LD2) on PA5, a push-pull output.
* `Button`: the user button (B1) on PC13, a pulled-up input that can raise
  EXTI line 13.

Each pin keeps a record of the register writes made through it
(`src/pins.rs`); only the trusted methods there, each of which makes one
`stm32f4xx-hal` call, add to it. `src/regs.rs` models those writes: which
field of which register a write sets, the level PA5 drives after a sequence of
BSRR writes, and what BSRR and EXTI's PR do to the bits they reach.

The contracts of `Led` and `Button` state their exact writes: `Led::new`
makes PA5 a push-pull output without touching its level, `set` and `toggle`
each make one BSRR write that fixes or inverts the level, and
`Button::enable_interrupt` routes line 13 to port C, unmasks it and selects
its edges, while `clear_interrupt_pending_bit` writes `1 << 13` to PR.
`src/hal_types.rs` declares the HAL types that the library carries.
