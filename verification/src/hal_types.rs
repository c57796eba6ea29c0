//! The `stm32f4xx-hal` types that the board's pins and peripherals carry.
//! Each is opaque here: the library holds and passes them, and says what it
//! does with them through the trusted wrappers in `led` and `button`.
use vstd::prelude::*;
use stm32f4xx_hal::gpio::gpioa::PA5;
use stm32f4xx_hal::gpio::gpioc::PC13;

verus! {

/// `stm32f4xx_hal::gpio::gpioa::PA5`, pin 5 of port A, in type state `MODE`.
#[verifier::external_type_specification]
#[verifier::external_body]
#[verifier::reject_recursive_types(MODE)]
pub struct ExPa5<MODE>(PA5<MODE>);

/// `stm32f4xx_hal::gpio::Output`, the output type state.
#[verifier::external_type_specification]
#[verifier::external_body]
#[verifier::reject_recursive_types(MODE)]
pub struct ExOutput<MODE>(stm32f4xx_hal::gpio::Output<MODE>);

/// `stm32f4xx_hal::gpio::PushPull`, the push-pull output type state.
#[verifier::external_type_specification]
#[verifier::external_body]
pub struct ExPushPull(stm32f4xx_hal::gpio::PushPull);

/// `stm32f4xx_hal::gpio::gpioc::PC13`, pin 13 of port C, in type state `MODE`.
#[verifier::external_type_specification]
#[verifier::external_body]
#[verifier::reject_recursive_types(MODE)]
pub struct ExPc13<MODE>(PC13<MODE>);

/// `stm32f4xx_hal::gpio::Input`, the input type state.
#[verifier::external_type_specification]
#[verifier::external_body]
#[verifier::reject_recursive_types(MODE)]
pub struct ExInput<MODE>(stm32f4xx_hal::gpio::Input<MODE>);

/// `stm32f4xx_hal::gpio::PullUp`, the pulled-up input type state.
#[verifier::external_type_specification]
#[verifier::external_body]
pub struct ExPullUp(stm32f4xx_hal::gpio::PullUp);

/// `stm32f4xx_hal::syscfg::SysCfg`, the clocked SYSCFG peripheral.
#[verifier::external_type_specification]
#[verifier::external_body]
pub struct ExSysCfg(stm32f4xx_hal::syscfg::SysCfg);

/// `stm32f4xx_hal::pac::EXTI`, the external interrupt controller.
#[verifier::external_type_specification]
#[verifier::external_body]
pub struct ExExti(stm32f4xx_hal::pac::EXTI);

} // verus!
