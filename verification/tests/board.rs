//! The board's pins need the microcontroller's peripherals, which a host
//! cannot hand out; these tests hold the public interface to its types.
use nucleo_f401re::hal::gpio::gpioa::PA5;
use nucleo_f401re::hal::gpio::gpioc::PC13;
use nucleo_f401re::hal::gpio::{Floating, Input, Output, PushPull};
use nucleo_f401re::hal::syscfg::SysCfg;
use nucleo_f401re::pac::EXTI;
use nucleo_f401re::{Button, Edge, Led};

#[test]
fn led_takes_pa5_in_any_mode() {
    let from_input: fn(PA5<Input<Floating>>) -> Led = Led::new;
    let from_output: fn(PA5<Output<PushPull>>) -> Led = Led::new;
    let set: fn(&mut Led, bool) = Led::set;
    let toggle: fn(&mut Led) = Led::toggle;
    let _ = (from_input, from_output, set, toggle);
}

#[test]
fn button_takes_pc13_in_any_mode() {
    let from_input: fn(PC13<Input<Floating>>) -> Button = Button::new;
    let enable: fn(&mut Button, Edge, &mut SysCfg, &mut EXTI) = Button::enable_interrupt;
    let clear: fn(&mut Button) = Button::clear_interrupt_pending_bit;
    let _ = (from_input, enable, clear);
}
