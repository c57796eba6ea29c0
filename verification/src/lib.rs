//! Board support for the Nucleo-F401RE: the user LED on PA5 and the user
//! button on PC13, driven through `stm32f4xx-hal`.
pub use stm32f4xx_hal as hal;
pub use stm32f4xx_hal::stm32 as pac;

pub mod hal_types;
pub mod regs;
pub use regs::Edge;
pub mod pins;

pub mod led;
pub use led::Led;

pub mod button;
pub use button::Button;
