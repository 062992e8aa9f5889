//! Driver core for the serial peripheral interface controllers of the
//! STM32G4 family: the pin capability matrix, the register-level
//! configuration, and a FIFO-aware blocking transfer engine.
pub mod config;
pub mod error;
pub mod instance;
pub mod laws;
pub mod pins;
pub mod sim;
pub mod spi;
pub mod status;

pub use embedded_hal::spi::{Mode, Phase, Polarity, MODE_0, MODE_1, MODE_2, MODE_3};
