//! Configuration model and code generation context for STM32 board projects.
//!
//! The library describes the supported boards and microcontrollers, keeps a
//! conflict-free configuration of GPIO pins, SPI buses and peripherals, and
//! turns that configuration into the flat context that project templates
//! are rendered from.

pub mod board;
pub mod config;
pub mod errors;
pub mod forms;
pub mod generator;
pub mod gpio;
pub mod peripherals;
pub mod seqs;
pub mod text;
