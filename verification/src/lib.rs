pub mod cpu;
pub mod debug;
pub mod emulator;
pub mod errors;
pub mod peripherals;
pub mod targets;
pub mod utils;
