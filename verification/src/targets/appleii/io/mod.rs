pub mod disks;
pub mod soft_switches;
pub mod misc;
pub mod keyboard;
pub mod peripherals;
pub mod memory;
pub mod peripheral;
pub mod video;
