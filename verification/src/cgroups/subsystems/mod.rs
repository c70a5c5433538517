//! The controllers, and where their directories are mounted.

pub mod cpu_set_subsystem;
pub mod cpu_subsystem;
pub mod memory_subsystem;
pub mod subsystem;
pub mod util;
