//! The core of a small Linux container runtime, without its system calls.
//!
//! Every function here computes: which cgroup files to write and what to put
//! in them, which paths a record lives under, which state a container moves
//! to, in which order the kernel is asked for what. Reading files, spawning
//! processes and calling the kernel is left to the program that uses the
//! library; it hands in what it read and carries out what it is handed back.

pub mod cgroups;
pub mod clock;
pub mod container;
pub mod error;
pub mod image;
pub mod runtime;
pub mod text;
pub mod wire;
