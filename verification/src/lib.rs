//! A verified virtual computer: a memory-mapped bus ("Computer") with a
//! bank-switch offset register and pluggable devices, driven by a small
//! 32-bit processor ("CPU") that fetches, decodes and executes a fixed
//! binary instruction set against the bus.
//!
//! Every bus access and every processor step is specified by a functional
//! model (`spec` functions over views of the state), and the executable
//! code is proved to agree with that model exactly.

pub mod computer;
pub mod cpu;
pub mod device;
pub mod engine;
pub mod fault;
pub mod isa;
pub mod laws;
pub mod lebytes;

pub use fault::Fault;
