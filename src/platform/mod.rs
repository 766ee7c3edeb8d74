//! The platform layer for systems without native metric sources: each source answers,
//! and reports nothing.
pub mod boottime;
pub mod cpu;
pub mod fs;
pub mod mem;
pub mod network;
pub mod power;
