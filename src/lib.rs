//! Operating-system metrics, with rate metrics (per-core CPU ticks, per-interface
//! network bytes) derived from consecutive counter snapshots and rescaled exactly to
//! the configured sampling cadence.
pub mod cpu;
pub mod fs;
pub mod mem;
pub mod misc;
pub mod network;
pub mod perfecter;
pub mod platform;
pub mod power;
pub mod power_info;
pub mod sampler;
pub mod thermal;
pub mod timer;
pub mod types;

pub use fs::FileSystem;
pub use mem::Memory;
pub use misc::Misc;
pub use perfecter::Perfecter;
pub use power::Power;
pub use thermal::Thermal;
