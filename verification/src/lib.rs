//! Core of a handheld game console emulator: the memory-bus dispatcher that
//! routes every CPU byte access to the cartridge image, the working memory,
//! the video-subsystem registers or the I/O register bank, and the wave-table
//! audio channel that advances a sample index at a configurable frequency and
//! emits attenuated amplitude samples.

pub mod gpu;
pub mod io;
pub mod spu;
