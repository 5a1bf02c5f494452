//! A pull-based, frame-major sample source over a block-structured,
//! planar-channel FLAC decoder.
//!
//! The decoder collaborator yields blocks whose samples are stored planar:
//! all samples of channel 0 first, then channel 1, and so on. This crate
//! reassembles those blocks into a single interleaved (frame-major,
//! channel-minor) sequence of samples, each left-shifted so that any source
//! bit depth occupies the full 32-bit signed range.

pub mod reassembler;
pub mod decoder;
