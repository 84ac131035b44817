//! Batch conversion of emote images into WhatsApp-sticker-compliant WebP
//! files.
//!
//! The crate holds the decision logic of the converter: parsing the probe
//! tool's output, resolving frame-file sequences, validating sticker
//! constraints, building the argument lists for the wrapped external tools,
//! and the per-emote pipeline and batch-scheduling state machines. All
//! input/output (HTTP, subprocesses, the filesystem, prompts) lives outside
//! the library and feeds it plain values.

pub mod binaries;
pub mod bttv;
pub mod context;
pub mod convert;
pub mod emote;
pub mod emote_ext;
pub mod file_sequence;
pub mod opt;
pub mod scheduler;
pub mod seven_tv;
pub mod text;
pub mod unwrap_ext;
pub mod webp;
