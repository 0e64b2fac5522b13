//! Viewing and editing the metadata tags of audio files: the tag snapshot, the
//! rule that decides which tags an update writes, the JSON form of snapshots,
//! and the protocols that a front end follows to update a file and to round-trip
//! text through an external editor.

pub mod accessor;
pub mod batch;
pub mod commands;
pub mod decimal;
pub mod editor;
pub mod field;
pub mod json;
pub mod listing;
pub mod policy;
pub mod render;
pub mod snapshot;

pub use accessor::{FileError, LibraryError};
pub use snapshot::AudioTags;
