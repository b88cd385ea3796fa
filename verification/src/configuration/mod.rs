//! Device settings and their framing in flash storage.

pub mod settings;
pub mod storage;
