//! Turns a parsed COMTRADE disturbance recording into a flat snapshot that a
//! host can display, with every step between the raw file bytes and the
//! snapshot stated as a contract and proved.

pub mod copying;
pub mod encoding;
pub mod error;
pub mod input;
pub mod outcome;
pub mod recording;
pub mod snapshot;
pub mod timeline;
