//! Verified core of the HqAudio music API: media-link decryption and
//! rewriting, the reading of upstream JSON into response models, request
//! planning for the upstream API, and the rules of the log viewer and the
//! abuse protection.

pub mod crypto;
pub mod fetch;
pub mod handlers;
pub mod json;
pub mod logs;
pub mod models;
pub mod number;
pub mod parse;
pub mod server;
pub mod text;
