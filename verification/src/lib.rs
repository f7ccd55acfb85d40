//! The decision logic of the postal backend: the letter and contact records it
//! sends to the mail API, the requests it builds, the decryption of encrypted
//! mail events, and the block checkpoints with which it resumes a scan.

pub mod api;
pub mod chain;
pub mod config;
pub mod checkpoint;
pub mod crypto;
pub mod decimal;
pub mod event;
pub mod pdf;
