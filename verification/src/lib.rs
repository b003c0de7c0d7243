//! Social-preview image pipeline: title layout, the fixed draw plan, an
//! in-memory title cache and the per-request state machine that decides what
//! to load, draw, encode, store and answer.

pub mod cache;
pub mod encode;
pub mod layout;
pub mod pipeline;
pub mod request;
