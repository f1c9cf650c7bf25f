//! Orchestration of a text-embedding similarity pipeline.
//!
//! The crate decides; its caller performs. Every step that touches the
//! filesystem, the model or the clock is carried out by the caller, who reports
//! what happened. The decisions taken on those reports are verified here.

pub mod acquire;
pub mod embedding;
pub mod error;
pub mod inputs;
pub mod pipeline;
pub mod request;
pub mod timing;
