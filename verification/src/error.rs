//! The ways in which a run of the pipeline can fail, and what is said of each.

use crate::request::Mode;
use vstd::prelude::*;

verus! {

/// The role that a piece of text plays in the comparison.
#[derive(Debug, Clone, Copy, PartialEq, Eq, Structural)]
pub enum InputRole {
    /// The text that asks.
    Query,
    /// The text that is searched.
    Document,
}

/// Why a run ended without a result. Every failure ends the run: nothing is
/// retried and no partial result is kept.
#[derive(Debug, Clone, PartialEq, Eq)]
pub enum PipelineError {
    /// The cache directory is absent and this deployment cannot fetch the
    /// model from the remote registry.
    Configuration { mode: Mode, cache_dir: String },
    /// A required text was not given.
    MissingInput { role: InputRole },
    /// The model artifacts in the cache directory are missing or malformed.
    Load { cache_dir: String, detail: String },
    /// The model could not be resolved or downloaded.
    Fetch { cache_dir: String, detail: String },
    /// The engine failed while embedding, or broke its promise on the shape of
    /// what it returns.
    Inference { detail: String },
    /// The two vectors handed to the scorer differ in length.
    Shape { left: usize, right: usize },
}

impl PipelineError {
    /// The text of the message that reports this failure.
    pub open spec fn message_text(self) -> Seq<char> {
        match self {
            PipelineError::Configuration { mode, cache_dir } => match mode {
                Mode::PopulateCache => "--cache-only requested but hf-hub feature is disabled; cannot populate cache in this build. Use --cache-dir to point to a cache directory."@,
                Mode::Score => "No cache found and hf-hub is disabled. Please provide the cache directory (e.g. `qwen3_local_cache`) or run with --cache-dir to point to an existing cache: "@
                    + cache_dir@,
            },
            PipelineError::MissingInput { role } => match role {
                InputRole::Query => "--query is required"@,
                InputRole::Document => "--document is required"@,
            },
            PipelineError::Load { cache_dir, detail } => "model load from "@ + cache_dir@
                + " failed: "@ + detail@,
            PipelineError::Fetch { cache_dir, detail } => "model fetch into "@ + cache_dir@
                + " failed: "@ + detail@,
            PipelineError::Inference { detail } => "inference failed: "@ + detail@,
            PipelineError::Shape { left, right } => "similarity scoring failed: the two vectors differ in length"@,
        }
    }

    /// A message for the person who started the run. It names the phase that
    /// failed and, where one is involved, the cache directory.
    pub fn message(&self) -> (text: String)
        ensures
            text@ == self.message_text(),
    {
        match self {
            PipelineError::Configuration { mode, cache_dir } => match mode {
                Mode::PopulateCache => String::from_str(
                    "--cache-only requested but hf-hub feature is disabled; cannot populate cache in this build. Use --cache-dir to point to a cache directory.",
                ),
                Mode::Score => String::from_str(
                    "No cache found and hf-hub is disabled. Please provide the cache directory (e.g. `qwen3_local_cache`) or run with --cache-dir to point to an existing cache: ",
                ).concat(cache_dir.as_str()),
            },
            PipelineError::MissingInput { role } => match role {
                InputRole::Query => String::from_str("--query is required"),
                InputRole::Document => String::from_str("--document is required"),
            },
            PipelineError::Load { cache_dir, detail } => String::from_str("model load from ").concat(
                cache_dir.as_str(),
            ).concat(" failed: ").concat(detail.as_str()),
            PipelineError::Fetch { cache_dir, detail } => String::from_str(
                "model fetch into ",
            ).concat(cache_dir.as_str()).concat(" failed: ").concat(detail.as_str()),
            PipelineError::Inference { detail } => String::from_str("inference failed: ").concat(
                detail.as_str(),
            ),
            PipelineError::Shape { left, right } => String::from_str(
                "similarity scoring failed: the two vectors differ in length",
            ),
        }
    }
}

} // verus!
