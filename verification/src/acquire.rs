//! How the model is obtained: from the local cache where it is present, from
//! the remote registry where it is not and fetching is enabled.

use crate::error::PipelineError;
use vstd::prelude::*;

verus! {

/// The device on which the model computes.
#[derive(Debug, Clone, Copy, PartialEq, Eq, Structural)]
pub enum Device {
    Cpu,
}

/// The numeric precision in which the model is held.
#[derive(Debug, Clone, Copy, PartialEq, Eq, Structural)]
pub enum Precision {
    /// 32-bit floating point.
    Single,
}

/// The model that the pipeline embeds with.
#[derive(Debug, Clone, Copy, PartialEq, Eq, Structural)]
pub enum Model {
    Qwen3Embedding,
}

/// The longest input, in tokens, that the engine is configured for. Longer
/// inputs keep their leading part.
pub const MAX_SEQUENCE_LENGTH: usize = 512;

impl Model {
    /// The name of the model in the remote registry.
    pub open spec fn identifier_text(self) -> Seq<char> {
        "Qwen/Qwen3-Embedding-0.6B"@
    }

    /// The name under which the remote registry holds the model.
    pub fn identifier(&self) -> (name: String)
        ensures
            name@ == self.identifier_text(),
    {
        String::from_str("Qwen/Qwen3-Embedding-0.6B")
    }
}

/// One of the two ways to obtain the model.
#[derive(Debug, Clone, Copy, PartialEq, Eq, Structural)]
pub enum Strategy {
    /// Read the artifacts that the cache directory holds. No network access.
    LoadLocal,
    /// Download the artifacts into the cache directory, then load them.
    FetchAndCache,
}

/// The strategy for a cache that is present or not, in a deployment that can
/// fetch or not: the cache wins, fetching is the fallback, and without either
/// there is none.
pub open spec fn strategy_for(cache_present: bool, remote_fetch: bool) -> Option<Strategy> {
    if cache_present {
        Some(Strategy::LoadLocal)
    } else if remote_fetch {
        Some(Strategy::FetchAndCache)
    } else {
        None
    }
}

/// Selects the way to obtain the model. It is evaluated once per run.
pub fn choose_strategy(cache_present: bool, remote_fetch: bool) -> (choice: Option<Strategy>)
    ensures
        choice == strategy_for(cache_present, remote_fetch),
{
    if cache_present {
        Some(Strategy::LoadLocal)
    } else if remote_fetch {
        Some(Strategy::FetchAndCache)
    } else {
        None
    }
}

/// What the caller is asked to do to obtain the model.
#[derive(Debug, Clone, PartialEq, Eq)]
pub enum AcquireRequest {
    /// Load the model from `cache_dir` alone.
    LoadLocal { device: Device, precision: Precision, cache_dir: String },
    /// Resolve `model` in the remote registry, download it into `cache_dir`
    /// (creating the directory if it is absent) and load it.
    FetchAndCache {
        model: Model,
        device: Device,
        precision: Precision,
        max_sequence_length: usize,
        cache_dir: String,
    },
}

impl AcquireRequest {
    /// The cache directory that the request works on.
    pub open spec fn cache_dir(self) -> String {
        match self {
            AcquireRequest::LoadLocal { cache_dir, .. } => cache_dir,
            AcquireRequest::FetchAndCache { cache_dir, .. } => cache_dir,
        }
    }

    /// The request that carries out `strategy` on `cache_dir`.
    pub open spec fn for_strategy(strategy: Strategy, cache_dir: String) -> AcquireRequest {
        match strategy {
            Strategy::LoadLocal => AcquireRequest::LoadLocal {
                device: Device::Cpu,
                precision: Precision::Single,
                cache_dir,
            },
            Strategy::FetchAndCache => AcquireRequest::FetchAndCache {
                model: Model::Qwen3Embedding,
                device: Device::Cpu,
                precision: Precision::Single,
                max_sequence_length: 512,
                cache_dir,
            },
        }
    }

    /// Builds the request that carries out `strategy` on `cache_dir`.
    pub fn new(strategy: Strategy, cache_dir: String) -> (request: AcquireRequest)
        ensures
            request == AcquireRequest::for_strategy(strategy, cache_dir),
    {
        match strategy {
            Strategy::LoadLocal => AcquireRequest::LoadLocal {
                device: Device::Cpu,
                precision: Precision::Single,
                cache_dir,
            },
            Strategy::FetchAndCache => AcquireRequest::FetchAndCache {
                model: Model::Qwen3Embedding,
                device: Device::Cpu,
                precision: Precision::Single,
                max_sequence_length: MAX_SEQUENCE_LENGTH,
                cache_dir,
            },
        }
    }
}

/// The step of an acquisition at which the caller saw it fail.
#[derive(Debug, Clone, Copy, PartialEq, Eq, Structural)]
pub enum FailedStep {
    /// Resolving or downloading the artifacts.
    Fetch,
    /// Reading the artifacts that are on disk.
    Load,
}

/// The error for an acquisition that failed. A local load touches no network,
/// so whatever went wrong there was a load; a fetch fails at the step that the
/// caller names.
pub open spec fn acquisition_failure(
    strategy: Strategy,
    step: FailedStep,
    cache_dir: String,
    detail: String,
) -> PipelineError {
    if strategy == Strategy::FetchAndCache && step == FailedStep::Fetch {
        PipelineError::Fetch { cache_dir, detail }
    } else {
        PipelineError::Load { cache_dir, detail }
    }
}

/// Classifies a failed acquisition.
pub fn classify_failure(
    strategy: Strategy,
    step: FailedStep,
    cache_dir: String,
    detail: String,
) -> (error: PipelineError)
    ensures
        error == acquisition_failure(strategy, step, cache_dir, detail),
{
    match (strategy, step) {
        (Strategy::FetchAndCache, FailedStep::Fetch) => PipelineError::Fetch { cache_dir, detail },
        _ => PipelineError::Load { cache_dir, detail },
    }
}

} // verus!
