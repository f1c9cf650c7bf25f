//! What a run is asked to do, and what the deployment lets it do.

use vstd::prelude::*;

verus! {

/// What a run sets out to do.
#[derive(Debug, Clone, Copy, PartialEq, Eq, Structural)]
pub enum Mode {
    /// Make sure the model cache is filled, and stop without embedding.
    PopulateCache,
    /// Embed the two texts and score them.
    Score,
}

/// The input of one run, as the command line gave it.
#[derive(Debug, Clone, PartialEq, Eq)]
pub struct Request {
    /// The document text to embed.
    pub document: Option<String>,
    /// The query text to embed.
    pub query: Option<String>,
    /// Only fill the model cache.
    pub cache_only: bool,
    /// A cache directory to use in place of the default one.
    pub cache_dir: Option<String>,
}

/// What this deployment is able to do. It is fixed when the program is built
/// or started, and never consulted again during a run.
#[derive(Debug, Clone, Copy, PartialEq, Eq, Structural)]
pub struct Deployment {
    /// The model may be fetched from the remote registry.
    pub remote_fetch: bool,
}

/// The cache directory of a run: the one asked for or, without one,
/// `qwen3_local_cache` below the working directory.
pub open spec fn cache_dir_text(chosen: Option<String>) -> Seq<char> {
    match chosen {
        Some(dir) => dir@,
        None => "qwen3_local_cache"@,
    }
}

/// The mode that the cache-only flag selects.
pub open spec fn mode_of(cache_only: bool) -> Mode {
    if cache_only {
        Mode::PopulateCache
    } else {
        Mode::Score
    }
}

impl Request {
    /// The directory in which the model artifacts are expected or will be
    /// written.
    pub fn resolve_cache_dir(&self) -> (dir: String)
        ensures
            dir@ == cache_dir_text(self.cache_dir),
    {
        match &self.cache_dir {
            Some(dir) => dir.clone(),
            None => String::from_str("qwen3_local_cache"),
        }
    }

    /// What the run sets out to do.
    pub fn mode(&self) -> (mode: Mode)
        ensures
            mode == mode_of(self.cache_only),
    {
        if self.cache_only {
            Mode::PopulateCache
        } else {
            Mode::Score
        }
    }
}

} // verus!
