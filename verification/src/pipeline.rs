//! The run itself, as a chain of states.
//!
//! A run starts at the cache check, obtains the model, prepares and embeds the
//! two texts, scores the vectors and packages the result. It never goes back.
//! Each state is a value that holds what the rest of the run needs. The caller
//! does the work that a state asks for and hands over what came of it; the
//! state answers with the next state and its request, or with the end of the
//! run.

use crate::acquire::{
    acquisition_failure,
    choose_strategy,
    classify_failure,
    strategy_for,
    AcquireRequest,
    FailedStep,
    Strategy,
};
use crate::embedding::{check_batch, miscount_text, well_shaped};
use crate::error::{InputRole, PipelineError};
use crate::inputs::{
    batch_of,
    prepare_batch,
    validate_inputs,
    validated,
    TextPair,
    BATCH_LEN,
    DOCUMENT_INDEX,
    QUERY_INDEX,
};
use crate::request::{cache_dir_text, mode_of, Deployment, Mode, Request};
use crate::timing::{
    measure,
    millis_modulus,
    readings_ordered,
    timings_of,
    whole_millis,
    PhaseTimings,
    Span,
};
use vstd::prelude::*;

verus! {

/// What a run that scored hands out.
#[derive(Debug, Clone, Copy, PartialEq, Eq, Structural)]
pub struct PipelineResult {
    /// The cosine similarity of query and document, as the bit pattern of a
    /// 32-bit IEEE 754 number.
    pub similarity_bits: u32,
    /// How long the phases took.
    pub timings: PhaseTimings,
}

/// How a run ended.
#[derive(Debug, Clone, PartialEq, Eq)]
pub enum Completion {
    /// The texts were embedded and scored: the result is to be printed.
    Scored(PipelineResult),
    /// Only the cache was asked for, and it was there already. Nothing was
    /// loaded, fetched or written.
    CachePresent,
    /// Only the cache was asked for, and it has been filled.
    CachePopulated,
    /// The run failed.
    Failed(PipelineError),
}

impl Completion {
    /// The exit status of the process for this ending.
    pub open spec fn status(self) -> u8 {
        if self is Failed {
            1
        } else {
            0
        }
    }

    /// The exit status: zero unless the run failed.
    pub fn exit_status(&self) -> (status: u8)
        ensures
            status == self.status(),
    {
        match self {
            Completion::Failed(_) => 1,
            _ => 0,
        }
    }
}

/// What a state answers: go on, or stop.
#[derive(Debug, Clone, PartialEq, Eq)]
pub enum Step<S, R> {
    /// The run goes on in `state` once the caller has carried out `request`.
    Perform { state: S, request: R },
    /// The run is over.
    Finished(Completion),
}

/// What remains to be done once the model is there.
#[derive(Debug, Clone, PartialEq, Eq)]
pub enum Job {
    /// Nothing: the run was about the cache.
    Populate,
    /// Embed and score the pair.
    Score(TextPair),
}

/// The job of a run: none beyond the cache in cache-only mode, and otherwise
/// the two texts, which must both be there.
pub open spec fn job_for(mode: Mode, document: Option<String>, query: Option<String>) -> Result<
    Job,
    PipelineError,
> {
    match mode {
        Mode::PopulateCache => Ok(Job::Populate),
        Mode::Score => match validated(document, query) {
            Ok(pair) => Ok(Job::Score(pair)),
            Err(error) => Err(error),
        },
    }
}

/// The first state: the caller is to find out whether `cache_dir` exists.
#[derive(Debug, Clone, PartialEq, Eq)]
pub struct CacheCheck {
    pub cache_dir: String,
    pub mode: Mode,
    pub remote_fetch: bool,
    pub document: Option<String>,
    pub query: Option<String>,
    /// The clock when the run started.
    pub started: u128,
}

/// The model is being obtained.
#[derive(Debug, Clone, PartialEq, Eq)]
pub struct Acquiring {
    pub strategy: Strategy,
    pub cache_dir: String,
    pub job: Job,
    pub started: u128,
}

/// The batch is being embedded.
#[derive(Debug, Clone, Copy, PartialEq, Eq, Structural)]
pub struct Embedding {
    pub started: u128,
    pub model_load: Span,
}

/// The two vectors are being scored.
#[derive(Debug, Clone, Copy, PartialEq, Eq, Structural)]
pub struct Scoring {
    pub started: u128,
    pub model_load: Span,
    pub embed: Span,
}

/// Why the model could not be obtained.
#[derive(Debug, Clone, PartialEq, Eq)]
pub struct AcquireFailure {
    pub step: FailedStep,
    /// What the engine said.
    pub detail: String,
}

/// What the engine returned for the batch.
#[derive(Debug, Clone, PartialEq, Eq)]
pub struct EmbedReport {
    /// The length of each vector, in the order of the batch.
    pub lengths: Vec<usize>,
    /// The clock before and after the embedding.
    pub span: Span,
}

/// The two vectors to score, by their position in what the engine returned.
#[derive(Debug, Clone, Copy, PartialEq, Eq, Structural)]
pub struct ScoreRequest {
    pub query: usize,
    pub document: usize,
    /// The length that both vectors have.
    pub dimension: usize,
}

/// Starts a run. `started` is the clock at this moment.
pub fn start(request: Request, deployment: Deployment, started: u128) -> (state: CacheCheck)
    ensures
        state.cache_dir@ == cache_dir_text(request.cache_dir),
        state.mode == mode_of(request.cache_only),
        state.remote_fetch == deployment.remote_fetch,
        state.document == request.document,
        state.query == request.query,
        state.started == started,
{
    let cache_dir = request.resolve_cache_dir();
    let mode = request.mode();
    CacheCheck {
        cache_dir,
        mode,
        remote_fetch: deployment.remote_fetch,
        document: request.document,
        query: request.query,
        started,
    }
}

impl CacheCheck {
    /// What follows the cache check.
    ///
    /// A run that is only about the cache ends at once where the cache is
    /// present. Any other run needs its job first, so a missing text ends it
    /// before anything is loaded. Then the strategy is chosen; where there is
    /// none, the run fails and names the cache directory it looked for.
    pub open spec fn resolved(self, cache_present: bool) -> Step<Acquiring, AcquireRequest> {
        if self.mode == Mode::PopulateCache && cache_present {
            Step::Finished(Completion::CachePresent)
        } else {
            match job_for(self.mode, self.document, self.query) {
                Err(error) => Step::Finished(Completion::Failed(error)),
                Ok(job) => match strategy_for(cache_present, self.remote_fetch) {
                    None => Step::Finished(
                        Completion::Failed(
                            PipelineError::Configuration {
                                mode: self.mode,
                                cache_dir: self.cache_dir,
                            },
                        ),
                    ),
                    Some(strategy) => Step::Perform {
                        state: Acquiring {
                            strategy,
                            cache_dir: self.cache_dir,
                            job,
                            started: self.started,
                        },
                        request: AcquireRequest::for_strategy(strategy, self.cache_dir),
                    },
                },
            }
        }
    }

    /// Takes the answer of the cache check and decides how the run goes on.
    pub fn resolve(self, cache_present: bool) -> (next: Step<Acquiring, AcquireRequest>)
        ensures
            next == self.resolved(cache_present),
    {
        let job = match self.mode {
            Mode::PopulateCache => {
                if cache_present {
                    return Step::Finished(Completion::CachePresent);
                }
                Job::Populate
            },
            Mode::Score => match validate_inputs(self.document, self.query) {
                Ok(pair) => Job::Score(pair),
                Err(error) => {
                    return Step::Finished(Completion::Failed(error));
                },
            },
        };
        match choose_strategy(cache_present, self.remote_fetch) {
            None => Step::Finished(
                Completion::Failed(
                    PipelineError::Configuration { mode: self.mode, cache_dir: self.cache_dir },
                ),
            ),
            Some(strategy) => {
                let request = AcquireRequest::new(strategy, self.cache_dir.clone());
                Step::Perform {
                    state: Acquiring {
                        strategy,
                        cache_dir: self.cache_dir,
                        job,
                        started: self.started,
                    },
                    request,
                }
            },
        }
    }
}

/// A run that is only about the cache ends at the cache check where the cache
/// is present: nothing is asked of the caller, so nothing is loaded, fetched
/// or written.
pub proof fn lemma_present_cache_ends_cache_only_run(state: CacheCheck)
    requires
        state.mode == Mode::PopulateCache,
    ensures
        state.resolved(true) == Step::<Acquiring, AcquireRequest>::Finished(
            Completion::CachePresent,
        ),
{
}

/// A run that is only about the cache never gets a job beyond it: where the
/// cache check asks for the model, nothing is left to do once the model is
/// there, so no text is ever embedded.
pub proof fn lemma_cache_only_run_has_no_job(state: CacheCheck, cache_present: bool)
    requires
        state.mode == Mode::PopulateCache,
        state.resolved(cache_present) is Perform,
    ensures
        state.resolved(cache_present)->state.job == Job::Populate,
        !cache_present,
{
}

/// A scoring run that lacks a text ends at the cache check with the error for
/// that text, the document before the query, whether or not the cache is
/// present and whatever the deployment can do: the model is never asked for.
pub proof fn lemma_missing_text_ends_run(state: CacheCheck, cache_present: bool)
    requires
        state.mode == Mode::Score,
        state.document is None || state.query is None,
    ensures
        state.resolved(cache_present) == Step::<Acquiring, AcquireRequest>::Finished(
            Completion::Failed(
                PipelineError::MissingInput {
                    role: if state.document is None {
                        InputRole::Document
                    } else {
                        InputRole::Query
                    },
                },
            ),
        ),
{
}

/// Where the cache check asks for the model, it asks for a local load exactly
/// where the cache is present, and for a fetch exactly where the cache is
/// absent and the deployment can fetch; either way on the cache directory of
/// the run.
pub proof fn lemma_request_follows_policy(state: CacheCheck, cache_present: bool)
    requires
        state.resolved(cache_present) is Perform,
    ensures
        ({
            let request = state.resolved(cache_present)->request;
            &&& request is LoadLocal <==> cache_present
            &&& request is FetchAndCache <==> !cache_present && state.remote_fetch
            &&& request.cache_dir() == state.cache_dir
        }),
{
}

impl Acquiring {
    /// Takes what came of obtaining the model: the clock around the work, or
    /// the failure.
    ///
    /// A failure ends the run with the error for the step that failed. With
    /// the model there, a run that was only about the cache is over; any other
    /// run goes on to embed the batch, the marked query before the marked
    /// document.
    pub fn acquired(self, outcome: Result<Span, AcquireFailure>) -> (next: Step<
        Embedding,
        Vec<String>,
    >)
        ensures
            match outcome {
                Err(failure) => next == Step::<Embedding, Vec<String>>::Finished(
                    Completion::Failed(
                        acquisition_failure(
                            self.strategy,
                            failure.step,
                            self.cache_dir,
                            failure.detail,
                        ),
                    ),
                ),
                Ok(span) => match self.job {
                    Job::Populate => next == Step::<Embedding, Vec<String>>::Finished(
                        Completion::CachePopulated,
                    ),
                    Job::Score(pair) => {
                        &&& next matches Step::Perform { state, request }
                        &&& state == (Embedding { started: self.started, model_load: span })
                        &&& request.deep_view() == batch_of(pair.query@, pair.document@)
                    },
                },
            },
    {
        match outcome {
            Err(failure) => Step::Finished(
                Completion::Failed(
                    classify_failure(self.strategy, failure.step, self.cache_dir, failure.detail),
                ),
            ),
            Ok(span) => match self.job {
                Job::Populate => Step::Finished(Completion::CachePopulated),
                Job::Score(pair) => Step::Perform {
                    state: Embedding { started: self.started, model_load: span },
                    request: prepare_batch(&pair),
                },
            },
        }
    }
}

/// The engine returned what a batch of two calls for: two vectors of one
/// length.
pub open spec fn pair_shaped(lengths: Seq<usize>) -> bool {
    lengths.len() == BATCH_LEN && lengths[0] == lengths[1]
}

/// For the batch of two, two vectors of one length are exactly what the
/// engine owes for any batch: as many vectors as inputs, all of one
/// dimension.
pub proof fn lemma_pair_shaped_is_well_shaped(lengths: Seq<usize>)
    ensures
        pair_shaped(lengths) <==> well_shaped(BATCH_LEN, lengths),
{
    if pair_shaped(lengths) {
        assert forall|i: int| 0 <= i < lengths.len() implies #[trigger] lengths[i]
            == lengths[0] by {
            assert(i == 0 || i == 1);
        }
    }
    if well_shaped(BATCH_LEN, lengths) {
        assert(lengths[1] == lengths[0]);
    }
}

/// The error for a batch of two that is not so shaped: an inference failure
/// where the engine did not return two vectors, and otherwise a shape error
/// with the two lengths.
pub open spec fn batch_fault(lengths: Seq<usize>, error: PipelineError) -> bool {
    if lengths.len() != BATCH_LEN {
        error matches PipelineError::Inference { detail } && detail@ == miscount_text()
    } else {
        error == (PipelineError::Shape { left: lengths[0], right: lengths[1] })
    }
}

impl Embedding {
    /// Takes what came of embedding the batch: the lengths of the vectors and
    /// the clock around the work, or what the engine said when it failed.
    ///
    /// The run goes on to scoring only with two vectors of one length.
    pub fn embedded(self, outcome: Result<EmbedReport, String>) -> (next: Step<
        Scoring,
        ScoreRequest,
    >)
        ensures
            match outcome {
                Err(detail) => next == Step::<Scoring, ScoreRequest>::Finished(
                    Completion::Failed(PipelineError::Inference { detail }),
                ),
                Ok(report) => if pair_shaped(report.lengths@) {
                    next == (Step::Perform {
                        state: Scoring {
                            started: self.started,
                            model_load: self.model_load,
                            embed: report.span,
                        },
                        request: ScoreRequest {
                            query: QUERY_INDEX,
                            document: DOCUMENT_INDEX,
                            dimension: report.lengths@[0],
                        },
                    })
                } else {
                    &&& next matches Step::Finished(Completion::Failed(error))
                    &&& batch_fault(report.lengths@, error)
                },
            },
    {
        proof {
            if outcome is Ok {
                lemma_pair_shaped_is_well_shaped(outcome->Ok_0.lengths@);
            }
        }
        match outcome {
            Err(detail) => Step::Finished(Completion::Failed(PipelineError::Inference { detail })),
            Ok(report) => match check_batch(BATCH_LEN, &report.lengths) {
                Err(error) => Step::Finished(Completion::Failed(error)),
                Ok(dimension) => Step::Perform {
                    state: Scoring {
                        started: self.started,
                        model_load: self.model_load,
                        embed: report.span,
                    },
                    request: ScoreRequest {
                        query: QUERY_INDEX,
                        document: DOCUMENT_INDEX,
                        dimension,
                    },
                },
            },
        }
    }
}

impl Scoring {
    /// The result of a run that scored `similarity_bits`, with the clock
    /// around the scoring in `span` and at the end of the run in `finished`.
    pub open spec fn packaged(self, similarity_bits: u32, span: Span, finished: u128) -> PipelineResult {
        PipelineResult {
            similarity_bits,
            timings: timings_of(self.started, self.model_load, self.embed, span, finished),
        }
    }

    /// Takes the score and packages the result. `finished` is the clock at
    /// this moment.
    ///
    /// With readings in order, from a run short enough for its milliseconds
    /// to fit in 64 bits, the total is at least the sum of the phases.
    pub fn scored(self, similarity_bits: u32, span: Span, finished: u128) -> (done: Completion)
        ensures
            done == Completion::Scored(self.packaged(similarity_bits, span, finished)),
            readings_ordered(self.started, self.model_load, self.embed, span, finished)
                && whole_millis(self.started, finished) < millis_modulus() ==> {
                let timings = self.packaged(similarity_bits, span, finished).timings;
                timings.total >= timings.model_load + timings.embed + timings.similarity
            },
    {
        let timings = measure(self.started, &self.model_load, &self.embed, &span, finished);
        Completion::Scored(PipelineResult { similarity_bits, timings })
    }
}

} // verus!
