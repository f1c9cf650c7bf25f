use qwen3_embed::acquire::{
    choose_strategy, classify_failure, AcquireRequest, Device, FailedStep, Model, Precision,
    Strategy, MAX_SEQUENCE_LENGTH,
};
use qwen3_embed::error::PipelineError;

#[test]
fn present_cache_is_loaded_whatever_the_deployment() {
    assert_eq!(choose_strategy(true, false), Some(Strategy::LoadLocal));
    assert_eq!(choose_strategy(true, true), Some(Strategy::LoadLocal));
}

#[test]
fn absent_cache_is_fetched_where_fetching_is_enabled() {
    assert_eq!(choose_strategy(false, true), Some(Strategy::FetchAndCache));
}

#[test]
fn absent_cache_without_fetching_leaves_no_strategy() {
    assert_eq!(choose_strategy(false, false), None);
}

#[test]
fn strategy_is_the_same_on_a_second_look_at_an_unchanged_cache() {
    for present in [false, true] {
        for fetch in [false, true] {
            assert_eq!(choose_strategy(present, fetch), choose_strategy(present, fetch));
        }
    }
}

#[test]
fn local_load_request_carries_device_precision_and_directory() {
    assert_eq!(
        AcquireRequest::new(Strategy::LoadLocal, String::from("models")),
        AcquireRequest::LoadLocal {
            device: Device::Cpu,
            precision: Precision::Single,
            cache_dir: String::from("models"),
        }
    );
}

#[test]
fn fetch_request_names_model_and_sequence_length() {
    assert_eq!(
        AcquireRequest::new(Strategy::FetchAndCache, String::from("models")),
        AcquireRequest::FetchAndCache {
            model: Model::Qwen3Embedding,
            device: Device::Cpu,
            precision: Precision::Single,
            max_sequence_length: 512,
            cache_dir: String::from("models"),
        }
    );
    assert_eq!(MAX_SEQUENCE_LENGTH, 512);
}

#[test]
fn model_identifier_is_the_registry_name() {
    assert_eq!(Model::Qwen3Embedding.identifier(), "Qwen/Qwen3-Embedding-0.6B");
}

#[test]
fn failed_local_load_is_a_load_error_at_either_step() {
    for step in [FailedStep::Load, FailedStep::Fetch] {
        assert_eq!(
            classify_failure(Strategy::LoadLocal, step, String::from("c"), String::from("bad")),
            PipelineError::Load { cache_dir: String::from("c"), detail: String::from("bad") }
        );
    }
}

#[test]
fn failed_fetch_is_classified_by_its_step() {
    assert_eq!(
        classify_failure(
            Strategy::FetchAndCache,
            FailedStep::Fetch,
            String::from("c"),
            String::from("timeout"),
        ),
        PipelineError::Fetch { cache_dir: String::from("c"), detail: String::from("timeout") }
    );
    assert_eq!(
        classify_failure(
            Strategy::FetchAndCache,
            FailedStep::Load,
            String::from("c"),
            String::from("truncated file"),
        ),
        PipelineError::Load {
            cache_dir: String::from("c"),
            detail: String::from("truncated file"),
        }
    );
}
