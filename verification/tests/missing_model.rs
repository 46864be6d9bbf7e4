//! What the service does when the model file cannot be loaded. No model file
//! lies where these tests run.

use std::path::Path;

use infermp10::chat::respond;
use infermp10::config::MODEL_FILE;
use infermp10::infer::InferError;
use llm::models::Llama;
use llm::{LoadError, ModelParameters};

fn load() -> Result<Llama, LoadError> {
    llm::load::<Llama>(Path::new(MODEL_FILE), ModelParameters::default(), |_| {})
}

/// The result of a request for which the model did not load.
fn failed() -> Result<String, InferError> {
    match load() {
        Ok(_) => panic!("a model file lies where the tests run"),
        Err(error) => Err(InferError::from(error)),
    }
}

#[test]
fn missing_model_is_a_load_failure() {
    assert!(matches!(failed(), Err(InferError::Load(_))));
}

#[test]
fn missing_model_is_answered_with_empty_500() {
    let handled = respond(failed());
    assert_eq!(handled.reply.status, 500);
    assert!(handled.reply.body.is_none());
    assert!(matches!(handled.failure, Some(InferError::Load(_))));
}

#[test]
fn load_failure_is_answered_the_same_whatever_it_is() {
    let failures = vec![
        InferError::from(LoadError::UnsupportedFileType(77)),
        InferError::from(LoadError::HyperparametersF16Invalid { ftype: 9 }),
    ];
    for failure in failures {
        let handled = respond(Err(failure));
        assert_eq!(handled.reply.status, 500);
        assert!(handled.reply.body.is_none());
        assert!(handled.failure.is_some());
    }
}
