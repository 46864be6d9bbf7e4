//! What the service makes of one generation: whether a model is handed to
//! the engine at all, and what is returned once the engine has stopped.

use crate::config::SAMPLER_CANDIDATES;
use crate::transcript::{Transcript, TranscriptView};
use vstd::prelude::*;

verus! {

/// Why a model could not be loaded, `llm::LoadError`. Opaque.
#[verifier::external_type_specification]
#[verifier::external_body]
pub struct ExLoadError(llm::LoadError);

/// Why a generation stopped early, `llm::InferenceError`. Opaque.
#[verifier::external_type_specification]
#[verifier::external_body]
pub struct ExInferenceError(llm::InferenceError);

/// Why a request got no generated text. The caller of the service never sees
/// which it was; the detail is for the log.
#[derive(Debug)]
pub enum InferError {
    /// The model could not be loaded: the file is missing, is damaged, or
    /// holds a model of another architecture.
    Load(llm::LoadError),
    /// The model is loaded, but the engine cannot run it: it scores `logits`
    /// tokens, which is fewer than the sampler keeps or not the number of
    /// tokens that its `vocabulary` names.
    UnfitModel { logits: usize, vocabulary: usize },
    /// The engine gave up while it processed the prompt or sampled.
    Inference(llm::InferenceError),
}

impl From<llm::LoadError> for InferError {
    fn from(error: llm::LoadError) -> (failure: InferError) {
        InferError::Load(error)
    }
}

impl vstd::std_specs::convert::FromSpecImpl<llm::LoadError> for InferError {
    open spec fn obeys_from_spec() -> bool {
        true
    }

    open spec fn from_spec(error: llm::LoadError) -> InferError {
        InferError::Load(error)
    }
}

impl From<llm::InferenceError> for InferError {
    fn from(error: llm::InferenceError) -> (failure: InferError) {
        InferError::Inference(error)
    }
}

impl vstd::std_specs::convert::FromSpecImpl<llm::InferenceError> for InferError {
    open spec fn obeys_from_spec() -> bool {
        true
    }

    open spec fn from_spec(error: llm::InferenceError) -> InferError {
        InferError::Inference(error)
    }
}

/// Whether the engine can run, with its default parameters, a model that
/// scores `logits` tokens and whose vocabulary names `vocabulary` tokens:
/// the sampler finds at least as many scored tokens as it keeps, and the
/// tokens that the vocabulary names are the ones that are scored.
pub open spec fn fits(logits: usize, vocabulary: usize) -> bool {
    SAMPLER_CANDIDATES <= logits && logits == vocabulary
}

/// Decides whether a model is handed to the engine, by the number of tokens
/// that it scores and the number that its vocabulary names. On a model that
/// does not fit the engine would panic, so the service fails the request
/// instead.
pub fn admit_model(logits: usize, vocabulary: usize) -> (admitted: Result<(), InferError>)
    ensures
        fits(logits, vocabulary) ==> admitted == Ok::<(), InferError>(()),
        !fits(logits, vocabulary) ==> admitted == Err::<(), InferError>(
            InferError::UnfitModel { logits, vocabulary },
        ),
{
    if logits < SAMPLER_CANDIDATES || vocabulary != logits {
        Err(InferError::UnfitModel { logits, vocabulary })
    } else {
        Ok(())
    }
}

/// What is returned once the engine has stopped: the whole text on success,
/// and on failure the engine's error, with none of the text.
pub open spec fn concluded(
    outcome: Result<(), llm::InferenceError>,
    transcript: TranscriptView,
) -> Result<Seq<char>, InferError> {
    match outcome {
        Ok(_) => Ok(transcript.text),
        Err(error) => Err(InferError::Inference(error)),
    }
}

/// The text of a result, with the error kept.
pub open spec fn text_of(result: Result<String, InferError>) -> Result<Seq<char>, InferError> {
    match result {
        Ok(text) => Ok(text@),
        Err(error) => Err(error),
    }
}

/// Turns the engine's outcome and the transcript into the result of the
/// generation. There is no retry and no text on failure.
pub fn conclude(outcome: Result<(), llm::InferenceError>, transcript: Transcript) -> (result:
    Result<String, InferError>)
    ensures
        text_of(result) == concluded(outcome, transcript@),
{
    match outcome {
        Ok(_) => Ok(transcript.into_text()),
        Err(error) => Err(InferError::from(error)),
    }
}

} // verus!
