//! What the service asks of the inference engine for one prompt.

use crate::config::MAX_TOKEN_COUNT;
use vstd::prelude::*;

verus! {

/// The settings of one generation, as plain values.
pub struct GenerationRequest {
    /// The text that seeds the generation.
    pub prompt: String,
    /// Whether the engine reports the tokens of an earlier generation again.
    pub play_back_previous_tokens: bool,
    /// The most tokens that the engine may sample, if there is a limit.
    pub maximum_token_count: Option<usize>,
}

impl GenerationRequest {
    /// Whether this is the request that the service makes for `prompt`: the
    /// prompt as it is, nothing played back, and at most `MAX_TOKEN_COUNT`
    /// sampled tokens.
    pub open spec fn is_for(self, prompt: Seq<char>) -> bool {
        &&& self.prompt@ == prompt
        &&& !self.play_back_previous_tokens
        &&& self.maximum_token_count == Some(MAX_TOKEN_COUNT)
    }

    /// The request that the service makes for `prompt`. Every prompt is
    /// taken as it is, the empty one too.
    pub fn for_prompt(prompt: &str) -> (request: GenerationRequest)
        ensures
            request.is_for(prompt@),
            request.prompt@ == prompt@,
            !request.play_back_previous_tokens,
            request.maximum_token_count == Some(MAX_TOKEN_COUNT),
    {
        GenerationRequest {
            prompt: prompt.to_owned(),
            play_back_previous_tokens: false,
            maximum_token_count: Some(MAX_TOKEN_COUNT),
        }
    }
}

/// Whatever the prompt is, the limit on sampled tokens that the service
/// hands to the engine is the same, `MAX_TOKEN_COUNT`, which is 140. That no
/// more tokens are sampled is then the engine's part.
pub proof fn lemma_limit_is_fixed(request: GenerationRequest, prompt: Seq<char>)
    requires
        request.is_for(prompt),
    ensures
        request.maximum_token_count == Some(MAX_TOKEN_COUNT),
        MAX_TOKEN_COUNT == 140,
{
}

} // verus!
