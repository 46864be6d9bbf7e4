//! The fixed settings of the service.

use vstd::prelude::*;

verus! {

/// Name of the model's weight file, relative to the working directory.
pub const MODEL_FILE: &'static str = "open_llama_3b-q4_0-ggjt.bin";

/// The most tokens that the engine may sample for one prompt.
pub const MAX_TOKEN_COUNT: usize = 140;

/// The number of candidates that the engine's sampler keeps with its default
/// parameters. A model must score at least as many tokens.
pub const SAMPLER_CANDIDATES: usize = 40;

/// The text that opens the `response` field of every successful reply.
pub const RESPONSE_PREFIX: &'static str = "Inference result: ";

/// The address on which the service listens: every interface.
pub const LISTEN_HOST: &'static str = "0.0.0.0";

/// The port on which the service listens.
pub const LISTEN_PORT: u16 = 8080;

/// The path of the one route, which takes `POST`.
pub const CHAT_PATH: &'static str = "/chat";

/// Status of a reply that carries generated text.
pub const STATUS_OK: u16 = 200;

/// Status of a reply to a request whose generation failed.
pub const STATUS_INTERNAL_SERVER_ERROR: u16 = 500;

} // verus!
