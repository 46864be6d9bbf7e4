//! A chat service around a locally loaded language model: the prompt of a
//! request is handed to the inference engine, the text of every token that
//! the engine reports is collected, and the outcome is turned into the reply
//! that goes back to the caller.
//!
//! The library holds what the service decides: what it asks of the engine,
//! what it does with each report, which models it hands to the engine, and
//! what it makes of the outcome. Everything here is a function of its
//! arguments; nothing is shared between two requests.
//!
//! The program that uses the library does the rest: it reads the model file,
//! runs the engine, listens on a socket and encodes JSON. The engine samples
//! with the random number generator of its thread, so asking twice does not
//! give the same text twice, and it can panic on a model that is damaged;
//! that is why the call is not made here.

pub mod chat;
pub mod config;
pub mod infer;
pub mod request;
pub mod transcript;
