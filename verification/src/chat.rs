//! The exchange with the caller: the request that comes in and the reply that
//! goes out.

use crate::config::{RESPONSE_PREFIX, STATUS_INTERNAL_SERVER_ERROR, STATUS_OK};
use crate::infer::{text_of, InferError};
use crate::request::GenerationRequest;
use vstd::prelude::*;
use vstd::string::*;

verus! {

/// The body of a request: the prompt that seeds the generation. Nothing is
/// asked of the prompt; it may be empty.
pub struct ChatRequest {
    pub prompt: String,
}

impl ChatRequest {
    /// What the service asks of the engine for this request.
    pub fn generation(&self) -> (request: GenerationRequest)
        ensures
            request.is_for(self.prompt@),
    {
        GenerationRequest::for_prompt(self.prompt.as_str())
    }
}

/// The body of a successful reply.
pub struct ChatResponse {
    pub response: String,
}

/// A reply: its status and, where it has one, its body.
pub struct Reply {
    pub status: u16,
    pub body: Option<ChatResponse>,
}

/// What a [`Reply`] stands for: the status and the `response` text of the
/// body.
pub struct ReplyView {
    pub status: u16,
    pub body: Option<Seq<char>>,
}

impl ReplyView {
    /// The service knows two replies: status 200 with a body, and status 500
    /// without one.
    pub open spec fn well_formed(self) -> bool {
        ||| self.status == STATUS_OK && self.body is Some
        ||| self.status == STATUS_INTERNAL_SERVER_ERROR && self.body is None
    }
}

impl View for Reply {
    type V = ReplyView;

    open spec fn view(&self) -> ReplyView {
        ReplyView {
            status: self.status,
            body: match self.body {
                Some(response) => Some(response.response@),
                None => None,
            },
        }
    }
}

/// What was done with a request: the reply for the caller and, if the
/// generation failed, the failure, which is for the log and not for the
/// caller.
pub struct Handled {
    pub reply: Reply,
    pub failure: Option<InferError>,
}

/// The `response` text for the generated text `generated`.
pub open spec fn response_text(generated: Seq<char>) -> Seq<char> {
    RESPONSE_PREFIX@ + generated
}

/// The reply to a request whose generation ended with `outcome`: the
/// generated text behind the prefix, with status 200, or status 500 and no
/// body, whatever the failure was.
pub open spec fn reply_for(outcome: Result<Seq<char>, InferError>) -> ReplyView {
    match outcome {
        Ok(generated) => ReplyView { status: STATUS_OK, body: Some(response_text(generated)) },
        Err(_) => ReplyView { status: STATUS_INTERNAL_SERVER_ERROR, body: None },
    }
}

/// The failure of a generation, if it failed.
pub open spec fn failure_of(result: Result<String, InferError>) -> Option<InferError> {
    match result {
        Ok(_) => None,
        Err(error) => Some(error),
    }
}

/// The `response` text for `generated`: the prefix, then the generated text
/// as it is.
pub fn response_message(generated: &str) -> (message: String)
    ensures
        message@ == response_text(generated@),
        RESPONSE_PREFIX@.is_prefix_of(message@),
{
    let mut message = RESPONSE_PREFIX.to_owned();
    message.append(generated);
    message
}

/// Turns the result of a generation into what the service does with it.
pub fn respond(result: Result<String, InferError>) -> (handled: Handled)
    ensures
        handled.reply@ == reply_for(text_of(result)),
        handled.failure == failure_of(result),
        handled.reply@.well_formed(),
        result is Ok ==> handled.reply.status == STATUS_OK && (handled.reply@.body matches Some(
            body,
        ) && RESPONSE_PREFIX@.is_prefix_of(body)),
        result is Err ==> handled.reply.status == STATUS_INTERNAL_SERVER_ERROR
            && handled.reply.body is None,
{
    match result {
        Ok(generated) => {
            let response = response_message(generated.as_str());
            Handled {
                reply: Reply { status: STATUS_OK, body: Some(ChatResponse { response }) },
                failure: None,
            }
        },
        Err(error) => Handled {
            reply: Reply { status: STATUS_INTERNAL_SERVER_ERROR, body: None },
            failure: Some(error),
        },
    }
}

/// Every reply of the service is one of the two that it knows.
pub proof fn lemma_reply_is_well_formed(outcome: Result<Seq<char>, InferError>)
    ensures
        reply_for(outcome).well_formed(),
{
}

/// A successful generation is answered with status 200 and a body that
/// starts with the prefix and goes on with exactly the generated text,
/// whatever that text is.
pub proof fn lemma_success_reply(generated: Seq<char>)
    ensures
        reply_for(Ok(generated)).status == STATUS_OK,
        reply_for(Ok(generated)).body matches Some(body) && RESPONSE_PREFIX@.is_prefix_of(body)
            && body.skip(RESPONSE_PREFIX@.len() as int) == generated,
{
    let body = response_text(generated);
    assert(body.skip(RESPONSE_PREFIX@.len() as int) =~= generated);
}

/// A failed generation is answered with status 500 and no body, and the
/// reply is the same for every failure: nothing of the failure reaches the
/// caller.
pub proof fn lemma_failure_reply(failure: InferError, other: InferError)
    ensures
        reply_for(Err(failure)).status == STATUS_INTERNAL_SERVER_ERROR,
        reply_for(Err(failure)).body is None,
        reply_for(Err(failure)) == reply_for(Err(other)),
{
}

/// The same prompt asked twice: the two generations may give different
/// texts, and each is answered as if it were the only one, with status 200
/// and its own text behind the prefix.
pub proof fn lemma_asked_twice(first: Seq<char>, second: Seq<char>)
    ensures
        reply_for(Ok(first)).status == STATUS_OK,
        reply_for(Ok(second)).status == STATUS_OK,
        reply_for(Ok(first)).body == Some(RESPONSE_PREFIX@ + first),
        reply_for(Ok(second)).body == Some(RESPONSE_PREFIX@ + second),
        first == second ==> reply_for(Ok(first)) == reply_for(Ok(second)),
{
}

/// The replies to several requests, one for each outcome.
pub open spec fn replies_for(outcomes: Seq<Result<Seq<char>, InferError>>) -> Seq<ReplyView> {
    Seq::new(outcomes.len(), |i: int| reply_for(outcomes[i]))
}

/// Requests that are served side by side do not touch each other: the reply
/// to each is the one that its own outcome gives, success or failure, and it
/// stays the same when the outcomes of the others change.
pub proof fn lemma_replies_are_independent(
    outcomes: Seq<Result<Seq<char>, InferError>>,
    others: Seq<Result<Seq<char>, InferError>>,
    i: int,
)
    requires
        outcomes.len() >= 2,
        others.len() == outcomes.len(),
        0 <= i < outcomes.len(),
        others[i] == outcomes[i],
    ensures
        replies_for(outcomes)[i] == reply_for(outcomes[i]),
        replies_for(outcomes)[i] == replies_for(others)[i],
        outcomes[i] is Ok ==> replies_for(outcomes)[i].status == STATUS_OK,
        outcomes[i] is Err ==> replies_for(outcomes)[i].status == STATUS_INTERNAL_SERVER_ERROR
            && replies_for(outcomes)[i].body is None,
{
}

} // verus!
