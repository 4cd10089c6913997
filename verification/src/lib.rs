//! Core of an LLM gateway: one normalized chat/embedding interface over
//! heterogeneous model backends, with per-provider token lifecycles, a
//! hot-reloadable tool registry, and a bounded-history conversation loop.
//!
//! Network transport, timers, and plugin loading live outside this crate;
//! every decision the gateway makes (what to send, how to schedule a token
//! refresh, which tool calls to execute, when a request has failed) is
//! implemented and verified here.
use vstd::prelude::*;

pub mod auth;
pub mod codec;
pub mod config;
pub mod history;
pub mod json;
pub mod msg;
pub mod provider;
pub mod registry;
pub mod retry;
pub mod services;
pub mod strutil;
pub mod token;
pub mod tool;

verus! {

/// The gateway's error taxonomy. Background errors (refresh or rescan
/// failures) are retried and never surface here; these variants are the
/// client-visible failures of a chat or embedding request, plus the
/// failures of the initial token exchange.
#[derive(Clone, Debug, PartialEq, Eq)]
pub enum LlmError {
    /// The token exchange failed: network trouble, a non-success status,
    /// or a malformed payload.
    Auth(String),
    /// The retry budget against the upstream was exhausted.
    Transport,
    /// The upstream answered with a non-success status.
    Upstream(u16),
    /// The upstream's payload did not match the expected schema.
    Decode(String),
    /// The requested provider identifier is not registered.
    ProviderNotFound(String),
    /// An embedding response carried zero entries.
    EmptyResult,
    /// A chat response carried no usable message.
    NoMessage,
}

impl LlmError {
    /// The human-readable description served to the client; for an
    /// unregistered provider it carries the (uppercased) provider name.
    pub fn message(&self) -> (r: String)
        ensures
            self matches LlmError::ProviderNotFound(name) ==> r@ == "unsupported provider - "@
                + name@,
            self matches LlmError::Auth(detail) ==> r@ == "auth failed: "@ + detail@,
            self matches LlmError::Decode(detail) ==> r@ == "malformed response: "@ + detail@,
            self matches LlmError::Transport ==> r@ == "transport error: retries exhausted"@,
            self matches LlmError::Upstream(status) ==> r@ == "upstream returned status "@
                + crate::strutil::spec_decimal(status as int),
            self matches LlmError::EmptyResult ==> r@ == "empty embedding result"@,
            self matches LlmError::NoMessage ==> r@ == "No valid message in response"@,
    {
        match self {
            LlmError::Auth(detail) => "auth failed: ".to_owned().concat(detail.as_str()),
            LlmError::Transport => "transport error: retries exhausted".to_owned(),
            LlmError::Upstream(status) => "upstream returned status ".to_owned().concat(
                crate::strutil::u16_decimal(*status).as_str(),
            ),
            LlmError::Decode(detail) => "malformed response: ".to_owned().concat(detail.as_str()),
            LlmError::ProviderNotFound(name) => "unsupported provider - ".to_owned().concat(
                name.as_str(),
            ),
            LlmError::EmptyResult => "empty embedding result".to_owned(),
            LlmError::NoMessage => "No valid message in response".to_owned(),
        }
    }
}

/// Pushing onto a vector appends its element's image to the vector's image.
pub proof fn lemma_deep_view_push<T: DeepView>(pre: Vec<T>, post: Vec<T>, m: T)
    requires
        post@ == pre@.push(m),
    ensures
        post.deep_view() =~= pre.deep_view().push(m.deep_view()),
{
    assert forall|j: int| 0 <= j < post.deep_view().len() implies post.deep_view()[j]
        == pre.deep_view().push(m.deep_view())[j] by {
        if j < pre@.len() {
            assert(post@[j] == pre@[j]);
        } else {
            assert(post@[j] == m);
        }
    }
}

/// The message for an unregistered provider contains the provider name
/// verbatim, so the client can see which identifier was refused.
pub proof fn lemma_provider_not_found_names_provider(name: String)
    ensures
        ({
            let msg = "unsupported provider - "@ + name@;
            msg.subrange(msg.len() - name@.len(), msg.len() as int) == name@
        }),
{
    let msg = "unsupported provider - "@ + name@;
    assert(msg.subrange(msg.len() - name@.len(), msg.len() as int) =~= name@);
}

} // verus!
