//! The caller's completion request, its normalization against the registry,
//! and the outbound attempt built for one provider.

use vstd::prelude::*;
use crate::json::JsonValue;
use crate::registry::Provider;
use crate::registry::ProviderRegistry;

verus! {

/// One chat message of the request body.
#[derive(Debug, PartialEq, Eq)]
pub struct ChatMessage {
    pub role: String,
    pub content: String,
}

/// A caller-supplied completion request: the messages, the optional model
/// identifier, the optional stream flag, and the remaining parameters
/// carried through untouched.
#[derive(Debug, PartialEq)]
pub struct CompletionRequest {
    pub messages: Vec<ChatMessage>,
    pub model: Option<String>,
    pub stream: Option<bool>,
    pub extra: Vec<(String, JsonValue)>,
}

impl CompletionRequest {
    /// Whether the caller asked for a streamed response.
    pub fn wants_stream(&self) -> (r: bool)
        ensures
            r == (self.stream == Some(true)),
    {
        match self.stream {
            Some(b) => b,
            None => false,
        }
    }
}

/// The model a request is dispatched under: the requested one if the
/// registry knows it, otherwise the default (first-registered) provider's.
pub open spec fn chosen_model(requested: Option<String>, reg: ProviderRegistry) -> Seq<char> {
    match requested {
        Some(m) => if reg.models().contains(m@) {
            m@
        } else {
            reg.models()[0]
        },
        None => reg.models()[0],
    }
}

/// Set the request's model: an unset or unknown model identifier is
/// silently replaced by the default provider's, a known one is kept.
/// Nothing else of the request changes.
pub fn normalize_model(req: &mut CompletionRequest, reg: &ProviderRegistry)
    requires
        reg.providers@.len() > 0,
    ensures
        final(req).model matches Some(m) && m@ == chosen_model(old(req).model, *reg),
        final(req).messages == old(req).messages,
        final(req).stream == old(req).stream,
        final(req).extra == old(req).extra,
{
    let keep = match &req.model {
        Some(m) => reg.knows_model(m),
        None => false,
    };
    if !keep {
        req.model = Some(reg.default_model());
    }
}

/// An unset model, and a model no configured provider carries, are both
/// dispatched under the first-registered provider's model identifier.
pub proof fn lemma_default_for_unknown_model(requested: Option<String>, reg: ProviderRegistry)
    requires
        reg.providers@.len() > 0,
        requested matches Some(m) ==> !reg.models().contains(m@),
    ensures
        chosen_model(requested, reg) == reg.providers@[0].model@,
{
}

/// One outbound call, ready for a single provider: its endpoint, its
/// credential, and the request body rewritten to its model.
#[derive(Debug, PartialEq)]
pub struct UpstreamAttempt {
    pub url: String,
    pub credential: String,
    pub body: CompletionRequest,
}

/// Build the attempt for one provider: whatever the caller requested, the
/// outbound body carries this provider's own model identifier; everything
/// else is passed through unchanged.
pub fn build_attempt(req: CompletionRequest, p: &Provider) -> (r: UpstreamAttempt)
    ensures
        r.url == p.endpoint_url,
        r.credential == p.credential,
        r.body.model matches Some(m) && m == p.model,
        r.body.messages == req.messages,
        r.body.stream == req.stream,
        r.body.extra == req.extra,
{
    UpstreamAttempt {
        url: p.endpoint_url.clone(),
        credential: p.credential.clone(),
        body: CompletionRequest {
            messages: req.messages,
            model: Some(p.model.clone()),
            stream: req.stream,
            extra: req.extra,
        },
    }
}

} // verus!
