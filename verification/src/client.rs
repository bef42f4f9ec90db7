//! The generation client without its transport: where a payload is sent,
//! and what each outcome of sending it means. The caller performs the HTTP
//! exchange and reports back what happened.

use crate::error::{IdeaError, IdeaErrorView};
use crate::extract::{extract_idea, extraction, idea_outcome};
use crate::idea::{
    validate, validated, GenerationPayload, IdeaRequest, IdeaResponse, IdeaView, PayloadView,
};
use crate::text::{all_white_space, lemma_blank_is_all_white_space};
use vstd::prelude::*;
use vstd::string::*;

verus! {

/// What the client is configured with, once, when the process starts.
#[derive(Debug, PartialEq, Eq)]
pub struct ClientConfig {
    /// The credential for the upstream service, if one was found.
    pub credential: Option<String>,
}

/// The address of the upstream service up to the credential, which is the
/// value of its last query parameter.
pub const ENDPOINT: &'static str =
    "https://generativelanguage.googleapis.com/v1beta/models/gemini-1.5-flash:generateContent?key=";

/// The address to call with `credential`.
pub open spec fn endpoint_url(credential: Seq<char>) -> Seq<char> {
    ENDPOINT@ + credential
}

/// One call to the upstream service: the address and what is posted to it.
#[derive(Debug, PartialEq, Eq)]
pub struct OutboundCall {
    pub url: String,
    pub payload: GenerationPayload,
}

/// An `OutboundCall` as sequences.
pub struct CallView {
    pub url: Seq<char>,
    pub payload: PayloadView,
}

impl View for OutboundCall {
    type V = CallView;

    open spec fn view(&self) -> CallView {
        CallView { url: self.url@, payload: self.payload@ }
    }
}

/// The call that carries `payload`: there is one exactly when a credential
/// is configured and is not empty.
pub open spec fn addressed(credential: Option<Seq<char>>, payload: PayloadView) -> Result<
    CallView,
    IdeaErrorView,
> {
    match credential {
        Some(key) => if key.len() > 0 {
            Ok(CallView { url: endpoint_url(key), payload })
        } else {
            Err(IdeaErrorView::Configuration)
        },
        None => Err(IdeaErrorView::Configuration),
    }
}

/// What becomes of a request before anything is sent: validation comes
/// first, the credential second.
pub open spec fn prepared(prompt: Seq<char>, credential: Option<Seq<char>>) -> Result<
    CallView,
    IdeaErrorView,
> {
    match validated(prompt) {
        Ok(payload) => addressed(credential, payload),
        Err(error) => Err(error),
    }
}

/// A call and an error, each by its view.
pub open spec fn call_outcome(r: Result<OutboundCall, IdeaError>) -> Result<
    CallView,
    IdeaErrorView,
> {
    match r {
        Ok(call) => Ok(call@),
        Err(error) => Err(error@),
    }
}

/// Addresses `payload` to the upstream service.
///
/// Without a credential, or with an empty one, there is nothing to send and
/// the request fails as a configuration error.
pub fn address(config: &ClientConfig, payload: GenerationPayload) -> (r: Result<
    OutboundCall,
    IdeaError,
>)
    ensures
        call_outcome(r) == addressed(config.credential.deep_view(), payload@),
{
    match &config.credential {
        Some(key) => {
            if key.as_str().is_empty() {
                Err(IdeaError::Configuration)
            } else {
                let mut url = String::from_str(ENDPOINT);
                url.append(key.as_str());
                Ok(OutboundCall { url, payload })
            }
        },
        None => Err(IdeaError::Configuration),
    }
}

/// Takes a request up to the point where something is to be sent: the
/// call to make, or the error to answer with.
///
/// There is a call exactly when the prompt is not all white space and a
/// credential is configured that is not empty. A prompt that is all white
/// space is a validation error whatever is configured, so that nothing is
/// ever sent for it.
pub fn prepare(config: &ClientConfig, request: &IdeaRequest) -> (r: Result<
    OutboundCall,
    IdeaError,
>)
    ensures
        call_outcome(r) == prepared(request.prompt@, config.credential.deep_view()),
        all_white_space(request.prompt@) ==> call_outcome(r) == Err::<CallView, IdeaErrorView>(
            IdeaErrorView::Validation,
        ),
        r is Ok <==> !all_white_space(request.prompt@) && config.credential is Some
            && config.credential->0@.len() > 0,
{
    proof {
        lemma_blank_is_all_white_space(request.prompt@);
    }
    match validate(request) {
        Ok(payload) => address(config, payload),
        Err(error) => Err(error),
    }
}

/// What became of sending a call.
#[derive(Debug, PartialEq, Eq)]
pub enum SendOutcome {
    /// The upstream service could not be reached.
    Unreachable,
    /// The upstream service answered: the code of its status, and the status
    /// as the HTTP client writes it out.
    Answered { code: u16, status: String },
}

/// A `SendOutcome` with its text as a sequence of characters.
pub enum SendOutcomeView {
    Unreachable,
    Answered { code: u16, status: Seq<char> },
}

impl View for SendOutcome {
    type V = SendOutcomeView;

    open spec fn view(&self) -> SendOutcomeView {
        match *self {
            SendOutcome::Unreachable => SendOutcomeView::Unreachable,
            SendOutcome::Answered { code, status } => SendOutcomeView::Answered {
                code,
                status: status@,
            },
        }
    }
}

/// A status code of the success class of HTTP: 200 to 299.
pub open spec fn is_success(code: u16) -> bool {
    200 <= code < 300
}

/// The error that an outcome of sending amounts to, if it is one: an
/// unreachable service is a delivery failure, a status outside the success
/// class an upstream error with that status.
pub open spec fn send_error(outcome: SendOutcomeView) -> Option<IdeaErrorView> {
    match outcome {
        SendOutcomeView::Unreachable => Some(IdeaErrorView::Delivery),
        SendOutcomeView::Answered { code, status } => if is_success(code) {
            None
        } else {
            Some(IdeaErrorView::UpstreamStatus { code, status })
        },
    }
}

/// Judges what became of sending a call: `Ok` says that the answer's body
/// is to be read next, an error ends the request.
pub fn after_send(outcome: SendOutcome) -> (r: Result<(), IdeaError>)
    ensures
        send_error(outcome@) == match r {
            Ok(_) => None::<IdeaErrorView>,
            Err(error) => Some(error@),
        },
{
    match outcome {
        SendOutcome::Unreachable => Err(IdeaError::Delivery),
        SendOutcome::Answered { code, status } => {
            if 200 <= code && code < 300 {
                Ok(())
            } else {
                Err(IdeaError::UpstreamStatus { code, status })
            }
        },
    }
}

/// What the body of a successful answer comes to: a body that could not be
/// read is a failure of its own; one that was read is handed to extraction.
pub open spec fn concluded(body: Option<Seq<char>>) -> Result<IdeaView, IdeaErrorView> {
    match body {
        Some(text) => extraction(text),
        None => Err(IdeaErrorView::BodyRead),
    }
}

/// Ends a request whose call was answered with success: `body` is what was
/// read of the answer, or nothing where reading failed.
pub fn after_body(body: Option<&str>) -> (r: Result<IdeaResponse, IdeaError>)
    ensures
        idea_outcome(r) == concluded(body.deep_view()),
{
    match body {
        Some(text) => extract_idea(text),
        None => Err(IdeaError::BodyRead),
    }
}

} // verus!
