//! What can go wrong while an idea is generated or a submission is read, and
//! what the caller is told about it.

use vstd::prelude::*;
use vstd::string::*;

verus! {

/// Why a request for an idea was not answered with an idea.
#[derive(Debug, PartialEq, Eq)]
pub enum IdeaError {
    /// No credential for the upstream service is configured.
    Configuration,
    /// The prompt is blank.
    Validation,
    /// The upstream service could not be reached.
    Delivery,
    /// The upstream service answered with a status that is no success:
    /// its code, and the status as the HTTP client writes it out.
    UpstreamStatus { code: u16, status: String },
    /// The upstream answer could not be read to its end.
    BodyRead,
    /// The upstream answer is not JSON.
    ResponseParse,
    /// The upstream answer lacks the path to the generated text.
    Structure,
    /// The generated text is not an idea.
    ContentSchema,
}

/// An `IdeaError` with its text as a sequence of characters.
pub enum IdeaErrorView {
    Configuration,
    Validation,
    Delivery,
    UpstreamStatus { code: u16, status: Seq<char> },
    BodyRead,
    ResponseParse,
    Structure,
    ContentSchema,
}

impl View for IdeaError {
    type V = IdeaErrorView;

    open spec fn view(&self) -> IdeaErrorView {
        match *self {
            IdeaError::Configuration => IdeaErrorView::Configuration,
            IdeaError::Validation => IdeaErrorView::Validation,
            IdeaError::Delivery => IdeaErrorView::Delivery,
            IdeaError::UpstreamStatus { code, status } => IdeaErrorView::UpstreamStatus {
                code,
                status: status@,
            },
            IdeaError::BodyRead => IdeaErrorView::BodyRead,
            IdeaError::ResponseParse => IdeaErrorView::ResponseParse,
            IdeaError::Structure => IdeaErrorView::Structure,
            IdeaError::ContentSchema => IdeaErrorView::ContentSchema,
        }
    }
}

/// The HTTP status that reports `error`: the caller's own fault is a bad
/// request, everything else a server-side failure.
pub open spec fn idea_error_status(error: IdeaErrorView) -> u16 {
    match error {
        IdeaErrorView::Validation => 400,
        _ => 500,
    }
}

/// The explanation that is sent with `error`.
pub open spec fn idea_error_message(error: IdeaErrorView) -> Seq<char> {
    match error {
        IdeaErrorView::Configuration => "GEMINI_API_KEY not set in environment"@,
        IdeaErrorView::Validation => "Prompt cannot be empty"@,
        IdeaErrorView::Delivery => "Failed to send request to Gemini API"@,
        IdeaErrorView::UpstreamStatus { code, status } => "Gemini API returned an error: "@
            + status,
        IdeaErrorView::BodyRead => "Failed to read Gemini response body"@,
        IdeaErrorView::ResponseParse => "Failed to parse Gemini response"@,
        IdeaErrorView::Structure => "Unexpected response structure from Gemini"@,
        IdeaErrorView::ContentSchema => "Gemini returned malformed JSON content"@,
    }
}

impl IdeaError {
    /// The HTTP status that reports this error.
    pub fn http_status(&self) -> (status: u16)
        ensures
            status == idea_error_status(self@),
    {
        match self {
            IdeaError::Validation => 400,
            _ => 500,
        }
    }

    /// The explanation that is sent with this error: there always is one.
    pub fn message(&self) -> (text: String)
        ensures
            text@ == idea_error_message(self@),
            text@.len() > 0,
    {
        proof {
            lemma_message_marks(self@);
        }
        match self {
            IdeaError::Configuration => String::from_str("GEMINI_API_KEY not set in environment"),
            IdeaError::Validation => String::from_str("Prompt cannot be empty"),
            IdeaError::Delivery => String::from_str("Failed to send request to Gemini API"),
            IdeaError::UpstreamStatus { code: _, status } => {
                let mut text = String::from_str("Gemini API returned an error: ");
                text.append(status.as_str());
                text
            },
            IdeaError::BodyRead => String::from_str("Failed to read Gemini response body"),
            IdeaError::ResponseParse => String::from_str("Failed to parse Gemini response"),
            IdeaError::Structure => String::from_str("Unexpected response structure from Gemini"),
            IdeaError::ContentSchema => String::from_str("Gemini returned malformed JSON content"),
        }
    }
}

/// Four characters by which the message of each kind of error is known:
/// those at the positions 0, 1, 7 and 10.
proof fn lemma_message_marks(error: IdeaErrorView)
    ensures
        idea_error_message(error).len() > 10,
        error is Configuration ==> idea_error_message(error)[0] == 'G' && idea_error_message(
            error,
        )[1] == 'E',
        error is Validation ==> idea_error_message(error)[0] == 'P',
        error is Delivery ==> idea_error_message(error)[0] == 'F' && idea_error_message(
            error,
        )[10] == 's',
        error is UpstreamStatus ==> idea_error_message(error)[0] == 'G' && idea_error_message(
            error,
        )[1] == 'e' && idea_error_message(error)[7] == 'A',
        error is BodyRead ==> idea_error_message(error)[0] == 'F' && idea_error_message(
            error,
        )[10] == 'r',
        error is ResponseParse ==> idea_error_message(error)[0] == 'F' && idea_error_message(
            error,
        )[10] == 'p',
        error is Structure ==> idea_error_message(error)[0] == 'U',
        error is ContentSchema ==> idea_error_message(error)[0] == 'G' && idea_error_message(
            error,
        )[1] == 'e' && idea_error_message(error)[7] == 'r',
{
    reveal_strlit("GEMINI_API_KEY not set in environment");
    reveal_strlit("Prompt cannot be empty");
    reveal_strlit("Failed to send request to Gemini API");
    reveal_strlit("Gemini API returned an error: ");
    reveal_strlit("Failed to read Gemini response body");
    reveal_strlit("Failed to parse Gemini response");
    reveal_strlit("Unexpected response structure from Gemini");
    reveal_strlit("Gemini returned malformed JSON content");
}

/// Every error is explained in words: no message is empty.
pub proof fn lemma_every_error_is_explained(error: IdeaErrorView)
    ensures
        idea_error_message(error).len() > 0,
{
    lemma_message_marks(error);
}

/// Each kind of error is reported in words of its own: two errors with the
/// same message are of the same kind.
pub proof fn lemma_messages_tell_errors_apart(first: IdeaErrorView, second: IdeaErrorView)
    requires
        idea_error_message(first) == idea_error_message(second),
    ensures
        first is Configuration <==> second is Configuration,
        first is Validation <==> second is Validation,
        first is Delivery <==> second is Delivery,
        first is UpstreamStatus <==> second is UpstreamStatus,
        first is BodyRead <==> second is BodyRead,
        first is ResponseParse <==> second is ResponseParse,
        first is Structure <==> second is Structure,
        first is ContentSchema <==> second is ContentSchema,
{
    lemma_message_marks(first);
    lemma_message_marks(second);
}

/// Why the reading of a multipart body was given up.
#[derive(Debug, Clone, Copy, PartialEq, Eq, Structural)]
pub enum DecodeFailure {
    /// The body's structure is broken: the stream could not hand out its next
    /// field, or handed out something that cannot follow what came before.
    MalformedField,
    /// A chunk of a field's content could not be read.
    ChunkRead,
}

/// The explanation that is sent with `failure`.
pub open spec fn decode_failure_message(failure: DecodeFailure) -> Seq<char> {
    match failure {
        DecodeFailure::MalformedField => "Error reading multipart field"@,
        DecodeFailure::ChunkRead => "Error reading chunk data"@,
    }
}

/// Every failure to read a body is explained in words, and each of the two
/// in words of its own.
pub proof fn lemma_decode_failures_are_explained(first: DecodeFailure, second: DecodeFailure)
    ensures
        decode_failure_message(first).len() > 0,
        decode_failure_message(first) == decode_failure_message(second) ==> first == second,
{
    reveal_strlit("Error reading multipart field");
    reveal_strlit("Error reading chunk data");
    assert("Error reading multipart field"@.len() == 29);
    assert("Error reading chunk data"@.len() == 24);
}

impl DecodeFailure {
    /// The HTTP status that reports this failure: always a server-side one.
    pub fn http_status(&self) -> (status: u16)
        ensures
            status == 500,
    {
        500
    }

    /// The explanation that is sent with this failure: there always is one.
    pub fn message(&self) -> (text: String)
        ensures
            text@ == decode_failure_message(*self),
            text@.len() > 0,
    {
        proof {
            lemma_decode_failures_are_explained(*self, *self);
        }
        match self {
            DecodeFailure::MalformedField => String::from_str("Error reading multipart field"),
            DecodeFailure::ChunkRead => String::from_str("Error reading chunk data"),
        }
    }
}

} // verus!
