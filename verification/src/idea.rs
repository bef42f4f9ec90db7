//! The request for an idea, the idea itself, and the validator that turns a
//! request into what is sent upstream.

use crate::error::{IdeaError, IdeaErrorView};
use crate::text::{
    all_white_space, blank, is_blank, lemma_blank_is_all_white_space, occurs_at, occurs_in,
};
use vstd::prelude::*;
use vstd::string::*;

verus! {

/// What a caller asks for: an idea for the concept in `prompt`.
#[derive(Debug, PartialEq, Eq)]
pub struct IdeaRequest {
    pub prompt: String,
}

/// A token idea: the only thing the upstream model's text is accepted as.
#[derive(Debug, PartialEq, Eq)]
pub struct IdeaResponse {
    pub name: String,
    pub symbol: String,
    pub description: String,
}

/// An `IdeaResponse` with its texts as sequences of characters.
pub struct IdeaView {
    pub name: Seq<char>,
    pub symbol: Seq<char>,
    pub description: Seq<char>,
}

impl View for IdeaResponse {
    type V = IdeaView;

    open spec fn view(&self) -> IdeaView {
        IdeaView { name: self.name@, symbol: self.symbol@, description: self.description@ }
    }
}

impl DeepView for IdeaResponse {
    type V = IdeaView;

    open spec fn deep_view(&self) -> IdeaView {
        self@
    }
}

/// One piece of text inside an envelope.
#[derive(Debug, PartialEq, Eq)]
pub struct TextPart {
    pub text: String,
}

impl View for TextPart {
    type V = Seq<char>;

    open spec fn view(&self) -> Seq<char> {
        self.text@
    }
}

impl DeepView for TextPart {
    type V = Seq<char>;

    open spec fn deep_view(&self) -> Seq<char> {
        self@
    }
}

/// One turn of a conversation: who speaks, and the pieces of what is said.
#[derive(Debug, PartialEq, Eq)]
pub struct GenerationEnvelope {
    pub role: String,
    pub content: Vec<TextPart>,
}

/// A `GenerationEnvelope` as sequences.
pub struct EnvelopeView {
    pub role: Seq<char>,
    pub content: Seq<Seq<char>>,
}

impl View for GenerationEnvelope {
    type V = EnvelopeView;

    open spec fn view(&self) -> EnvelopeView {
        EnvelopeView { role: self.role@, content: self.content.deep_view() }
    }
}

impl DeepView for GenerationEnvelope {
    type V = EnvelopeView;

    open spec fn deep_view(&self) -> EnvelopeView {
        self@
    }
}

/// What is sent upstream: the turns of the conversation.
#[derive(Debug, PartialEq, Eq)]
pub struct GenerationPayload {
    pub contents: Vec<GenerationEnvelope>,
}

/// A `GenerationPayload` as sequences.
pub struct PayloadView {
    pub contents: Seq<EnvelopeView>,
}

impl View for GenerationPayload {
    type V = PayloadView;

    open spec fn view(&self) -> PayloadView {
        PayloadView { contents: self.contents.deep_view() }
    }
}

/// The payload of a conversation with one turn, spoken by the user, in one
/// piece: `text`.
pub open spec fn single_turn(text: Seq<char>) -> PayloadView {
    PayloadView { contents: seq![EnvelopeView { role: "user"@, content: seq![text] }] }
}

impl GenerationPayload {
    /// The payload that says `text` in a single turn of the user.
    pub fn single_turn(text: String) -> (payload: GenerationPayload)
        ensures
            payload@ == single_turn(text@),
    {
        let mut content: Vec<TextPart> = Vec::new();
        content.push(TextPart { text });
        let mut contents: Vec<GenerationEnvelope> = Vec::new();
        contents.push(GenerationEnvelope { role: String::from_str("user"), content });
        let payload = GenerationPayload { contents };
        proof {
            assert(payload.contents@[0].content.deep_view() =~= seq![text@]);
            assert(payload.contents.deep_view() =~= single_turn(text@).contents);
        }
        payload
    }
}

/// What the instruction says before it quotes the prompt.
pub const INSTRUCTION_LEAD: &'static str =
    "Based on the following concept, generate a creative token name, a 3-5 character stock market-style ticker symbol, and a short, compelling description for a Solana SPL token. The entire response must be ONLY the raw JSON object, with no extra text, explanations, or markdown formatting. Concept: \"";

/// What closes the quotation of the prompt.
pub const INSTRUCTION_CLOSE: &'static str = "\"";

/// The instruction for the upstream model: the fixed lead, then `prompt` as
/// it was given, in quotation marks.
pub open spec fn instruction(prompt: Seq<char>) -> Seq<char> {
    INSTRUCTION_LEAD@ + prompt + INSTRUCTION_CLOSE@
}

/// The instruction quotes the prompt character for character.
pub proof fn lemma_instruction_quotes_prompt(prompt: Seq<char>)
    ensures
        occurs_in(prompt, instruction(prompt)),
{
    let at = INSTRUCTION_LEAD@.len() as int;
    assert(instruction(prompt).subrange(at, at + prompt.len()) =~= prompt);
    assert(occurs_at(prompt, instruction(prompt), at));
}

/// Writes the instruction for `prompt`.
pub fn instruction_text(prompt: &str) -> (text: String)
    ensures
        text@ == instruction(prompt@),
        occurs_in(prompt@, text@),
{
    let mut text = String::from_str(INSTRUCTION_LEAD);
    text.append(prompt);
    text.append(INSTRUCTION_CLOSE);
    proof {
        lemma_instruction_quotes_prompt(prompt@);
    }
    text
}

/// What validation makes of a prompt: a blank one is refused, any other is
/// put into the instruction and sent as a single turn.
pub open spec fn validated(prompt: Seq<char>) -> Result<PayloadView, IdeaErrorView> {
    if blank(prompt) {
        Err(IdeaErrorView::Validation)
    } else {
        Ok(single_turn(instruction(prompt)))
    }
}

/// A payload and an error, each by its view.
pub open spec fn payload_outcome(r: Result<GenerationPayload, IdeaError>) -> Result<
    PayloadView,
    IdeaErrorView,
> {
    match r {
        Ok(payload) => Ok(payload@),
        Err(error) => Err(error@),
    }
}

/// Validates `request` and builds what is to be sent upstream for it.
///
/// A request whose prompt trims to nothing, which is to say a prompt that
/// is empty or all white space, is refused. Every other request yields the
/// single-turn payload whose text is the instruction, and that text holds
/// the prompt as it was given.
pub fn validate(request: &IdeaRequest) -> (r: Result<GenerationPayload, IdeaError>)
    ensures
        payload_outcome(r) == validated(request.prompt@),
        r is Err <==> blank(request.prompt@),
        r is Err <==> all_white_space(request.prompt@),
        r matches Err(error) ==> error@ == IdeaErrorView::Validation,
        r matches Ok(payload) ==> payload@.contents.len() == 1
            && payload@.contents[0].content.len() == 1 && occurs_in(
            request.prompt@,
            payload@.contents[0].content[0],
        ),
{
    proof {
        lemma_blank_is_all_white_space(request.prompt@);
    }
    if is_blank(request.prompt.as_str()) {
        Err(IdeaError::Validation)
    } else {
        Ok(GenerationPayload::single_turn(instruction_text(request.prompt.as_str())))
    }
}

} // verus!
