//! What is sent to the Gemini API and what comes back, as far as it is used:
//! the parts of a request, and the text of an answer.

use vstd::prelude::*;
use vstd::string::*;
use base64::Engine;

verus! {

/// An answer of the API.
#[derive(Debug, Clone)]
pub struct LLMResponse {
    pub candidates: Vec<Candidate>,
}

/// One candidate of an answer.
#[derive(Debug, Clone)]
pub struct Candidate {
    pub content: Content,
}

/// Content of a request or of an answer: its parts, and who wrote it.
#[derive(Debug, Clone)]
pub struct Content {
    pub parts: Vec<Part>,
    pub role: Option<String>,
}

/// One part of a content.
#[derive(Debug, Clone)]
pub struct Part {
    pub thought: Option<bool>,
    pub thought_signature: Option<String>,
    pub data: PartData,
}

/// What a part holds: text, or data of some media type.
#[derive(Debug, Clone)]
pub enum PartData {
    Text { text: String },
    InlineData { inline_data: InlineData },
}

/// Data of a media type, in base64.
#[derive(Debug, Clone)]
pub struct InlineData {
    pub mime_type: String,
    pub data: String,
}

/// Why an answer holds no text.
#[derive(Debug, Clone, Copy, PartialEq, Eq, Structural)]
pub enum ContentError {
    /// The answer has no candidate, or its first candidate has no part.
    NoContent,
    /// The first part of the first candidate is no text.
    NotText,
}

/// The standard base64 encoding of `bytes`, with padding. Stands for
/// `Engine::encode` of `base64::engine::general_purpose::STANDARD`.
pub uninterp spec fn base64_text(bytes: Seq<u8>) -> Seq<char>;

/// Calls `Engine::encode` of the engine `general_purpose::STANDARD` of the
/// `base64` crate on `bytes`. The result is what `base64_text` names.
#[verifier::external_body]
fn base64_standard(bytes: &[u8]) -> (r: String)
    ensures
        r@ == base64_text(bytes@),
{
    base64::engine::general_purpose::STANDARD.encode(bytes)
}

/// A part that holds `text` and nothing else.
pub open spec fn is_text_part(part: Part, text: Seq<char>) -> bool {
    &&& part.thought is None
    &&& part.thought_signature is None
    &&& part.data matches PartData::Text { text: held } && held@ == text
}

/// A part that holds data of the type `mime_type` and nothing else.
pub open spec fn is_data_part(part: Part, mime_type: Seq<char>, data: Seq<char>) -> bool {
    &&& part.thought is None
    &&& part.thought_signature is None
    &&& part.data matches PartData::InlineData { inline_data } && inline_data.mime_type@ == mime_type
        && inline_data.data@ == data
}

fn text_part(text: String) -> (r: Part)
    ensures
        is_text_part(r, text@),
{
    Part { thought: None, thought_signature: None, data: PartData::Text { text } }
}

impl LLMResponse {
    /// The text of the answer: that of the first part of the first candidate.
    pub open spec fn text(self) -> Result<Seq<char>, ContentError> {
        if self.candidates@.len() == 0 || self.candidates@[0].content.parts@.len() == 0 {
            Err(ContentError::NoContent)
        } else {
            match self.candidates@[0].content.parts@[0].data {
                PartData::Text { text } => Ok(text@),
                PartData::InlineData { inline_data } => Err(ContentError::NotText),
            }
        }
    }

    /// The text of the answer, or the reason why it holds none.
    pub fn first_text(&self) -> (r: Result<&str, ContentError>)
        ensures
            match r {
                Ok(text) => self.text() == Ok::<Seq<char>, ContentError>(text@),
                Err(fault) => self.text() == Err::<Seq<char>, ContentError>(fault),
            },
    {
        if self.candidates.len() == 0 || self.candidates[0].content.parts.len() == 0 {
            return Err(ContentError::NoContent);
        }
        match &self.candidates[0].content.parts[0].data {
            PartData::Text { text } => Ok(text.as_str()),
            PartData::InlineData { inline_data } => Err(ContentError::NotText),
        }
    }
}

/// The contents of a request that asks with `text` alone: one content of one
/// text part, without a role.
pub fn build_text_content(text: String) -> (r: Vec<Content>)
    ensures
        r@.len() == 1,
        r@[0].role is None,
        r@[0].parts@.len() == 1,
        is_text_part(r@[0].parts@[0], text@),
{
    let mut parts: Vec<Part> = Vec::new();
    parts.push(text_part(text));
    let mut contents: Vec<Content> = Vec::new();
    contents.push(Content { parts, role: None });
    contents
}

/// The contents of a request that sends data of the type `mime_type` and asks
/// with `request_text`: one content without a role, whose first part holds
/// the data in base64 and whose second part holds the text.
pub fn build_inline_data_content(bytes: &[u8], mime_type: &str, request_text: String) -> (r: Vec<Content>)
    ensures
        r@.len() == 1,
        r@[0].role is None,
        r@[0].parts@.len() == 2,
        is_data_part(r@[0].parts@[0], mime_type@, base64_text(bytes@)),
        is_text_part(r@[0].parts@[1], request_text@),
{
    let inline_data = InlineData { mime_type: String::from_str(mime_type), data: base64_standard(bytes) };
    let mut parts: Vec<Part> = Vec::new();
    parts.push(
        Part { thought: None, thought_signature: None, data: PartData::InlineData { inline_data } },
    );
    parts.push(text_part(request_text));
    let mut contents: Vec<Content> = Vec::new();
    contents.push(Content { parts, role: None });
    contents
}

/// The system instruction of a request, where there is one: a content of one
/// text part, without a role.
pub fn build_system_instruction(system_instruction: Option<String>) -> (r: Option<Content>)
    ensures
        r is Some <==> system_instruction is Some,
        r matches Some(content) ==> content.role is None && content.parts@.len() == 1 && is_text_part(
            content.parts@[0],
            system_instruction.unwrap()@,
        ),
{
    match system_instruction {
        Some(instruction) => {
            let mut parts: Vec<Part> = Vec::new();
            parts.push(text_part(instruction));
            Some(Content { parts, role: None })
        },
        None => None,
    }
}

} // verus!
