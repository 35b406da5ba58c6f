//! The request sent to the daemon's generate endpoint and the reply read
//! from it.

use crate::error::Error;
use crate::json::{json_document, json_member, json_string, json_text, member, parse, quote};
use vstd::prelude::*;
use vstd::string::StringExecFns;

verus! {

/// Address of the daemon's HTTP API.
pub const OLLAMA_API_BASE: &'static str = "http://localhost:11434";

/// Path of the generate endpoint below the API's address.
pub const GENERATE_PATH: &'static str = "/api/generate";

/// Key of the member of a reply that holds the generated text.
pub const RESPONSE_KEY: &'static str = "response";

/// Detail of the failure reported for a reply that holds no generated text.
pub const MISSING_RESPONSE: &'static str = "missing text member `response`";

/// The address a generation request is posted to.
pub fn generate_url() -> (url: String)
    ensures
        url@ == OLLAMA_API_BASE@ + GENERATE_PATH@,
{
    String::from_str(OLLAMA_API_BASE).concat(GENERATE_PATH)
}

/// Request payload of the generate endpoint.
#[derive(Debug, Clone, Copy, PartialEq, Eq)]
pub struct GenerateRequest<'a> {
    /// The model name to use for generation.
    pub model: &'a str,
    /// The prompt text.
    pub prompt: &'a str,
    /// The system prompt.
    pub system: &'a str,
    /// Whether to stream the response.
    pub stream: bool,
}

/// Response payload of the generate endpoint.
#[derive(Debug, PartialEq, Eq)]
pub struct GenerateResponse {
    /// The generated response text.
    pub response: String,
}

/// JSON text of a boolean.
pub open spec fn flag_text(flag: bool) -> Seq<char> {
    if flag {
        "true"@
    } else {
        "false"@
    }
}

/// The body of a request, given the JSON string literals of its three
/// texts: one object with the members `model`, `prompt`, `system` and
/// `stream`, in that order, without white space.
pub open spec fn body_text(
    model: Seq<char>,
    prompt: Seq<char>,
    system: Seq<char>,
    stream: bool,
) -> Seq<char> {
    "{\"model\":"@ + model + ",\"prompt\":"@ + prompt + ",\"system\":"@ + system
        + ",\"stream\":"@ + flag_text(stream) + "}"@
}

/// Writes the body of a request around the JSON string literals of its
/// three texts.
pub fn frame_body(model: &str, prompt: &str, system: &str, stream: bool) -> (body: String)
    ensures
        body@ == body_text(model@, prompt@, system@, stream),
{
    let flag = if stream {
        "true"
    } else {
        "false"
    };
    String::from_str("{\"model\":").concat(model).concat(",\"prompt\":").concat(prompt).concat(
        ",\"system\":",
    ).concat(system).concat(",\"stream\":").concat(flag).concat("}")
}

impl<'a> GenerateRequest<'a> {
    /// A request for one complete, unstreamed reply.
    pub fn new(model: &'a str, prompt: &'a str, system: &'a str) -> (request: Self)
        ensures
            request.model@ == model@,
            request.prompt@ == prompt@,
            request.system@ == system@,
            !request.stream,
    {
        GenerateRequest { model, prompt, system, stream: false }
    }

    /// What encoding the request gives: the JSON body, made of the string
    /// literals of its three texts, or the failure of the first of them, in
    /// the order model, prompt, system, that cannot be written as one.
    pub open spec fn json(self) -> Result<Seq<char>, Seq<char>> {
        match json_string(self.model@) {
            Err(failure) => Err(failure),
            Ok(model) => match json_string(self.prompt@) {
                Err(failure) => Err(failure),
                Ok(prompt) => match json_string(self.system@) {
                    Err(failure) => Err(failure),
                    Ok(system) => Ok(body_text(model, prompt, system, self.stream)),
                },
            },
        }
    }

    /// Encodes the request as the JSON body to post. Where a text of it
    /// cannot be encoded, fails with `Error::Serde` and the codec's own
    /// description of the failure.
    pub fn to_json(&self) -> (encoded: Result<String, Error>)
        ensures
            match self.json() {
                Ok(body) => encoded matches Ok(text) && text@ == body,
                Err(failure) => encoded matches Err(Error::Serde(detail)) && detail@ == failure,
            },
    {
        let model = match quote(self.model) {
            Ok(literal) => literal,
            Err(failure) => {
                return Err(Error::Serde(failure));
            },
        };
        let prompt = match quote(self.prompt) {
            Ok(literal) => literal,
            Err(failure) => {
                return Err(Error::Serde(failure));
            },
        };
        let system = match quote(self.system) {
            Ok(literal) => literal,
            Err(failure) => {
                return Err(Error::Serde(failure));
            },
        };
        Ok(frame_body(model.as_str(), prompt.as_str(), system.as_str(), self.stream))
    }
}

/// What is sent for a request that asks for one complete reply: the body
/// holds the JSON string literals of the model, the prompt and the system
/// prompt under their keys, in that order, and `false` under `stream`.
pub proof fn lemma_unstreamed_body(request: GenerateRequest<'_>)
    requires
        !request.stream,
        request.json() is Ok,
    ensures
        json_string(request.model@) is Ok,
        json_string(request.prompt@) is Ok,
        json_string(request.system@) is Ok,
        request.json() == Ok::<Seq<char>, Seq<char>>(
            "{\"model\":"@ + json_string(request.model@)->Ok_0 + ",\"prompt\":"@ + json_string(
                request.prompt@,
            )->Ok_0 + ",\"system\":"@ + json_string(request.system@)->Ok_0
                + ",\"stream\":false}"@,
        ),
{
    reveal_strlit(",\"stream\":");
    reveal_strlit("false");
    reveal_strlit("}");
    reveal_strlit(",\"stream\":false}");
    assert(",\"stream\":"@ + "false"@ + "}"@ =~= ",\"stream\":false}"@);
    let head = "{\"model\":"@ + json_string(request.model@)->Ok_0 + ",\"prompt\":"@
        + json_string(request.prompt@)->Ok_0 + ",\"system\":"@ + json_string(
        request.system@,
    )->Ok_0;
    assert(head + ",\"stream\":"@ + "false"@ + "}"@ =~= head + ",\"stream\":false}"@);
}

/// What reading a reply body gives: the generated text, which is the text
/// of the member `response` of the document the body holds; or the detail of
/// the failure, which is the codec's own where the body holds no document.
pub open spec fn reply_text(body: Seq<u8>) -> Result<Seq<char>, Seq<char>> {
    match json_document(body) {
        Ok(document) => match json_member(document, RESPONSE_KEY@) {
            Some(value) => match json_text(value) {
                Some(text) => Ok(text),
                None => Err(MISSING_RESPONSE@),
            },
            None => Err(MISSING_RESPONSE@),
        },
        Err(failure) => Err(failure),
    }
}

impl GenerateResponse {
    /// The reply made of what was found under `response` in a decoded
    /// document: the text when there is one, `Error::Serde` when the member
    /// is missing or is no text.
    pub fn from_member(found: Option<&str>) -> (decoded: Result<GenerateResponse, Error>)
        ensures
            match found {
                Some(text) => decoded matches Ok(reply) && reply.response@ == text@,
                None => decoded matches Err(Error::Serde(detail)) && detail@ == MISSING_RESPONSE@,
            },
    {
        match found {
            Some(text) => Ok(GenerateResponse { response: String::from_str(text) }),
            None => Err(Error::Serde(String::from_str(MISSING_RESPONSE))),
        }
    }

    /// Decodes a reply body. Succeeds exactly when the body is a JSON
    /// document with a text member `response`, and then holds that text;
    /// fails with `Error::Serde` otherwise.
    pub fn from_json(body: &[u8]) -> (decoded: Result<GenerateResponse, Error>)
        ensures
            match reply_text(body@) {
                Ok(text) => decoded matches Ok(reply) && reply.response@ == text,
                Err(failure) => decoded matches Err(Error::Serde(detail)) && detail@ == failure,
            },
    {
        match parse(body) {
            Ok(document) => {
                let found = match member(&document, RESPONSE_KEY) {
                    Some(value) => value.as_str(),
                    None => None,
                };
                GenerateResponse::from_member(found)
            },
            Err(failure) => Err(Error::Serde(failure)),
        }
    }
}

/// Maps what came of one request to the reply. `outcome` is the body the
/// daemon answered with, or, where the request could not be completed, the
/// text of that failure, which gives `Error::Reqwest`. A body is decoded as
/// `GenerateResponse::from_json` says.
pub fn read_reply(outcome: Result<Vec<u8>, String>) -> (reply: Result<GenerateResponse, Error>)
    ensures
        match outcome {
            Ok(body) => match reply_text(body@) {
                Ok(text) => reply matches Ok(found) && found.response@ == text,
                Err(failure) => reply matches Err(Error::Serde(detail)) && detail@ == failure,
            },
            Err(text) => reply matches Err(Error::Reqwest(detail)) && detail@ == text@,
        },
{
    match outcome {
        Ok(body) => GenerateResponse::from_json(body.as_slice()),
        Err(text) => Err(Error::Reqwest(text)),
    }
}

} // verus!
