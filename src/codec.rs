use vstd::prelude::*;
use crate::json::{json_at, json_from_bytes, json_i64, json_pair_bytes, json_str, pair_to_json, parse_json};
use crate::models::RabbitMessage;

verus! {

/// Why a message could not be carried through.
#[derive(Debug, PartialEq, Eq)]
pub enum PipelineError {
    /// The job payload is not JSON, lacks a field, or has a field of the wrong type.
    MalformedPayload,
    /// The image metadata holds no usable file path.
    HandleNotFound,
    /// A call to the broker or to an HTTP service failed; the cause in words.
    TransportError(String),
}

/// The job that a JSON document describes: an `i64` under `chat_id` and a
/// string under `text`.
pub open spec fn job_of_json(v: serde_json::Value) -> Option<(i64, Seq<char>)> {
    match (json_at(v, "/chat_id"@), json_at(v, "/text"@)) {
        (Some(c), Some(t)) => match (json_i64(c), json_str(t)) {
            (Some(id), Some(text)) => Some((id, text)),
            _ => None,
        },
        _ => None,
    }
}

/// The job that a payload carries, if it is one.
pub open spec fn job_of_bytes(b: Seq<u8>) -> Option<(i64, Seq<char>)> {
    match json_from_bytes(b) {
        Some(v) => job_of_json(v),
        None => None,
    }
}

/// The payload of a message: a JSON object with members `chat_id` and `text`.
pub open spec fn message_bytes(m: (i64, Seq<char>)) -> Seq<u8> {
    json_pair_bytes("chat_id"@, m.0, "text"@, m.1)
}

/// The file path that an image metadata document names under `result.file_path`.
pub open spec fn file_path_of_bytes(b: Seq<u8>) -> Option<Seq<char>> {
    match json_from_bytes(b) {
        Some(v) => match json_at(v, "/result/file_path"@) {
            Some(p) => json_str(p),
            None => None,
        },
        None => None,
    }
}

/// Reads a job from its payload; `MalformedPayload` exactly when the payload
/// describes none.
pub fn decode_job(payload: &[u8]) -> (r: Result<RabbitMessage, PipelineError>)
    ensures
        match job_of_bytes(payload@) {
            Some(job) => r matches Ok(m) && m@ == job,
            None => r == Err::<RabbitMessage, PipelineError>(PipelineError::MalformedPayload),
        },
{
    let doc = match parse_json(payload) {
        Some(doc) => doc,
        None => return Err(PipelineError::MalformedPayload),
    };
    let chat_id = match doc.pointer("/chat_id") {
        Some(c) => c.as_i64(),
        None => None,
    };
    let text = match doc.pointer("/text") {
        Some(t) => t.as_str(),
        None => None,
    };
    match (chat_id, text) {
        (Some(chat_id), Some(text)) => Ok(RabbitMessage { chat_id, text: text.to_owned() }),
        _ => Err(PipelineError::MalformedPayload),
    }
}

/// Writes a message as its JSON payload; this cannot fail.
pub fn encode_message(message: &RabbitMessage) -> (r: Vec<u8>)
    ensures
        r@ == message_bytes(message@),
{
    pair_to_json("chat_id", message.chat_id, "text", message.text.as_str())
}

/// Reads the file path out of an image metadata document; `HandleNotFound`
/// exactly when the document is not JSON or names no string path.
pub fn file_path_of(metadata: &[u8]) -> (r: Result<String, PipelineError>)
    ensures
        match file_path_of_bytes(metadata@) {
            Some(path) => r matches Ok(p) && p@ == path,
            None => r == Err::<String, PipelineError>(PipelineError::HandleNotFound),
        },
{
    let doc = match parse_json(metadata) {
        Some(doc) => doc,
        None => return Err(PipelineError::HandleNotFound),
    };
    match doc.pointer("/result/file_path") {
        Some(p) => match p.as_str() {
            Some(path) => Ok(path.to_owned()),
            None => Err(PipelineError::HandleNotFound),
        },
        None => Err(PipelineError::HandleNotFound),
    }
}

} // verus!
