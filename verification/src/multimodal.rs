//! Planning of multimodal requests: which model a request goes to, the decoded
//! payload it carries, and the text of the answer.

use vstd::prelude::*;
use crate::text::text_eq;

verus! {

/// A multimodal request: `type_input` is `voice` or `vision`, `data_b64` the audio or
/// image in standard base64.
pub struct MultimodalRequest {
    pub type_input: String,
    pub data_b64: String,
}

/// The kind of input a request carries.
pub enum InputKind {
    Voice,
    Vision,
    Unsupported,
}

/// The kind named by a request's `type_input`.
pub open spec fn kind_of(type_input: Seq<char>) -> InputKind {
    if type_input == "voice"@ {
        InputKind::Voice
    } else if type_input == "vision"@ {
        InputKind::Vision
    } else {
        InputKind::Unsupported
    }
}

/// The kind of input named by `type_input`.
pub fn input_kind(type_input: &str) -> (k: InputKind)
    ensures
        k == kind_of(type_input@),
{
    if text_eq(type_input, "voice") {
        InputKind::Voice
    } else if text_eq(type_input, "vision") {
        InputKind::Vision
    } else {
        InputKind::Unsupported
    }
}

/// What standard base64 decoding (`base64::decode`, standard alphabet, padded) gives
/// for a text: the bytes, or `None` where the text is not valid base64.
pub uninterp spec fn base64_decoded(text: Seq<char>) -> Option<Seq<u8>>;

/// `base64::decode` on the text, with its error mapped to `None`.
#[verifier::external_body]
fn base64_decode(text: &str) -> (r: Option<Vec<u8>>)
    ensures
        match r {
            Some(v) => base64_decoded(text@) == Some(v@),
            None => base64_decoded(text@) is None,
        },
{
    #[allow(deprecated)]
    match base64::decode(text) {
        Ok(v) => Some(v),
        Err(_) => None,
    }
}

/// Answer to a request of a kind that is not supported.
pub open spec fn unsupported_reply() -> Seq<char> {
    "Loại input không hỗ trợ"@
}

/// Answer to a voice request whose speech was not recognized.
pub open spec fn unrecognized_reply() -> Seq<char> {
    "Không nhận diện giọng nói"@
}

/// Instruction given to the captioning model with an image.
pub open spec fn caption_instruction() -> Seq<char> {
    "Mô tả ảnh này bằng tiếng Việt chi tiết"@
}

/// The work a request asks for.
pub enum MultimodalTask {
    /// Transcribe the audio bytes.
    Transcribe { audio: Vec<u8> },
    /// Caption the image bytes.
    Caption { image: Vec<u8> },
    /// Answer with the text directly.
    Reply { text: String },
}

/// The payload bytes: the decoded data, or none at all where decoding failed.
pub open spec fn payload_of(decoded: Option<Seq<u8>>) -> Seq<u8> {
    match decoded {
        Some(b) => b,
        None => Seq::empty(),
    }
}

/// The task for a request of `kind` whose data decoded to `decoded`.
pub open spec fn task_ok(kind: InputKind, decoded: Option<Seq<u8>>, task: MultimodalTask) -> bool {
    match kind {
        InputKind::Voice => task matches MultimodalTask::Transcribe { audio } && audio@ == payload_of(
            decoded,
        ),
        InputKind::Vision => task matches MultimodalTask::Caption { image } && image@ == payload_of(
            decoded,
        ),
        InputKind::Unsupported => task matches MultimodalTask::Reply { text } && text@
            == unsupported_reply(),
    }
}

/// The task for a request of `kind` whose data decoded to `decoded`; undecodable data
/// counts as empty.
pub fn task_for(kind: InputKind, decoded: Option<Vec<u8>>) -> (task: MultimodalTask)
    ensures
        task_ok(
            kind,
            match decoded {
                Some(v) => Some(v@),
                None => None,
            },
            task,
        ),
{
    let payload = match decoded {
        Some(v) => v,
        None => Vec::new(),
    };
    match kind {
        InputKind::Voice => MultimodalTask::Transcribe { audio: payload },
        InputKind::Vision => MultimodalTask::Caption { image: payload },
        InputKind::Unsupported => MultimodalTask::Reply { text: "Loại input không hỗ trợ".to_owned() },
    }
}

/// The task a request asks for: its kind, with its base64 data decoded for voice and
/// vision.
pub fn plan_request(req: &MultimodalRequest) -> (task: MultimodalTask)
    ensures
        task_ok(kind_of(req.type_input@), base64_decoded(req.data_b64@), task),
{
    let kind = input_kind(req.type_input.as_str());
    match kind {
        InputKind::Unsupported => task_for(kind, None),
        _ => task_for(kind, base64_decode(req.data_b64.as_str())),
    }
}

/// The answer to a voice request: the recognized segment, or the not-recognized
/// message.
pub fn voice_reply(segment: Option<String>) -> (text: String)
    ensures
        text@ == (match segment {
            Some(s) => s@,
            None => unrecognized_reply(),
        }),
{
    match segment {
        Some(s) => s,
        None => "Không nhận diện giọng nói".to_owned(),
    }
}

/// The instruction given to the captioning model.
pub fn caption_instruction_text() -> (text: String)
    ensures
        text@ == caption_instruction(),
{
    "Mô tả ảnh này bằng tiếng Việt chi tiết".to_owned()
}

/// The body of a multimodal answer.
pub struct MultimodalResponse {
    pub response: String,
    pub type_input: String,
}

/// The answer to `req` with the model's result `result`: the result and the request's
/// type.
pub fn respond(req: &MultimodalRequest, result: String) -> (r: MultimodalResponse)
    ensures
        r.response@ == result@,
        r.type_input@ == req.type_input@,
{
    MultimodalResponse { response: result, type_input: req.type_input.clone() }
}

} // verus!
