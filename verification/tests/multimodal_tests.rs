use pappap_node::multimodal::{
    caption_instruction_text, input_kind, plan_request, respond, task_for, voice_reply, InputKind,
    MultimodalRequest, MultimodalTask,
};

fn req(t: &str, d: &str) -> MultimodalRequest {
    MultimodalRequest { type_input: t.to_string(), data_b64: d.to_string() }
}

#[test]
fn kinds() {
    assert!(matches!(input_kind("voice"), InputKind::Voice));
    assert!(matches!(input_kind("vision"), InputKind::Vision));
    assert!(matches!(input_kind("text"), InputKind::Unsupported));
    assert!(matches!(input_kind("Voice"), InputKind::Unsupported));
}

#[test]
fn voice_request_decodes_audio() {
    match plan_request(&req("voice", "AQID")) {
        MultimodalTask::Transcribe { audio } => assert_eq!(audio, vec![1, 2, 3]),
        _ => panic!("expected transcription"),
    }
}

#[test]
fn vision_request_decodes_image() {
    match plan_request(&req("vision", "aGk=")) {
        MultimodalTask::Caption { image } => assert_eq!(image, b"hi".to_vec()),
        _ => panic!("expected caption"),
    }
}

#[test]
fn undecodable_data_is_empty() {
    match plan_request(&req("voice", "***")) {
        MultimodalTask::Transcribe { audio } => assert!(audio.is_empty()),
        _ => panic!("expected transcription"),
    }
    match task_for(InputKind::Vision, None) {
        MultimodalTask::Caption { image } => assert!(image.is_empty()),
        _ => panic!("expected caption"),
    }
}

#[test]
fn unsupported_request_is_answered_directly() {
    match plan_request(&req("video", "AQID")) {
        MultimodalTask::Reply { text } => assert_eq!(text, "Loại input không hỗ trợ"),
        _ => panic!("expected reply"),
    }
}

#[test]
fn voice_replies() {
    assert_eq!(voice_reply(Some("xin chào".to_string())), "xin chào");
    assert_eq!(voice_reply(None), "Không nhận diện giọng nói");
}

#[test]
fn response_carries_result_and_type() {
    let r = respond(&req("vision", ""), "một con mèo".to_string());
    assert_eq!(r.response, "một con mèo");
    assert_eq!(r.type_input, "vision");
    assert_eq!(caption_instruction_text(), "Mô tả ảnh này bằng tiếng Việt chi tiết");
}
