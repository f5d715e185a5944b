use ocr_worker::codec::{decode_job, encode_message, file_path_of, PipelineError};
use ocr_worker::models::{Annotation, RabbitMessage, TextAnnotations, VisionResponse};
use ocr_worker::pipeline::{step, Action, Event, Stage};
use ocr_worker::resolver::{annotate_url, file_download_url, file_lookup_url};
use ocr_worker::vision::{annotate_request, first_description};

fn answer(descriptions: Option<Vec<&str>>) -> VisionResponse {
    let annotations = descriptions.map(|ds| {
        ds.into_iter().map(|d| Annotation { description: d.to_string() }).collect()
    });
    VisionResponse { responses: vec![TextAnnotations { textAnnotations: annotations }] }
}

fn job_payload() -> Vec<u8> {
    br#"{"chat_id":42,"text":"FILE123"}"#.to_vec()
}

fn metadata_with_path() -> Vec<u8> {
    br#"{"ok":true,"result":{"file_id":"FILE123","file_path":"photos/file_1.jpg"}}"#.to_vec()
}

/// Drives a fresh worker through delivery, lookup and download of the job.
fn up_to_recognition() -> Stage {
    let (stage, action) = step(Stage::AwaitingMessage, Event::Delivered(job_payload()));
    match action {
        Action::LookUpFile(handle) => assert_eq!(handle, "FILE123"),
        other => panic!("unexpected action {:?}", other),
    }
    let (stage, action) = step(stage, Event::FileLocated(metadata_with_path()));
    match action {
        Action::Download(path) => assert_eq!(path, "photos/file_1.jpg"),
        other => panic!("unexpected action {:?}", other),
    }
    let (stage, action) = step(stage, Event::ImageDownloaded(vec![0x89, 0x50, 0x4E, 0x47]));
    match action {
        Action::Recognize(req) => {
            assert_eq!(req.requests.len(), 1);
            assert_eq!(req.requests[0].image.content, "iVBORw==");
            assert_eq!(req.requests[0].features.len(), 1);
            assert_eq!(req.requests[0].features[0].feature_type, "TEXT_DETECTION");
        },
        other => panic!("unexpected action {:?}", other),
    }
    stage
}

fn published_reply(action: Action) -> RabbitMessage {
    match action {
        Action::Publish(payload) => decode_job(&payload).expect("reply payload decodes"),
        other => panic!("unexpected action {:?}", other),
    }
}

#[test]
fn scenario_text_found_is_published_then_acked() {
    let stage = up_to_recognition();
    let (stage, action) = step(stage, Event::TextRecognized(answer(Some(vec!["Hello", "World"]))));
    let reply = published_reply(action);
    assert_eq!(reply.chat_id, 42);
    assert_eq!(reply.text, "Hello");
    assert!(matches!(stage, Stage::Publishing(_)));
    let (stage, action) = step(stage, Event::ReplyPublished);
    assert!(matches!(action, Action::Acknowledge));
    let (stage, action) = step(stage, Event::Acknowledged);
    assert!(matches!(action, Action::Wait));
    assert!(matches!(stage, Stage::AwaitingMessage));
}

#[test]
fn scenario_empty_annotations_reply_fallback() {
    let stage = up_to_recognition();
    let (_, action) = step(stage, Event::TextRecognized(answer(Some(vec![]))));
    let reply = published_reply(action);
    assert_eq!(reply.chat_id, 42);
    assert_eq!(reply.text, "No text found.");
}

#[test]
fn scenario_missing_file_path_rejects_without_publish() {
    let (stage, _) = step(Stage::AwaitingMessage, Event::Delivered(job_payload()));
    let (stage, action) = step(stage, Event::FileLocated(br#"{"ok":true,"result":{}}"#.to_vec()));
    assert!(matches!(action, Action::Reject(PipelineError::HandleNotFound)));
    assert!(matches!(stage, Stage::AwaitingMessage));
}

#[test]
fn scenario_malformed_payload_is_skipped_and_loop_goes_on() {
    let (stage, action) = step(Stage::AwaitingMessage, Event::Delivered(b"not json".to_vec()));
    assert!(matches!(action, Action::Reject(PipelineError::MalformedPayload)));
    assert!(matches!(stage, Stage::AwaitingMessage));
    let (_, action) = step(stage, Event::Delivered(job_payload()));
    assert!(matches!(action, Action::LookUpFile(_)));
}

#[test]
fn ack_is_not_asked_before_publish() {
    let (stage, action) = step(Stage::AwaitingMessage, Event::ReplyPublished);
    assert!(matches!(action, Action::Ignore));
    let (stage, action) = step(stage, Event::Delivered(job_payload()));
    assert!(matches!(action, Action::LookUpFile(_)));
    let (_, action) = step(stage, Event::ReplyPublished);
    assert!(matches!(action, Action::Ignore));
}

#[test]
fn broker_failure_on_publish_stops() {
    let stage = up_to_recognition();
    let (stage, _) = step(stage, Event::TextRecognized(answer(None)));
    let (stage, action) = step(stage, Event::TransportFailed("connection lost".to_string()));
    match action {
        Action::Stop(PipelineError::TransportError(cause)) => assert_eq!(cause, "connection lost"),
        other => panic!("unexpected action {:?}", other),
    }
    assert!(matches!(stage, Stage::Stopped));
}

#[test]
fn http_failure_rejects_and_goes_on() {
    let (stage, _) = step(Stage::AwaitingMessage, Event::Delivered(job_payload()));
    let (stage, action) = step(stage, Event::TransportFailed("timeout".to_string()));
    assert!(matches!(action, Action::Reject(PipelineError::TransportError(_))));
    assert!(matches!(stage, Stage::AwaitingMessage));
}

#[test]
fn broken_delivery_is_skipped() {
    let (stage, action) = step(Stage::AwaitingMessage, Event::DeliveryFailed);
    assert!(matches!(action, Action::Wait));
    assert!(matches!(stage, Stage::AwaitingMessage));
}

#[test]
fn empty_handle_is_not_looked_up() {
    let (_, action) = step(Stage::AwaitingMessage, Event::Delivered(br#"{"chat_id":1,"text":""}"#.to_vec()));
    assert!(matches!(action, Action::Reject(PipelineError::HandleNotFound)));
}

#[test]
fn job_round_trip() {
    for (chat_id, text) in [(42i64, "FILE123"), (-7, ""), (i64::MAX, "quote \" and \\ é"), (i64::MIN, "line\nbreak")] {
        let m = RabbitMessage { chat_id, text: text.to_string() };
        let back = decode_job(&encode_message(&m)).expect("round trip");
        assert_eq!(back.chat_id, chat_id);
        assert_eq!(back.text, text);
    }
}

#[test]
fn encode_writes_both_fields() {
    let m = RabbitMessage { chat_id: 42, text: "Hello".to_string() };
    assert_eq!(encode_message(&m), br#"{"chat_id":42,"text":"Hello"}"#.to_vec());
}

#[test]
fn decode_rejects_missing_or_mistyped_fields() {
    for payload in [&br#"{"chat_id":42}"#[..], br#"{"text":"x"}"#, br#"{"chat_id":"42","text":"x"}"#,
        br#"{"chat_id":4.5,"text":"x"}"#, br#"{"chat_id":42,"text":7}"#, b"", b"[42,\"x\"]"] {
        assert_eq!(decode_job(payload).err(), Some(PipelineError::MalformedPayload));
    }
}

#[test]
fn decode_reads_job() {
    let m = decode_job(&job_payload()).unwrap();
    assert_eq!(m.chat_id, 42);
    assert_eq!(m.text, "FILE123");
}

#[test]
fn file_path_lookup() {
    assert_eq!(file_path_of(&metadata_with_path()).unwrap(), "photos/file_1.jpg");
    assert_eq!(file_path_of(b"{").err(), Some(PipelineError::HandleNotFound));
    assert_eq!(file_path_of(br#"{"result":{"file_path":3}}"#).err(), Some(PipelineError::HandleNotFound));
}

#[test]
fn extract_absent_annotations_gives_fallback() {
    assert_eq!(first_description(&answer(None)), "No text found.");
    assert_eq!(first_description(&VisionResponse { responses: vec![] }), "No text found.");
    assert_eq!(first_description(&answer(Some(vec![]))), "No text found.");
}

#[test]
fn extract_first_description_verbatim() {
    assert_eq!(first_description(&answer(Some(vec!["  Hello\nWorld  ", "Hello"]))), "  Hello\nWorld  ");
}

#[test]
fn request_asks_for_text_detection() {
    let req = annotate_request("abc=");
    assert_eq!(req.requests.len(), 1);
    assert_eq!(req.requests[0].image.content, "abc=");
    assert_eq!(req.requests[0].features[0].feature_type, "TEXT_DETECTION");
}

#[test]
fn service_addresses() {
    assert_eq!(file_lookup_url("T0K", "F1"), "https://api.telegram.org/botT0K/getFile?file_id=F1");
    assert_eq!(file_download_url("T0K", "photos/a.jpg"), "https://api.telegram.org/file/botT0K/photos/a.jpg");
    assert_eq!(annotate_url("K"), "https://vision.googleapis.com/v1/images:annotate?key=K");
}
