use vstd::prelude::*;

verus! {

/// A job or reply carried over the queue: the conversation it belongs to and
/// its text (an image handle on the way in, the recognised text on the way out).
#[derive(Debug)]
pub struct RabbitMessage {
    pub chat_id: i64,
    pub text: String,
}

/// The body of an annotation request to the OCR service.
#[derive(Debug)]
pub struct VisionRequest {
    pub requests: Vec<VisionRequestItem>,
}

/// One image to annotate, with the features asked for.
#[derive(Debug)]
pub struct VisionRequestItem {
    pub image: ImageContent,
    pub features: Vec<Feature>,
}

/// Image content, base64-encoded.
#[derive(Debug)]
pub struct ImageContent {
    pub content: String,
}

/// A feature of the OCR service, named by its type (`TEXT_DETECTION`).
#[derive(Debug)]
pub struct Feature {
    pub feature_type: String,
}

/// The body of the OCR service's answer: one entry per image asked for.
#[derive(Debug)]
pub struct VisionResponse {
    pub responses: Vec<TextAnnotations>,
}

/// The annotations found in one image; absent when the service found none.
#[allow(non_snake_case)]
#[derive(Debug)]
pub struct TextAnnotations {
    pub textAnnotations: Option<Vec<Annotation>>,
}

/// One recognised piece of text.
#[derive(Debug)]
pub struct Annotation {
    pub description: String,
}

impl View for RabbitMessage {
    type V = (i64, Seq<char>);

    open spec fn view(&self) -> (i64, Seq<char>) {
        (self.chat_id, self.text@)
    }
}

impl RabbitMessage {
    /// The reply to `job`: same conversation, the given text.
    pub fn reply_to(job: &RabbitMessage, text: String) -> (r: RabbitMessage)
        ensures
            r.chat_id == job.chat_id,
            r.text@ == text@,
    {
        RabbitMessage { chat_id: job.chat_id, text }
    }
}

} // verus!
