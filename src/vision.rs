use vstd::prelude::*;
use crate::models::{Annotation, Feature, ImageContent, TextAnnotations, VisionRequest, VisionRequestItem, VisionResponse};

verus! {

/// The text returned when the OCR service recognised nothing.
pub open spec fn fallback_text() -> Seq<char> {
    "No text found."@
}

/// The feature type that asks the OCR service for text detection.
pub open spec fn text_detection() -> Seq<char> {
    "TEXT_DETECTION"@
}

/// Whether the first entry of `resp` carries at least one annotation.
pub open spec fn has_first_annotation(resp: VisionResponse) -> bool {
    &&& resp.responses@.len() > 0
    &&& resp.responses@[0].textAnnotations is Some
    &&& resp.responses@[0].textAnnotations->Some_0@.len() > 0
}

/// The description of the first annotation of the first entry, or the
/// fallback text when any link of that chain is missing.
pub open spec fn extracted_text(resp: VisionResponse) -> Seq<char> {
    if has_first_annotation(resp) {
        resp.responses@[0].textAnnotations->Some_0@[0].description@
    } else {
        fallback_text()
    }
}

/// Whether `req` asks for text detection on exactly one image with content `content`.
pub open spec fn is_text_request(req: VisionRequest, content: Seq<char>) -> bool {
    &&& req.requests@.len() == 1
    &&& req.requests@[0].image.content@ == content
    &&& req.requests@[0].features@.len() == 1
    &&& req.requests@[0].features@[0].feature_type@ == text_detection()
}

/// Builds the annotation request for one base64-encoded image, asking for
/// text detection alone.
pub fn annotate_request(base64_image: &str) -> (r: VisionRequest)
    ensures
        is_text_request(r, base64_image@),
{
    proof {
        reveal_strlit("TEXT_DETECTION");
    }
    let feature = Feature { feature_type: "TEXT_DETECTION".to_owned() };
    let item = VisionRequestItem {
        image: ImageContent { content: base64_image.to_owned() },
        features: vec![feature],
    };
    VisionRequest { requests: vec![item] }
}

/// Takes the first entry of the answer, its first annotation and that
/// annotation's description, verbatim; where any of these is missing the
/// result is `No text found.`, never an error.
pub fn first_description(response: &VisionResponse) -> (r: String)
    ensures
        r@ == extracted_text(*response),
        !has_first_annotation(*response) ==> r@ == "No text found."@,
        has_first_annotation(*response) ==> r@
            == response.responses@[0].textAnnotations->Some_0@[0].description@,
{
    if response.responses.len() > 0 {
        let first: &TextAnnotations = &response.responses[0];
        match &first.textAnnotations {
            Some(annotations) => {
                if annotations.len() > 0 {
                    let a: &Annotation = &annotations[0];
                    return a.description.clone();
                }
            },
            None => {},
        }
    }
    "No text found.".to_owned()
}

} // verus!
