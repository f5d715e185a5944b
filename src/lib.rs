//! A worker that turns image jobs from a queue into text replies: it decodes
//! the job, resolves the image through the image service, has the OCR service
//! read it, publishes the reply and only then acknowledges the job. The
//! library holds the payloads, the codec and the worker's state machine; the
//! process around it performs the calls the state machine asks for.

pub mod models;
pub mod vision;
pub mod json;
pub mod codec;
pub mod resolver;
pub mod pipeline;
