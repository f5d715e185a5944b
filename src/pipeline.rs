use vstd::prelude::*;
use crate::codec::{decode_job, encode_message, file_path_of, file_path_of_bytes, job_of_bytes, message_bytes, PipelineError};
use crate::models::{RabbitMessage, VisionRequest, VisionResponse};
use crate::resolver::{base64_of, standard_base64};
use crate::vision::{annotate_request, extracted_text, first_description, is_text_request};

verus! {

/// Where the worker stands with the message in hand.
#[derive(Debug)]
pub enum Stage {
    /// No message in hand; waiting for the next delivery.
    AwaitingMessage,
    /// The job's image handle is being looked up.
    Locating(RabbitMessage),
    /// The job's image bytes are being downloaded.
    Downloading(RabbitMessage),
    /// The job's image is with the OCR service.
    Recognizing(RabbitMessage),
    /// The reply to the job is being published.
    Publishing(RabbitMessage),
    /// The reply was accepted; the job's delivery is being acknowledged.
    Acknowledging,
    /// The broker failed; the worker takes no more messages.
    Stopped,
}

/// What the outside world reports back to the worker.
#[derive(Debug)]
pub enum Event {
    /// A message arrived from the job queue with this payload.
    Delivered(Vec<u8>),
    /// The broker handed over a broken delivery.
    DeliveryFailed,
    /// The image service answered the lookup with this body.
    FileLocated(Vec<u8>),
    /// The image service served these bytes.
    ImageDownloaded(Vec<u8>),
    /// The OCR service answered.
    TextRecognized(VisionResponse),
    /// The broker accepted the reply for publishing.
    ReplyPublished,
    /// The broker took the acknowledgement.
    Acknowledged,
    /// The call made for the last action failed; the cause in words.
    TransportFailed(String),
}

/// What the worker asks the outside world to do next.
#[derive(Debug)]
pub enum Action {
    /// Wait for the next delivery.
    Wait,
    /// Ask the image service where the file of this handle lies.
    LookUpFile(String),
    /// Download the file at this path from the image service.
    Download(String),
    /// Send this request to the OCR service.
    Recognize(VisionRequest),
    /// Publish this payload to the reply queue.
    Publish(Vec<u8>),
    /// Acknowledge the message in hand.
    Acknowledge,
    /// Dead-letter the message in hand and go on with the next one.
    Reject(PipelineError),
    /// Stop taking messages.
    Stop(PipelineError),
    /// The event does not belong to the stage: nothing to do.
    Ignore,
}

/// The transition of the worker from `stage` on `event` to `next`, asking for `action`.
pub open spec fn step_post(stage: Stage, event: Event, next: Stage, action: Action) -> bool {
    match (stage, event) {
        (Stage::AwaitingMessage, Event::Delivered(payload)) => match job_of_bytes(payload@) {
            None => {
                &&& next is AwaitingMessage
                &&& action == Action::Reject(PipelineError::MalformedPayload)
            },
            Some(job) => if job.1.len() == 0 {
                &&& next is AwaitingMessage
                &&& action == Action::Reject(PipelineError::HandleNotFound)
            } else {
                &&& next matches Stage::Locating(j) && j@ == job
                &&& action matches Action::LookUpFile(handle) && handle@ == job.1
            },
        },
        (Stage::AwaitingMessage, Event::DeliveryFailed) => {
            &&& next is AwaitingMessage
            &&& action is Wait
        },
        (Stage::Locating(job), Event::FileLocated(metadata)) => match file_path_of_bytes(metadata@) {
            Some(path) => {
                &&& next == Stage::Downloading(job)
                &&& action matches Action::Download(p) && p@ == path
            },
            None => {
                &&& next is AwaitingMessage
                &&& action == Action::Reject(PipelineError::HandleNotFound)
            },
        },
        (Stage::Downloading(job), Event::ImageDownloaded(bytes)) => {
            &&& next == Stage::Recognizing(job)
            &&& action matches Action::Recognize(req) && is_text_request(req, base64_of(bytes@))
        },
        (Stage::Recognizing(job), Event::TextRecognized(response)) => {
            &&& next matches Stage::Publishing(reply) && reply@ == (job.chat_id, extracted_text(response))
            &&& action matches Action::Publish(payload) && payload@ == message_bytes(
                (job.chat_id, extracted_text(response)),
            )
        },
        (Stage::Publishing(_), Event::ReplyPublished) => {
            &&& next is Acknowledging
            &&& action is Acknowledge
        },
        (Stage::Acknowledging, Event::Acknowledged) => {
            &&& next is AwaitingMessage
            &&& action is Wait
        },
        (Stage::Locating(_), Event::TransportFailed(cause))
        | (Stage::Downloading(_), Event::TransportFailed(cause))
        | (Stage::Recognizing(_), Event::TransportFailed(cause)) => {
            &&& next is AwaitingMessage
            &&& action == Action::Reject(PipelineError::TransportError(cause))
        },
        (Stage::Publishing(_), Event::TransportFailed(cause))
        | (Stage::Acknowledging, Event::TransportFailed(cause)) => {
            &&& next is Stopped
            &&& action == Action::Stop(PipelineError::TransportError(cause))
        },
        (s, _) => {
            &&& next == s
            &&& action is Ignore
        },
    }
}

/// Takes the worker one transition further: decodes a delivered job, resolves
/// its image, has the text recognised, publishes the reply with the job's
/// `chat_id`, and asks for the acknowledgement only once the reply was
/// accepted. A malformed job, a missing file path or a failed HTTP call
/// rejects the message and the worker goes on; a broker failure stops it.
pub fn step(stage: Stage, event: Event) -> (r: (Stage, Action))
    ensures
        step_post(stage, event, r.0, r.1),
{
    match (stage, event) {
        (Stage::AwaitingMessage, Event::Delivered(payload)) => match decode_job(payload.as_slice()) {
            Ok(job) => {
                if job.text.as_str().is_empty() {
                    (Stage::AwaitingMessage, Action::Reject(PipelineError::HandleNotFound))
                } else {
                    let handle = job.text.clone();
                    (Stage::Locating(job), Action::LookUpFile(handle))
                }
            },
            Err(e) => (Stage::AwaitingMessage, Action::Reject(e)),
        },
        (Stage::AwaitingMessage, Event::DeliveryFailed) => (Stage::AwaitingMessage, Action::Wait),
        (Stage::Locating(job), Event::FileLocated(metadata)) => match file_path_of(metadata.as_slice()) {
            Ok(path) => (Stage::Downloading(job), Action::Download(path)),
            Err(e) => (Stage::AwaitingMessage, Action::Reject(e)),
        },
        (Stage::Downloading(job), Event::ImageDownloaded(bytes)) => {
            let content = standard_base64(bytes.as_slice());
            (Stage::Recognizing(job), Action::Recognize(annotate_request(content.as_str())))
        },
        (Stage::Recognizing(job), Event::TextRecognized(response)) => {
            let reply = RabbitMessage::reply_to(&job, first_description(&response));
            let payload = encode_message(&reply);
            (Stage::Publishing(reply), Action::Publish(payload))
        },
        (Stage::Publishing(_), Event::ReplyPublished) => (Stage::Acknowledging, Action::Acknowledge),
        (Stage::Acknowledging, Event::Acknowledged) => (Stage::AwaitingMessage, Action::Wait),
        (Stage::Locating(_), Event::TransportFailed(cause))
        | (Stage::Downloading(_), Event::TransportFailed(cause))
        | (Stage::Recognizing(_), Event::TransportFailed(cause)) => {
            (Stage::AwaitingMessage, Action::Reject(PipelineError::TransportError(cause)))
        },
        (Stage::Publishing(_), Event::TransportFailed(cause))
        | (Stage::Acknowledging, Event::TransportFailed(cause)) => {
            (Stage::Stopped, Action::Stop(PipelineError::TransportError(cause)))
        },
        (s, _) => (s, Action::Ignore),
    }
}

/// The job that an event delivers, if it delivers one.
pub open spec fn delivered_job(e: Event) -> Option<(i64, Seq<char>)> {
    match e {
        Event::Delivered(payload) => job_of_bytes(payload@),
        _ => None,
    }
}

/// The event delivers a job whose `chat_id` is `chat_id`.
pub open spec fn delivers_chat_id(e: Event, chat_id: i64) -> bool {
    delivered_job(e) matches Some(job) && job.0 == chat_id
}

/// `action` publishes the reply to the job that `delivery` delivers, with the
/// text extracted from the OCR answer that `answer` reports.
pub open spec fn replies_to(delivery: Event, answer: Event, action: Action) -> bool {
    &&& delivered_job(delivery) matches Some(job)
    &&& answer matches Event::TextRecognized(response)
    &&& action matches Action::Publish(payload)
    &&& payload@ == message_bytes((job.0, extracted_text(response)))
}

/// `stages`, `events` and `actions` form a run of the worker: on `events[i]`
/// the worker goes from `stages[i]` to `stages[i + 1]` and asks for `actions[i]`.
pub open spec fn is_run(stages: Seq<Stage>, events: Seq<Event>, actions: Seq<Action>) -> bool {
    &&& stages.len() == events.len() + 1
    &&& actions.len() == events.len()
    &&& forall|i: int|
        0 <= i < events.len() ==> #[trigger] step_post(stages[i], events[i], stages[i + 1], actions[i])
}

/// `actions[j]` hands a reply over for publishing, and every action after it
/// and before position `k` is `Ignore`.
pub open spec fn published_then_idle(actions: Seq<Action>, j: int, k: int) -> bool {
    &&& 0 <= j < k
    &&& actions[j] is Publish
    &&& forall|m: int| j < m < k ==> #[trigger] actions[m] is Ignore
}

/// Before position `k` of the run a reply was handed over for publishing, and
/// nothing but ignored events came after it.
pub open spec fn published_before(actions: Seq<Action>, k: int) -> bool {
    exists|j: int| #[trigger] published_then_idle(actions, j, k)
}

/// What a stage owes to the deliveries before position `k`: the job it holds
/// was delivered, and the reply it holds keeps a delivered job's `chat_id`
/// and was handed over for publishing.
pub open spec fn stage_backed(stage: Stage, events: Seq<Event>, actions: Seq<Action>, k: int) -> bool {
    match stage {
        Stage::Locating(m) | Stage::Downloading(m) | Stage::Recognizing(m) => exists|j: int|
            0 <= j < k && #[trigger] delivered_job(events[j]) == Some(m@),
        Stage::Publishing(reply) => {
            &&& exists|j: int| 0 <= j < k && #[trigger] delivers_chat_id(events[j], reply.chat_id)
            &&& published_before(actions, k)
        },
        _ => true,
    }
}

proof fn lemma_stages_backed(stages: Seq<Stage>, events: Seq<Event>, actions: Seq<Action>, k: int)
    requires
        is_run(stages, events, actions),
        stages[0] is AwaitingMessage,
        0 <= k <= events.len(),
    ensures
        stage_backed(stages[k], events, actions, k),
    decreases k,
{
    if k > 0 {
        let i = k - 1;
        lemma_stages_backed(stages, events, actions, i);
        assert(step_post(stages[i], events[i], stages[i + 1], actions[i]));
        match stages[k] {
            Stage::Locating(m) => {
                if stages[i] is AwaitingMessage && events[i] is Delivered {
                    assert(delivered_job(events[i]) == Some(m@));
                }
            },
            Stage::Publishing(reply) => {
                if stages[i] is Recognizing && events[i] is TextRecognized {
                    let job = stages[i]->Recognizing_0;
                    let w = choose|j: int| 0 <= j < i && #[trigger] delivered_job(events[j]) == Some(job@);
                    assert(delivers_chat_id(events[w], reply.chat_id));
                    assert(published_then_idle(actions, i, k));
                } else {
                    let w = choose|j: int|
                        0 <= j < i && #[trigger] delivers_chat_id(events[j], reply.chat_id);
                    assert(delivers_chat_id(events[w], reply.chat_id));
                    let v = choose|j: int| #[trigger] published_then_idle(actions, j, i);
                    assert(actions[i] is Ignore);
                    assert(published_then_idle(actions, v, k));
                }
            },
            _ => {},
        }
    }
}

/// In a run that starts with no message in hand, the worker asks to
/// acknowledge a message only on the broker's acceptance of a reply, and only
/// after it handed that reply over for publishing, with nothing done between
/// the two.
pub proof fn lemma_ack_follows_publish(stages: Seq<Stage>, events: Seq<Event>, actions: Seq<Action>)
    requires
        is_run(stages, events, actions),
        stages[0] is AwaitingMessage,
    ensures
        forall|i: int|
            0 <= i < actions.len() && #[trigger] actions[i] is Acknowledge ==> {
                &&& events[i] is ReplyPublished
                &&& published_before(actions, i)
            },
{
    assert forall|i: int| 0 <= i < actions.len() && #[trigger] actions[i] is Acknowledge implies {
        &&& events[i] is ReplyPublished
        &&& published_before(actions, i)
    } by {
        lemma_stages_backed(stages, events, actions, i);
        assert(step_post(stages[i], events[i], stages[i + 1], actions[i]));
    }
}

/// In a run that starts with no message in hand, every reply published
/// carries the `chat_id` of a job delivered earlier in the run, and the text
/// extracted from the OCR answer that it follows.
pub proof fn lemma_reply_keeps_chat_id(stages: Seq<Stage>, events: Seq<Event>, actions: Seq<Action>)
    requires
        is_run(stages, events, actions),
        stages[0] is AwaitingMessage,
    ensures
        forall|i: int|
            0 <= i < actions.len() && #[trigger] actions[i] is Publish ==> {
                &&& events[i] is TextRecognized
                &&& exists|j: int|
                    0 <= j < i && #[trigger] replies_to(events[j], events[i], actions[i])
            },
{
    assert forall|i: int|
        0 <= i < actions.len() && #[trigger] actions[i] is Publish implies {
        &&& events[i] is TextRecognized
        &&& exists|j: int| 0 <= j < i && #[trigger] replies_to(events[j], events[i], actions[i])
    } by {
        lemma_stages_backed(stages, events, actions, i);
        assert(step_post(stages[i], events[i], stages[i + 1], actions[i]));
        let job = stages[i]->Recognizing_0;
        let w = choose|j: int| 0 <= j < i && #[trigger] delivered_job(events[j]) == Some(job@);
        assert(delivered_job(events[w]) == Some(job@));
        assert(replies_to(events[w], events[i], actions[i]));
    }
}

} // verus!
