//! What the two network operations do to the store: submitting a job and
//! asking for its status.

use crate::job::{JobRecord, JobView, Status, StatusView};
use crate::store::{after_insert, after_read, read_view, valid_store, JobStore};
use vstd::prelude::*;

verus! {

/// Why a submission was refused.
#[derive(Debug, Clone, Copy, PartialEq, Eq, Structural)]
pub enum SubmitError {
    /// The request body is not Base64.
    MalformedBody,
    /// A job with this identifier is already stored.
    DuplicateId,
}

/// The HTTP status code that goes with a refused submission.
pub open spec fn code_for_refusal(error: SubmitError) -> u16 {
    match error {
        SubmitError::MalformedBody => 400,
        SubmitError::DuplicateId => 409,
    }
}

impl SubmitError {
    /// The HTTP status code that goes with this refusal.
    pub fn http_code(&self) -> (code: u16)
        ensures
            code == code_for_refusal(*self),
    {
        match self {
            SubmitError::MalformedBody => 400,
            SubmitError::DuplicateId => 409,
        }
    }
}

/// The bytes that a text stands for in Base64 with the standard alphabet, if
/// it is such a text at all.
pub uninterp spec fn base64_decoded(text: Seq<u8>) -> Option<Seq<u8>>;

/// Calls `base64::decode`, which decodes Base64 with the standard alphabet
/// and depends on the text alone. Its error, which says where the text went
/// wrong, is dropped.
#[verifier::external_body]
fn base64_decode(text: &[u8]) -> (res: Option<Vec<u8>>)
    ensures
        match res {
            Some(bytes) => base64_decoded(text@) == Some(bytes@),
            None => base64_decoded(text@) is None,
        },
{
    match base64::decode(text) {
        Ok(bytes) => Some(bytes),
        Err(_) => None,
    }
}

/// The image that a request body carries in Base64.
pub fn decode_body(body: &[u8]) -> (res: Result<Vec<u8>, SubmitError>)
    ensures
        match res {
            Ok(payload) => base64_decoded(body@) == Some(payload@),
            Err(e) => base64_decoded(body@) is None && e == SubmitError::MalformedBody,
        },
{
    match base64_decode(body) {
        Some(payload) => Ok(payload),
        None => Err(SubmitError::MalformedBody),
    }
}

/// Queues an image under a freshly generated identifier and hands the
/// identifier back. An identifier that is taken is refused.
pub fn submit(store: &mut JobStore, id: String, client_tag: String, payload: Vec<u8>) -> (res:
    Result<String, SubmitError>)
    ensures
        match res {
            Ok(given) => given@ == id@ && !old(store)@.contains_key(id@),
            Err(e) => e == SubmitError::DuplicateId && old(store)@.contains_key(id@),
        },
        final(store)@ == after_insert(old(store)@, JobView::waiting(id@, client_tag@, payload@)),
        valid_store(final(store)@),
{
    let given = id.clone();
    match store.insert(id, client_tag, payload) {
        Ok(()) => Ok(given),
        Err(_) => Err(SubmitError::DuplicateId),
    }
}

/// Queues the image that a request body carries in Base64. A body that is
/// not Base64 never reaches the store.
pub fn submit_encoded(store: &mut JobStore, id: String, client_tag: String, body: &[u8]) -> (res:
    Result<String, SubmitError>)
    ensures
        match base64_decoded(body@) {
            None => {
                &&& res matches Err(e) && e == SubmitError::MalformedBody
                &&& final(store)@ == old(store)@
            },
            Some(payload) => {
                &&& match res {
                    Ok(given) => given@ == id@ && !old(store)@.contains_key(id@),
                    Err(e) => e == SubmitError::DuplicateId && old(store)@.contains_key(id@),
                }
                &&& final(store)@ == after_insert(
                    old(store)@,
                    JobView::waiting(id@, client_tag@, payload),
                )
            },
        },
{
    match decode_body(body) {
        Err(e) => Err(e),
        Ok(payload) => submit(store, id, client_tag, payload),
    }
}

/// The answer to a status query.
#[derive(Debug, Clone, PartialEq, Eq)]
pub enum StatusResponse {
    /// No job is stored under the identifier.
    NotFound,
    /// The job waits or is being processed; the record comes without image.
    InProgress(JobRecord),
    /// The job is finished; the record holds the converted image.
    Done(JobRecord),
    /// The job failed, for the reason given.
    Failed(String),
}

/// The mathematical value of a [`StatusResponse`].
pub enum StatusResponseView {
    NotFound,
    InProgress(JobView),
    Done(JobView),
    Failed(Seq<char>),
}

impl View for StatusResponse {
    type V = StatusResponseView;

    open spec fn view(&self) -> StatusResponseView {
        match self {
            StatusResponse::NotFound => StatusResponseView::NotFound,
            StatusResponse::InProgress(record) => StatusResponseView::InProgress(record@),
            StatusResponse::Done(record) => StatusResponseView::Done(record@),
            StatusResponse::Failed(reason) => StatusResponseView::Failed(reason@),
        }
    }
}

/// The answer that goes with what a read of the store showed.
pub open spec fn response_for(shown: Option<JobView>) -> StatusResponseView {
    match shown {
        None => StatusResponseView::NotFound,
        Some(record) => match record.status {
            StatusView::Waiting => StatusResponseView::InProgress(record),
            StatusView::Processing => StatusResponseView::InProgress(record),
            StatusView::Finished => StatusResponseView::Done(record),
            StatusView::Failed(reason) => StatusResponseView::Failed(reason),
        },
    }
}

/// The HTTP status code that goes with an answer.
pub open spec fn code_for(response: StatusResponseView) -> u16 {
    match response {
        StatusResponseView::NotFound => 404,
        StatusResponseView::InProgress(_) => 200,
        StatusResponseView::Done(_) => 200,
        StatusResponseView::Failed(_) => 500,
    }
}

impl StatusResponse {
    /// The HTTP status code that goes with this answer.
    pub fn http_code(&self) -> (code: u16)
        ensures
            code == code_for(self@),
    {
        match self {
            StatusResponse::NotFound => 404,
            StatusResponse::InProgress(_) => 200,
            StatusResponse::Done(_) => 200,
            StatusResponse::Failed(_) => 500,
        }
    }
}

/// Answers a status query for `id`. A finished job is handed out with its
/// image and leaves the store; any other job stays.
pub fn status(store: &mut JobStore, id: &str) -> (response: StatusResponse)
    ensures
        response@ == response_for(read_view(old(store)@, id@)),
        final(store)@ == after_read(old(store)@, id@),
        valid_store(final(store)@),
{
    match store.read_and_maybe_consume(id) {
        None => StatusResponse::NotFound,
        Some(record) => {
            if record.status.is_finished() {
                StatusResponse::Done(record)
            } else {
                match &record.status {
                    Status::Failed(reason) => StatusResponse::Failed(reason.clone()),
                    _ => StatusResponse::InProgress(record),
                }
            }
        },
    }
}

} // verus!
