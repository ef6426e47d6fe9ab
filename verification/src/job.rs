//! The record kept for one job, and the statuses it passes through.

use crate::codec::{ConversionError, ConversionErrorView};
use vstd::prelude::*;

verus! {

/// Where a job stands in its lifecycle.
#[derive(Debug, Clone, PartialEq, Eq)]
pub enum Status {
    /// Submitted, not yet taken by a worker.
    Waiting,
    /// Taken by exactly one worker, conversion under way.
    Processing,
    /// Converted; the record holds the converted image.
    Finished,
    /// Conversion failed, for the reason given. Nothing leads out of this status.
    Failed(String),
}

/// The mathematical value of a [`Status`].
pub enum StatusView {
    Waiting,
    Processing,
    Finished,
    Failed(Seq<char>),
}

impl View for Status {
    type V = StatusView;

    open spec fn view(&self) -> StatusView {
        match self {
            Status::Waiting => StatusView::Waiting,
            Status::Processing => StatusView::Processing,
            Status::Finished => StatusView::Finished,
            Status::Failed(reason) => StatusView::Failed(reason@),
        }
    }
}

impl StatusView {
    /// `Finished` and `Failed` end a job's lifecycle.
    pub open spec fn is_terminal(self) -> bool {
        self is Finished || self is Failed
    }

    /// The statuses in which a record holds no image.
    pub open spec fn holds_no_image(self) -> bool {
        self is Processing || self is Failed
    }

    /// How far along its lifecycle a job is: 0 while waiting, 1 while being
    /// processed, 2 once it has ended.
    pub open spec fn stage(self) -> nat {
        match self {
            StatusView::Waiting => 0,
            StatusView::Processing => 1,
            StatusView::Finished => 2,
            StatusView::Failed(_) => 2,
        }
    }
}

impl Status {
    /// A copy of this status, the failure reason included.
    pub fn duplicate(&self) -> (copy: Status)
        ensures
            copy@ == self@,
    {
        match self {
            Status::Waiting => Status::Waiting,
            Status::Processing => Status::Processing,
            Status::Finished => Status::Finished,
            Status::Failed(reason) => Status::Failed(reason.clone()),
        }
    }

    /// Whether the job still waits for a worker.
    pub fn is_waiting(&self) -> (b: bool)
        ensures
            b == (self@ is Waiting),
    {
        match self {
            Status::Waiting => true,
            _ => false,
        }
    }

    /// Whether a worker holds the job.
    pub fn is_processing(&self) -> (b: bool)
        ensures
            b == (self@ is Processing),
    {
        match self {
            Status::Processing => true,
            _ => false,
        }
    }

    /// Whether the job was converted.
    pub fn is_finished(&self) -> (b: bool)
        ensures
            b == (self@ is Finished),
    {
        match self {
            Status::Finished => true,
            _ => false,
        }
    }

    /// Whether the job has ended, one way or the other.
    pub fn is_terminal(&self) -> (b: bool)
        ensures
            b == self@.is_terminal(),
    {
        match self {
            Status::Finished => true,
            Status::Failed(_) => true,
            _ => false,
        }
    }
}

/// One submitted image and what became of it.
#[derive(Debug, Clone, PartialEq, Eq)]
pub struct JobRecord {
    /// The identifier under which the job is stored and polled.
    pub id: String,
    /// The submitter's own label, carried along and never interpreted.
    pub client_tag: String,
    /// The image: as submitted while waiting, converted once finished,
    /// nothing in between and nothing after a failure.
    pub payload: Vec<u8>,
    /// The job's status.
    pub status: Status,
}

/// The mathematical value of a [`JobRecord`].
pub struct JobView {
    pub id: Seq<char>,
    pub client_tag: Seq<char>,
    pub payload: Seq<u8>,
    pub status: StatusView,
}

impl View for JobRecord {
    type V = JobView;

    open spec fn view(&self) -> JobView {
        JobView {
            id: self.id@,
            client_tag: self.client_tag@,
            payload: self.payload@,
            status: self.status@,
        }
    }
}

impl JobView {
    /// A record holds no image while it is being processed or after it failed.
    pub open spec fn well_formed(self) -> bool {
        self.status.holds_no_image() ==> self.payload.len() == 0
    }

    /// The record of a job that has just been submitted.
    pub open spec fn waiting(id: Seq<char>, client_tag: Seq<char>, payload: Seq<u8>) -> JobView {
        JobView { id, client_tag, payload, status: StatusView::Waiting }
    }

    /// This record handed to a worker: the image gone, the status `Processing`.
    pub open spec fn claimed(self) -> JobView {
        JobView { payload: Seq::empty(), status: StatusView::Processing, ..self }
    }

    /// This record after a successful conversion to `converted`.
    pub open spec fn finished(self, converted: Seq<u8>) -> JobView {
        JobView { payload: converted, status: StatusView::Finished, ..self }
    }

    /// This record after a conversion that failed for `reason`.
    pub open spec fn failed(self, reason: Seq<char>) -> JobView {
        JobView { payload: Seq::empty(), status: StatusView::Failed(reason), ..self }
    }

    /// What a status query shows of this record: all of it once finished,
    /// everything but the image before.
    pub open spec fn shown(self) -> JobView {
        if self.status is Finished {
            self
        } else {
            JobView { payload: Seq::empty(), ..self }
        }
    }
}

impl JobRecord {
    /// The record of a newly submitted job: `Waiting`, with the image as given.
    pub fn new(id: String, client_tag: String, payload: Vec<u8>) -> (record: JobRecord)
        ensures
            record@ == JobView::waiting(id@, client_tag@, payload@),
    {
        JobRecord { id, client_tag, payload, status: Status::Waiting }
    }
}

/// What a worker's conversion of one image came to.
#[derive(Debug, Clone, PartialEq, Eq)]
pub enum Outcome {
    /// The image in the target format.
    Converted(Vec<u8>),
    /// No target-format image could be made, for the reason given.
    Failed(ConversionError),
}

/// The mathematical value of an [`Outcome`].
pub enum OutcomeView {
    Converted(Seq<u8>),
    Failed(ConversionErrorView),
}

impl View for Outcome {
    type V = OutcomeView;

    open spec fn view(&self) -> OutcomeView {
        match self {
            Outcome::Converted(bytes) => OutcomeView::Converted(bytes@),
            Outcome::Failed(error) => OutcomeView::Failed(error@),
        }
    }
}

impl JobView {
    /// This record after a conversion that came to `outcome`: finished with
    /// the converted image, or failed with the error's reason.
    pub open spec fn settled(self, outcome: OutcomeView) -> JobView {
        match outcome {
            OutcomeView::Converted(bytes) => self.finished(bytes),
            OutcomeView::Failed(error) => self.failed(error.reason()),
        }
    }
}

} // verus!
