//! The job store: every live job under its identifier.
//!
//! Each operation takes the store by `&mut`, so it runs as one indivisible
//! step; callers that share a store between threads keep it behind one lock.

use crate::job::{JobRecord, JobView, Outcome, OutcomeView, Status};
use vstd::prelude::*;

verus! {

/// Why a store operation changed nothing.
#[derive(Debug, Clone, Copy, PartialEq, Eq, Structural)]
pub enum StoreError {
    /// A job with this identifier is already stored.
    DuplicateId,
    /// No job with this identifier is stored.
    NotFound,
    /// The job is stored, but no worker holds it: it cannot be completed.
    NotProcessing,
}

/// `id` names a stored job that waits for a worker.
pub open spec fn is_waiting(m: Map<Seq<char>, JobView>, id: Seq<char>) -> bool {
    m.contains_key(id) && m[id].status is Waiting
}

/// `id` names a stored job that a worker holds.
pub open spec fn is_processing(m: Map<Seq<char>, JobView>, id: Seq<char>) -> bool {
    m.contains_key(id) && m[id].status is Processing
}

/// `id` names a stored job whose converted image waits to be fetched.
pub open spec fn is_finished(m: Map<Seq<char>, JobView>, id: Seq<char>) -> bool {
    m.contains_key(id) && m[id].status is Finished
}

/// Some stored job waits for a worker.
pub open spec fn has_waiting(m: Map<Seq<char>, JobView>) -> bool {
    exists|id: Seq<char>| is_waiting(m, id)
}

/// What holds of every store: finitely many jobs, each under its own
/// identifier, none holding an image while processed or after a failure.
pub open spec fn valid_store(m: Map<Seq<char>, JobView>) -> bool {
    &&& m.dom().finite()
    &&& forall|id: Seq<char>| #[trigger]
        m.contains_key(id) ==> m[id].id == id && m[id].well_formed()
}

/// The store after an attempt to insert `record`: unchanged if its identifier
/// is taken.
pub open spec fn after_insert(m: Map<Seq<char>, JobView>, record: JobView) -> Map<
    Seq<char>,
    JobView,
> {
    if m.contains_key(record.id) {
        m
    } else {
        m.insert(record.id, record)
    }
}

/// The store after a worker claimed the waiting job `id`.
pub open spec fn after_claim(m: Map<Seq<char>, JobView>, id: Seq<char>) -> Map<
    Seq<char>,
    JobView,
> {
    if is_waiting(m, id) {
        m.insert(id, m[id].claimed())
    } else {
        m
    }
}

/// The store after the job `id` was reported as converted to `converted`:
/// unchanged unless a worker holds that job.
pub open spec fn after_success(
    m: Map<Seq<char>, JobView>,
    id: Seq<char>,
    converted: Seq<u8>,
) -> Map<Seq<char>, JobView> {
    if is_processing(m, id) {
        m.insert(id, m[id].finished(converted))
    } else {
        m
    }
}

/// The store after the job `id` was reported as failed for `reason`:
/// unchanged unless a worker holds that job.
pub open spec fn after_failure(
    m: Map<Seq<char>, JobView>,
    id: Seq<char>,
    reason: Seq<char>,
) -> Map<Seq<char>, JobView> {
    if is_processing(m, id) {
        m.insert(id, m[id].failed(reason))
    } else {
        m
    }
}

/// The store after the job `id` was reported as having come to `outcome`.
pub open spec fn after_complete(
    m: Map<Seq<char>, JobView>,
    id: Seq<char>,
    outcome: OutcomeView,
) -> Map<Seq<char>, JobView> {
    match outcome {
        OutcomeView::Converted(converted) => after_success(m, id, converted),
        OutcomeView::Failed(error) => after_failure(m, id, error.reason()),
    }
}

/// What a status query for `id` returns.
pub open spec fn read_view(m: Map<Seq<char>, JobView>, id: Seq<char>) -> Option<JobView> {
    if m.contains_key(id) {
        Some(m[id].shown())
    } else {
        None
    }
}

/// The store after a status query for `id`: a finished job is gone.
pub open spec fn after_read(m: Map<Seq<char>, JobView>, id: Seq<char>) -> Map<
    Seq<char>,
    JobView,
> {
    if is_finished(m, id) {
        m.remove(id)
    } else {
        m
    }
}

/// Which error a completion of `id` meets, if any.
pub open spec fn complete_error(m: Map<Seq<char>, JobView>, id: Seq<char>) -> Option<StoreError> {
    if !m.contains_key(id) {
        Some(StoreError::NotFound)
    } else if !(m[id].status is Processing) {
        Some(StoreError::NotProcessing)
    } else {
        None
    }
}

spec fn stored_at(jobs: Seq<JobRecord>, id: Seq<char>, i: int) -> bool {
    0 <= i < jobs.len() && jobs[i].id@ == id
}

spec fn unique_ids(jobs: Seq<JobRecord>) -> bool {
    forall|i: int, j: int|
        0 <= i < jobs.len() && 0 <= j < jobs.len() && jobs[i].id@ == jobs[j].id@ ==> i == j
}

spec fn all_well_formed(jobs: Seq<JobRecord>) -> bool {
    forall|i: int| 0 <= i < jobs.len() ==> (#[trigger] jobs[i])@.well_formed()
}

spec fn model_of(jobs: Seq<JobRecord>) -> Map<Seq<char>, JobView> {
    Map::new(
        |id: Seq<char>| exists|i: int| stored_at(jobs, id, i),
        |id: Seq<char>| jobs[choose|i: int| stored_at(jobs, id, i)]@,
    )
}

proof fn lemma_model_at(jobs: Seq<JobRecord>, i: int)
    requires
        unique_ids(jobs),
        0 <= i < jobs.len(),
    ensures
        model_of(jobs).contains_key(jobs[i].id@),
        model_of(jobs)[jobs[i].id@] == jobs[i]@,
{
    let id = jobs[i].id@;
    assert(stored_at(jobs, id, i));
    let j = choose|j: int| stored_at(jobs, id, j);
    assert(stored_at(jobs, id, j));
    assert(j == i);
}

proof fn lemma_model_absent(jobs: Seq<JobRecord>, id: Seq<char>)
    requires
        forall|i: int| 0 <= i < jobs.len() ==> (#[trigger] jobs[i]).id@ != id,
    ensures
        !model_of(jobs).contains_key(id),
{
    if model_of(jobs).contains_key(id) {
        let j = choose|j: int| stored_at(jobs, id, j);
        assert(stored_at(jobs, id, j));
        assert(jobs[j].id@ == id);
    }
}

proof fn lemma_model_index(jobs: Seq<JobRecord>, id: Seq<char>) -> (i: int)
    requires
        unique_ids(jobs),
        model_of(jobs).contains_key(id),
    ensures
        0 <= i < jobs.len(),
        jobs[i].id@ == id,
        model_of(jobs)[id] == jobs[i]@,
{
    let i = choose|i: int| stored_at(jobs, id, i);
    assert(stored_at(jobs, id, i));
    i
}

proof fn lemma_push(jobs: Seq<JobRecord>, record: JobRecord)
    requires
        unique_ids(jobs),
        !model_of(jobs).contains_key(record.id@),
    ensures
        unique_ids(jobs.push(record)),
        model_of(jobs.push(record)) == model_of(jobs).insert(record.id@, record@),
{
    let grown = jobs.push(record);
    assert forall|i: int| 0 <= i < jobs.len() implies (#[trigger] jobs[i]).id@ != record.id@ by {
        lemma_model_at(jobs, i);
    }
    assert(unique_ids(grown));
    let target = model_of(jobs).insert(record.id@, record@);
    assert forall|id: Seq<char>| #[trigger]
        model_of(grown).contains_key(id) <==> target.contains_key(id) by {
        if model_of(grown).contains_key(id) {
            let i = lemma_model_index(grown, id);
            if i < jobs.len() {
                assert(stored_at(jobs, id, i));
            }
        }
        if target.contains_key(id) {
            if id == record.id@ {
                assert(stored_at(grown, id, jobs.len() as int));
            } else {
                let i = lemma_model_index(jobs, id);
                assert(stored_at(grown, id, i));
            }
        }
    }
    assert forall|id: Seq<char>| #[trigger] model_of(grown).contains_key(id) implies model_of(
        grown,
    )[id] == target[id] by {
        let i = lemma_model_index(grown, id);
        if i < jobs.len() {
            lemma_model_at(jobs, i);
        }
    }
    assert(model_of(grown) =~= target);
}

proof fn lemma_update(jobs: Seq<JobRecord>, i: int, record: JobRecord)
    requires
        unique_ids(jobs),
        0 <= i < jobs.len(),
        record.id@ == jobs[i].id@,
    ensures
        unique_ids(jobs.update(i, record)),
        model_of(jobs.update(i, record)) == model_of(jobs).insert(record.id@, record@),
{
    let changed = jobs.update(i, record);
    assert forall|a: int, b: int|
        0 <= a < changed.len() && 0 <= b < changed.len() && changed[a].id@
            == changed[b].id@ implies a == b by {
        assert(changed[a].id@ == jobs[a].id@);
        assert(changed[b].id@ == jobs[b].id@);
    }
    let target = model_of(jobs).insert(record.id@, record@);
    assert forall|id: Seq<char>| #[trigger]
        model_of(changed).contains_key(id) <==> target.contains_key(id) by {
        if model_of(changed).contains_key(id) {
            let j = lemma_model_index(changed, id);
            assert(changed[j].id@ == jobs[j].id@);
            assert(stored_at(jobs, id, j));
        }
        if target.contains_key(id) {
            if id == record.id@ {
                assert(stored_at(changed, id, i));
            } else {
                let j = lemma_model_index(jobs, id);
                assert(stored_at(changed, id, j));
            }
        }
    }
    assert forall|id: Seq<char>| #[trigger] model_of(changed).contains_key(id) implies model_of(
        changed,
    )[id] == target[id] by {
        let j = lemma_model_index(changed, id);
        assert(changed[j].id@ == jobs[j].id@);
        if j != i {
            lemma_model_at(jobs, j);
        }
    }
    assert(model_of(changed) =~= target);
}

proof fn lemma_remove(jobs: Seq<JobRecord>, i: int)
    requires
        unique_ids(jobs),
        0 <= i < jobs.len(),
    ensures
        unique_ids(jobs.remove(i)),
        model_of(jobs.remove(i)) == model_of(jobs).remove(jobs[i].id@),
{
    let rest = jobs.remove(i);
    let gone = jobs[i].id@;
    assert forall|a: int| 0 <= a < rest.len() implies #[trigger] rest[a] == jobs[if a < i {
        a
    } else {
        a + 1
    }] by {}
    assert forall|a: int, b: int|
        0 <= a < rest.len() && 0 <= b < rest.len() && rest[a].id@ == rest[b].id@ implies a
        == b by {
        let a0 = if a < i { a } else { a + 1 };
        let b0 = if b < i { b } else { b + 1 };
        assert(rest[a] == jobs[a0]);
        assert(rest[b] == jobs[b0]);
        assert(a0 == b0);
    }
    let target = model_of(jobs).remove(gone);
    assert forall|id: Seq<char>| #[trigger]
        model_of(rest).contains_key(id) <==> target.contains_key(id) by {
        if model_of(rest).contains_key(id) {
            let a = lemma_model_index(rest, id);
            let a0 = if a < i { a } else { a + 1 };
            assert(rest[a] == jobs[a0]);
            assert(stored_at(jobs, id, a0));
            assert(a0 != i);
        }
        if target.contains_key(id) {
            let j = lemma_model_index(jobs, id);
            assert(j != i);
            let a = if j < i { j } else { j - 1 };
            assert(rest[a] == jobs[j]);
            assert(stored_at(rest, id, a));
        }
    }
    assert forall|id: Seq<char>| #[trigger] model_of(rest).contains_key(id) implies model_of(
        rest,
    )[id] == target[id] by {
        let a = lemma_model_index(rest, id);
        let a0 = if a < i { a } else { a + 1 };
        assert(rest[a] == jobs[a0]);
        lemma_model_at(jobs, a0);
    }
    assert(model_of(rest) =~= target);
}

proof fn lemma_model_size(jobs: Seq<JobRecord>)
    requires
        unique_ids(jobs),
    ensures
        model_of(jobs).dom().finite(),
        model_of(jobs).dom().len() == jobs.len(),
    decreases jobs.len(),
{
    if jobs.len() == 0 {
        assert(model_of(jobs) =~= Map::<Seq<char>, JobView>::empty());
    } else {
        let front = jobs.drop_last();
        let last = jobs.last();
        assert(unique_ids(front)) by {
            assert forall|a: int, b: int|
                0 <= a < front.len() && 0 <= b < front.len() && front[a].id@
                    == front[b].id@ implies a == b by {
                assert(front[a] == jobs[a]);
                assert(front[b] == jobs[b]);
            }
        }
        lemma_model_size(front);
        assert forall|a: int| 0 <= a < front.len() implies (#[trigger] front[a]).id@
            != last.id@ by {
            assert(front[a] == jobs[a]);
        }
        lemma_model_absent(front, last.id@);
        lemma_push(front, last);
        assert(front.push(last) =~= jobs);
    }
}

proof fn lemma_model_valid(jobs: Seq<JobRecord>)
    requires
        unique_ids(jobs),
        all_well_formed(jobs),
    ensures
        valid_store(model_of(jobs)),
{
    lemma_model_size(jobs);
    assert forall|id: Seq<char>| #[trigger] model_of(jobs).contains_key(id) implies model_of(
        jobs,
    )[id].id == id && model_of(jobs)[id].well_formed() by {
        let i = lemma_model_index(jobs, id);
        assert(jobs[i]@.well_formed());
    }
}

fn position(jobs: &Vec<JobRecord>, id: &String) -> (found: Option<usize>)
    ensures
        match found {
            Some(i) => i < jobs.len() && jobs[i as int].id@ == id@,
            None => forall|i: int| 0 <= i < jobs.len() ==> (#[trigger] jobs[i]).id@ != id@,
        },
{
    let mut i: usize = 0;
    while i < jobs.len()
        invariant
            i <= jobs.len(),
            forall|j: int| 0 <= j < i ==> (#[trigger] jobs[j]).id@ != id@,
        decreases jobs.len() - i,
    {
        if jobs[i].id == *id {
            return Some(i);
        }
        i += 1;
    }
    None
}

fn first_waiting(jobs: &Vec<JobRecord>) -> (found: Option<usize>)
    ensures
        match found {
            Some(i) => i < jobs.len() && jobs[i as int].status@ is Waiting,
            None => forall|i: int| 0 <= i < jobs.len() ==> !((#[trigger] jobs[i]).status@ is Waiting),
        },
{
    let mut i: usize = 0;
    while i < jobs.len()
        invariant
            i <= jobs.len(),
            forall|j: int| 0 <= j < i ==> !((#[trigger] jobs[j]).status@ is Waiting),
        decreases jobs.len() - i,
    {
        if jobs[i].status.is_waiting() {
            return Some(i);
        }
        i += 1;
    }
    None
}

/// Every live job, under its identifier.
pub struct JobStore {
    jobs: Vec<JobRecord>,
}

impl View for JobStore {
    type V = Map<Seq<char>, JobView>;

    closed spec fn view(&self) -> Map<Seq<char>, JobView> {
        model_of(self.jobs@)
    }
}

impl JobStore {
    #[verifier::type_invariant]
    spec fn inv(self) -> bool {
        unique_ids(self.jobs@) && all_well_formed(self.jobs@)
    }

    /// A store without jobs.
    pub fn new() -> (store: JobStore)
        ensures
            store@ == Map::<Seq<char>, JobView>::empty(),
            valid_store(store@),
    {
        let store = JobStore { jobs: Vec::new() };
        proof {
            lemma_model_valid(store.jobs@);
            assert(store@ =~= Map::<Seq<char>, JobView>::empty());
        }
        store
    }

    /// The number of stored jobs.
    pub fn len(&self) -> (n: usize)
        ensures
            n == self@.dom().len(),
            valid_store(self@),
    {
        proof {
            use_type_invariant(self);
            lemma_model_valid(self.jobs@);
            lemma_model_size(self.jobs@);
        }
        self.jobs.len()
    }

    /// Whether no job is stored.
    pub fn is_empty(&self) -> (b: bool)
        ensures
            b == (self@ == Map::<Seq<char>, JobView>::empty()),
    {
        proof {
            use_type_invariant(self);
            lemma_model_size(self.jobs@);
            if self.jobs@.len() == 0 {
                assert(self@ =~= Map::<Seq<char>, JobView>::empty());
            }
        }
        self.jobs.len() == 0
    }

    /// Whether a job is stored under `id`.
    pub fn contains(&self, id: &str) -> (b: bool)
        ensures
            b == self@.contains_key(id@),
    {
        proof {
            use_type_invariant(self);
        }
        let key = id.to_owned();
        match position(&self.jobs, &key) {
            Some(i) => {
                proof {
                    lemma_model_at(self.jobs@, i as int);
                }
                true
            },
            None => {
                proof {
                    lemma_model_absent(self.jobs@, key@);
                }
                false
            },
        }
    }

    /// Stores a new waiting job under `id`. Refuses an identifier that is
    /// taken, and then changes nothing.
    pub fn insert(&mut self, id: String, client_tag: String, payload: Vec<u8>) -> (res: Result<
        (),
        StoreError,
    >)
        ensures
            res is Ok <==> !old(self)@.contains_key(id@),
            res matches Err(e) ==> e == StoreError::DuplicateId,
            final(self)@ == after_insert(
                old(self)@,
                JobView::waiting(id@, client_tag@, payload@),
            ),
            valid_store(final(self)@),
    {
        proof {
            use_type_invariant(&*self);
            lemma_model_valid(self.jobs@);
        }
        match position(&self.jobs, &id) {
            Some(i) => {
                proof {
                    lemma_model_at(self.jobs@, i as int);
                }
                Err(StoreError::DuplicateId)
            },
            None => {
                let record = JobRecord::new(id, client_tag, payload);
                let mut jobs: Vec<JobRecord> = Vec::new();
                std::mem::swap(&mut jobs, &mut self.jobs);
                proof {
                    lemma_model_absent(jobs@, record.id@);
                    lemma_push(jobs@, record);
                }
                jobs.push(record);
                proof {
                    lemma_model_valid(jobs@);
                }
                self.jobs = jobs;
                Ok(())
            },
        }
    }

    /// Puts `record` in the place of the stored record at index `i`, which has
    /// the same identifier, and hands the stored one out.
    fn replace(&mut self, i: usize, record: JobRecord) -> (previous: JobRecord)
        requires
            i < old(self).jobs@.len(),
            record.id@ == old(self).jobs@[i as int].id@,
            record@.well_formed(),
        ensures
            previous == old(self).jobs@[i as int],
            final(self)@ == old(self)@.insert(record.id@, record@),
            valid_store(final(self)@),
    {
        proof {
            use_type_invariant(&*self);
        }
        let mut jobs: Vec<JobRecord> = Vec::new();
        std::mem::swap(&mut jobs, &mut self.jobs);
        let ghost before = jobs@;
        let previous = jobs.remove(i);
        jobs.insert(i, record);
        proof {
            lemma_update(before, i as int, record);
            assert(jobs@ =~= before.update(i as int, record));
            assert forall|j: int| 0 <= j < jobs@.len() implies (#[trigger] jobs@[j])@.well_formed() by {
                if j != i {
                    assert(jobs@[j] == before[j]);
                }
            }
            lemma_model_valid(jobs@);
        }
        self.jobs = jobs;
        previous
    }

    /// Ends the job `id`, held by a worker, with the given image and status.
    fn settle(&mut self, id: &str, payload: Vec<u8>, status: Status) -> (res: Result<
        (),
        StoreError,
    >)
        requires
            status@.is_terminal(),
            status@ is Failed ==> payload@.len() == 0,
        ensures
            res == match complete_error(old(self)@, id@) {
                Some(e) => Err::<(), StoreError>(e),
                None => Ok::<(), StoreError>(()),
            },
            final(self)@ == if is_processing(old(self)@, id@) {
                old(self)@.insert(
                    id@,
                    JobView { payload: payload@, status: status@, ..old(self)@[id@] },
                )
            } else {
                old(self)@
            },
            valid_store(final(self)@),
    {
        proof {
            use_type_invariant(&*self);
            lemma_model_valid(self.jobs@);
        }
        let key = id.to_owned();
        match position(&self.jobs, &key) {
            None => {
                proof {
                    lemma_model_absent(self.jobs@, key@);
                }
                Err(StoreError::NotFound)
            },
            Some(i) => {
                proof {
                    lemma_model_at(self.jobs@, i as int);
                }
                if !self.jobs[i].status.is_processing() {
                    return Err(StoreError::NotProcessing);
                }
                let settled = JobRecord {
                    id: key,
                    client_tag: self.jobs[i].client_tag.clone(),
                    payload,
                    status,
                };
                let _ = self.replace(i, settled);
                Ok(())
            },
        }
    }

    /// Hands one waiting job to the caller, if there is any: the stored record
    /// becomes `Processing` and gives up its image, and the record as it was
    /// is returned. Which of several waiting jobs is taken is not fixed.
    pub fn claim_next_waiting(&mut self) -> (claim: Option<JobRecord>)
        ensures
            claim is Some <==> has_waiting(old(self)@),
            claim is None ==> final(self)@ == old(self)@,
            claim matches Some(job) ==> {
                &&& is_waiting(old(self)@, job.id@)
                &&& job@ == old(self)@[job.id@]
                &&& final(self)@ == after_claim(old(self)@, job.id@)
            },
            valid_store(final(self)@),
    {
        proof {
            use_type_invariant(&*self);
            lemma_model_valid(self.jobs@);
        }
        match first_waiting(&self.jobs) {
            None => {
                proof {
                    if has_waiting(self@) {
                        let id = choose|id: Seq<char>| is_waiting(self@, id);
                        let i = lemma_model_index(self.jobs@, id);
                        assert(!(self.jobs@[i].status@ is Waiting));
                    }
                }
                None
            },
            Some(i) => {
                proof {
                    lemma_model_at(self.jobs@, i as int);
                }
                let held = JobRecord {
                    id: self.jobs[i].id.clone(),
                    client_tag: self.jobs[i].client_tag.clone(),
                    payload: Vec::new(),
                    status: Status::Processing,
                };
                let job = self.replace(i, held);
                proof {
                    assert(is_waiting(old(self)@, job.id@));
                    assert(held@ == job@.claimed());
                }
                Some(job)
            },
        }
    }

    /// Reports a successful conversion of the job `id`, held by a worker: it
    /// becomes `Finished` with the converted image. A job that is gone, or
    /// that no worker holds, is left as it is and reported as an error.
    pub fn complete_success(&mut self, id: &str, converted: Vec<u8>) -> (res: Result<
        (),
        StoreError,
    >)
        ensures
            res == match complete_error(old(self)@, id@) {
                Some(e) => Err::<(), StoreError>(e),
                None => Ok::<(), StoreError>(()),
            },
            final(self)@ == after_success(old(self)@, id@, converted@),
            valid_store(final(self)@),
    {
        self.settle(id, converted, Status::Finished)
    }

    /// Reports a failed conversion of the job `id`, held by a worker: it
    /// becomes `Failed` with the reason and holds no image. A job that is
    /// gone, or that no worker holds, is left as it is and reported as an
    /// error.
    pub fn complete_failure(&mut self, id: &str, reason: String) -> (res: Result<(), StoreError>)
        ensures
            res == match complete_error(old(self)@, id@) {
                Some(e) => Err::<(), StoreError>(e),
                None => Ok::<(), StoreError>(()),
            },
            final(self)@ == after_failure(old(self)@, id@, reason@),
            valid_store(final(self)@),
    {
        self.settle(id, Vec::new(), Status::Failed(reason))
    }

    /// Writes the end of a conversion back: a converted image as a success,
    /// an error as a failure for the error's reason.
    pub fn complete(&mut self, id: &str, outcome: Outcome) -> (res: Result<(), StoreError>)
        ensures
            res == match complete_error(old(self)@, id@) {
                Some(e) => Err::<(), StoreError>(e),
                None => Ok::<(), StoreError>(()),
            },
            final(self)@ == after_complete(old(self)@, id@, outcome@),
            valid_store(final(self)@),
    {
        match outcome {
            Outcome::Converted(converted) => self.complete_success(id, converted),
            Outcome::Failed(error) => self.complete_failure(id, error.describe()),
        }
    }

    /// Answers a status query: the record under `id`, without its image
    /// unless the job is finished. A finished job leaves the store with this
    /// read, so its image is delivered once.
    pub fn read_and_maybe_consume(&mut self, id: &str) -> (shown: Option<JobRecord>)
        ensures
            match shown {
                Some(record) => read_view(old(self)@, id@) == Some(record@),
                None => read_view(old(self)@, id@) is None,
            },
            final(self)@ == after_read(old(self)@, id@),
            valid_store(final(self)@),
    {
        proof {
            use_type_invariant(&*self);
            lemma_model_valid(self.jobs@);
        }
        let key = id.to_owned();
        match position(&self.jobs, &key) {
            None => {
                proof {
                    lemma_model_absent(self.jobs@, key@);
                }
                None
            },
            Some(i) => {
                proof {
                    lemma_model_at(self.jobs@, i as int);
                }
                if self.jobs[i].status.is_finished() {
                    let mut jobs: Vec<JobRecord> = Vec::new();
                    std::mem::swap(&mut jobs, &mut self.jobs);
                    let ghost before = jobs@;
                    let job = jobs.remove(i);
                    proof {
                        lemma_remove(before, i as int);
                        assert forall|j: int| 0 <= j < jobs@.len() implies (#[trigger] jobs@[j])@.well_formed() by {
                            assert(jobs@[j] == before[if j < i { j } else { j + 1 }]);
                        }
                        lemma_model_valid(jobs@);
                    }
                    self.jobs = jobs;
                    Some(job)
                } else {
                    let stored = &self.jobs[i];
                    Some(
                        JobRecord {
                            id: stored.id.clone(),
                            client_tag: stored.client_tag.clone(),
                            payload: Vec::new(),
                            status: stored.status.duplicate(),
                        },
                    )
                }
            },
        }
    }
}

} // verus!
