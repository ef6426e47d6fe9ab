//! What holds of the store whatever is done to it, stated over the same
//! functions that the contracts of its operations use.

use crate::codec::{
    conversion_outcome, converted_from, encoding, guessed_format, has_target_signature,
    lossy_webp, CanonicalImage, ConversionErrorView, DecodeErrorView, EncodeError, QUALITY,
};
use crate::job::{JobView, OutcomeView, StatusView};
use crate::store::{
    after_claim, after_complete, after_failure, after_insert, after_read, after_success,
    has_waiting, is_finished, is_processing, is_waiting, read_view, valid_store,
};
use crate::worker::{after_start, units_to_start, PoolView};
use vstd::prelude::*;

verus! {

/// One operation on the store.
pub enum StoreOp {
    /// A submission of a new job.
    Insert { id: Seq<char>, client_tag: Seq<char>, payload: Seq<u8> },
    /// A worker's claim of the waiting job `id`.
    Claim { id: Seq<char> },
    /// A worker's report that it converted the image of the job `id`.
    Succeed { id: Seq<char>, converted: Seq<u8> },
    /// A worker's report that it could not convert the image of the job `id`.
    Fail { id: Seq<char>, reason: Seq<char> },
    /// A status query for `id`.
    Read { id: Seq<char> },
}

impl StoreOp {
    /// The job that the operation is about.
    pub open spec fn target(self) -> Seq<char> {
        match self {
            StoreOp::Insert { id, .. } => id,
            StoreOp::Claim { id } => id,
            StoreOp::Succeed { id, .. } => id,
            StoreOp::Fail { id, .. } => id,
            StoreOp::Read { id } => id,
        }
    }
}

/// The store after an operation.
pub open spec fn apply(m: Map<Seq<char>, JobView>, op: StoreOp) -> Map<Seq<char>, JobView> {
    match op {
        StoreOp::Insert { id, client_tag, payload } => after_insert(
            m,
            JobView::waiting(id, client_tag, payload),
        ),
        StoreOp::Claim { id } => after_claim(m, id),
        StoreOp::Succeed { id, converted } => after_success(m, id, converted),
        StoreOp::Fail { id, reason } => after_failure(m, id, reason),
        StoreOp::Read { id } => after_read(m, id),
    }
}

/// The store after `n` status queries for `id` in a row.
pub open spec fn after_reads(m: Map<Seq<char>, JobView>, id: Seq<char>, n: nat) -> Map<
    Seq<char>,
    JobView,
>
    decreases n,
{
    if n == 0 {
        m
    } else {
        after_read(after_reads(m, id, (n - 1) as nat), id)
    }
}

/// Every operation leaves a valid store valid.
pub proof fn operation_keeps_store_valid(m: Map<Seq<char>, JobView>, op: StoreOp)
    requires
        valid_store(m),
    ensures
        valid_store(apply(m, op)),
{
}

/// An operation changes the job it is about and no other: every other job is
/// stored after it exactly as before.
pub proof fn operation_touches_one_job(m: Map<Seq<char>, JobView>, op: StoreOp, other: Seq<char>)
    requires
        other != op.target(),
    ensures
        apply(m, op).contains_key(other) == m.contains_key(other),
        m.contains_key(other) ==> apply(m, op)[other] == m[other],
{
}

/// A claim takes a waiting job out of the waiting ones: the job is then held
/// by a worker, it waits no more, and what else waits is what waited before.
pub proof fn claim_takes_job_from_waiting(m: Map<Seq<char>, JobView>, id: Seq<char>)
    requires
        is_waiting(m, id),
    ensures
        is_processing(after_claim(m, id), id),
        !is_waiting(after_claim(m, id), id),
        after_claim(m, id)[id] == m[id].claimed(),
        forall|other: Seq<char>| #[trigger]
            is_waiting(after_claim(m, id), other) <==> other != id && is_waiting(m, other),
{
}

/// Of several claimers that race for one waiting job, one succeeds: after
/// the claim of the only waiting job, no job waits.
pub proof fn sole_waiting_job_is_claimed_once(m: Map<Seq<char>, JobView>, id: Seq<char>)
    requires
        is_waiting(m, id),
        forall|other: Seq<char>| #[trigger] is_waiting(m, other) ==> other == id,
    ensures
        !has_waiting(after_claim(m, id)),
{
    claim_takes_job_from_waiting(m, id);
    if has_waiting(after_claim(m, id)) {
        let other = choose|other: Seq<char>| is_waiting(after_claim(m, id), other);
        assert(is_waiting(after_claim(m, id), other));
    }
}

/// No operation returns a stored job to an earlier status: while a job is
/// stored, its status only moves from waiting to processing to an end.
pub proof fn status_only_advances(m: Map<Seq<char>, JobView>, op: StoreOp, id: Seq<char>)
    requires
        m.contains_key(id),
        apply(m, op).contains_key(id),
    ensures
        apply(m, op)[id].status.stage() >= m[id].status.stage(),
        apply(m, op)[id].status.stage() <= m[id].status.stage() + 1,
        apply(m, op)[id].status.stage() == m[id].status.stage() ==> apply(m, op)[id] == m[id],
{
}

/// A job that has ended stays as it ended: no operation changes its record,
/// and only the status query that delivers a finished job removes it.
pub proof fn ended_job_is_final(m: Map<Seq<char>, JobView>, op: StoreOp, id: Seq<char>)
    requires
        m.contains_key(id),
        m[id].status.is_terminal(),
    ensures
        apply(m, op).contains_key(id) ==> apply(m, op)[id] == m[id],
        !apply(m, op).contains_key(id) ==> op == (StoreOp::Read { id }) && m[id].status is Finished,
{
}

/// A job leaves the store in one way only: finished, through the status
/// query that delivers it.
pub proof fn job_leaves_by_delivery_only(m: Map<Seq<char>, JobView>, op: StoreOp, id: Seq<char>)
    requires
        m.contains_key(id),
        !apply(m, op).contains_key(id),
    ensures
        op == (StoreOp::Read { id }),
        is_finished(m, id),
{
}

/// The report of a conversion is one of the two operations that end a job:
/// a converted image is a success, an error a failure for the error's reason.
pub proof fn completion_is_success_or_failure(
    m: Map<Seq<char>, JobView>,
    id: Seq<char>,
    outcome: OutcomeView,
)
    ensures
        outcome matches OutcomeView::Converted(converted) ==> after_complete(m, id, outcome)
            == apply(m, StoreOp::Succeed { id, converted }),
        outcome matches OutcomeView::Failed(error) ==> after_complete(m, id, outcome) == apply(
            m,
            StoreOp::Fail { id, reason: error.reason() },
        ),
{
}

/// The report of a conversion ends the job that a worker holds: it is
/// finished with the converted image, or failed with the reason and no image.
pub proof fn completion_ends_job(m: Map<Seq<char>, JobView>, id: Seq<char>, outcome: OutcomeView)
    requires
        is_processing(m, id),
    ensures
        after_complete(m, id, outcome)[id] == m[id].settled(outcome),
        after_complete(m, id, outcome)[id].status.is_terminal(),
        outcome matches OutcomeView::Converted(bytes) ==> {
            &&& after_complete(m, id, outcome)[id].status is Finished
            &&& after_complete(m, id, outcome)[id].payload == bytes
        },
        outcome matches OutcomeView::Failed(error) ==> {
            &&& after_complete(m, id, outcome)[id].status == StatusView::Failed(error.reason())
            &&& after_complete(m, id, outcome)[id].payload.len() == 0
        },
{
}

/// A finished job is delivered once: the first status query returns the
/// record with its image and removes it, and every later query for the same
/// identifier finds nothing.
pub proof fn finished_job_is_delivered_once(m: Map<Seq<char>, JobView>, id: Seq<char>, later: nat)
    requires
        is_finished(m, id),
    ensures
        read_view(m, id) == Some(m[id]),
        after_read(m, id) == m.remove(id),
        read_view(after_reads(m, id, later + 1), id) is None,
    decreases later,
{
    if later > 0 {
        finished_job_is_delivered_once(m, id, (later - 1) as nat);
        assert(!after_reads(m, id, later).contains_key(id));
    }
    assert(after_reads(m, id, 0) == m);
}

/// A failed job is never cleared by asking for it: every status query
/// returns the same failure and leaves the store as it was.
pub proof fn failed_job_is_kept(m: Map<Seq<char>, JobView>, id: Seq<char>, queries: nat)
    requires
        m.contains_key(id),
        m[id].status is Failed,
    ensures
        after_reads(m, id, queries) == m,
        read_view(after_reads(m, id, queries), id) == Some(m[id].shown()),
        m[id].shown().status == m[id].status,
    decreases queries,
{
    if queries > 0 {
        failed_job_is_kept(m, id, (queries - 1) as nat);
    }
}

/// A job that has not finished is shown without its image, and stays.
pub proof fn unfinished_job_is_shown_without_image(m: Map<Seq<char>, JobView>, id: Seq<char>)
    requires
        m.contains_key(id),
        !(m[id].status is Finished),
    ensures
        read_view(m, id) matches Some(shown) && shown.payload.len() == 0 && shown.status
            == m[id].status,
        after_read(m, id) == m,
{
}

/// Two jobs end independently of each other: the reports of their
/// conversions may arrive in either order, and each job ends as its own
/// conversion did, whatever became of the other.
pub proof fn completions_do_not_interfere(
    m: Map<Seq<char>, JobView>,
    a: Seq<char>,
    outcome_a: OutcomeView,
    b: Seq<char>,
    outcome_b: OutcomeView,
)
    requires
        a != b,
    ensures
        after_complete(after_complete(m, a, outcome_a), b, outcome_b) == after_complete(
            after_complete(m, b, outcome_b),
            a,
            outcome_a,
        ),
        is_processing(m, a) ==> after_complete(after_complete(m, a, outcome_a), b, outcome_b)[a]
            == m[a].settled(outcome_a),
        is_processing(m, b) ==> after_complete(after_complete(m, a, outcome_a), b, outcome_b)[b]
            == m[b].settled(outcome_b),
{
    let left = after_complete(after_complete(m, a, outcome_a), b, outcome_b);
    let right = after_complete(after_complete(m, b, outcome_b), a, outcome_a);
    assert(left =~= right);
}

/// Two waiting jobs may be processed in either order: whichever is claimed
/// and ended first, the store ends the same, and each job ends as its own
/// conversion did.
pub proof fn processing_order_does_not_matter(
    m: Map<Seq<char>, JobView>,
    a: Seq<char>,
    outcome_a: OutcomeView,
    b: Seq<char>,
    outcome_b: OutcomeView,
)
    requires
        a != b,
        is_waiting(m, a),
        is_waiting(m, b),
    ensures
        after_complete(
            after_claim(after_complete(after_claim(m, a), a, outcome_a), b),
            b,
            outcome_b,
        ) == after_complete(
            after_claim(after_complete(after_claim(m, b), b, outcome_b), a),
            a,
            outcome_a,
        ),
        after_complete(
            after_claim(after_complete(after_claim(m, a), a, outcome_a), b),
            b,
            outcome_b,
        ) == after_complete(
            after_complete(after_claim(after_claim(m, a), b), b, outcome_b),
            a,
            outcome_a,
        ),
        after_complete(
            after_claim(after_complete(after_claim(m, a), a, outcome_a), b),
            b,
            outcome_b,
        ) == m.insert(a, m[a].claimed().settled(outcome_a)).insert(
            b,
            m[b].claimed().settled(outcome_b),
        ),
{
    let end = m.insert(a, m[a].claimed().settled(outcome_a)).insert(
        b,
        m[b].claimed().settled(outcome_b),
    );
    let first_a = after_complete(
        after_claim(after_complete(after_claim(m, a), a, outcome_a), b),
        b,
        outcome_b,
    );
    let first_b = after_complete(
        after_claim(after_complete(after_claim(m, b), b, outcome_b), a),
        a,
        outcome_a,
    );
    let both_claimed = after_complete(
        after_complete(after_claim(after_claim(m, a), b), b, outcome_b),
        a,
        outcome_a,
    );
    assert(first_a =~= end);
    assert(first_b =~= end);
    assert(both_claimed =~= end);
}

/// Two submissions under different identifiers may arrive in either order.
pub proof fn submissions_commute(m: Map<Seq<char>, JobView>, first: JobView, second: JobView)
    requires
        first.id != second.id,
    ensures
        after_insert(after_insert(m, first), second) == after_insert(
            after_insert(m, second),
            first,
        ),
{
    let left = after_insert(after_insert(m, first), second);
    let right = after_insert(after_insert(m, second), first);
    assert(left =~= right);
}

/// Bytes in which no image format is recognised have one outcome, whoever
/// converts them and when: the failure that says so. No other bytes have it.
pub proof fn unrecognised_image_has_one_outcome(submitted: Seq<u8>, outcome: OutcomeView)
    requires
        conversion_outcome(submitted, outcome),
    ensures
        (guessed_format(submitted) is Unknown) == (outcome == OutcomeView::Failed(
            ConversionErrorView::Decode(DecodeErrorView::Unrecognised),
        )),
{
}

/// Whatever a conversion hands out as converted carries the WebP signature,
/// and is the submitted image itself where that carries it already.
pub proof fn converted_image_is_webp(submitted: Seq<u8>, outcome: OutcomeView)
    requires
        conversion_outcome(submitted, outcome),
    ensures
        outcome matches OutcomeView::Converted(bytes) ==> {
            &&& has_target_signature(bytes)
            &&& has_target_signature(submitted) ==> bytes == submitted
            &&& !(guessed_format(submitted) is Unknown)
        },
{
}

/// A decoded image that is not WebP yet is converted exactly when the
/// encoder takes it and makes WebP of it: the outcome is then the encoder's
/// bytes at the fixed quality, which differ from the submitted ones. An
/// image that is WebP already comes back as it was submitted.
pub proof fn decoded_image_ends_as_its_encoding(submitted: Seq<u8>, image: CanonicalImage)
    ensures
        has_target_signature(submitted) ==> converted_from(submitted, image)
            == OutcomeView::Converted(submitted),
        !has_target_signature(submitted) ==> (converted_from(submitted, image) is Converted
            <==> encoding(image) is Ok),
        !has_target_signature(submitted) ==> (converted_from(submitted, image)
            matches OutcomeView::Converted(bytes) ==> {
            &&& lossy_webp(image, QUALITY) == Some(bytes)
            &&& has_target_signature(bytes)
            &&& bytes != submitted
        }),
        !has_target_signature(submitted) ==> (forall|error: EncodeError|
            encoding(image) == Err::<Seq<u8>, EncodeError>(error) ==> converted_from(
                submitted,
                image,
            ) == OutcomeView::Failed(ConversionErrorView::Encode(error))),
{
}

/// The job of an image that decoded ends finished exactly when the image
/// was WebP already or its encoding succeeded; it then holds the converted
/// image. Otherwise it ends failed for the encoder's reason.
pub proof fn decoded_job_ends_by_its_encoding(
    m: Map<Seq<char>, JobView>,
    id: Seq<char>,
    submitted: Seq<u8>,
    image: CanonicalImage,
)
    requires
        is_processing(m, id),
    ensures
        ({
            let after = after_complete(m, id, converted_from(submitted, image));
            &&& after.contains_key(id)
            &&& after[id].status.is_terminal()
            &&& after[id].status is Finished <==> has_target_signature(submitted) || encoding(
                image,
            ) is Ok
            &&& after[id].status is Finished ==> has_target_signature(after[id].payload)
            &&& after[id].client_tag == m[id].client_tag
        }),
{
}

/// A corrupt image and a valid one, queued together, end apart whichever is
/// processed first: the job of the image that did not decode fails, the job
/// of the image that decoded and could be encoded finishes, and the store
/// holds the same two records either way.
pub proof fn corrupt_and_valid_jobs_end_apart(
    m: Map<Seq<char>, JobView>,
    corrupt: Seq<char>,
    refusal: DecodeErrorView,
    valid: Seq<char>,
    image: CanonicalImage,
)
    requires
        corrupt != valid,
        is_waiting(m, corrupt),
        is_waiting(m, valid),
        has_target_signature(m[valid].payload) || encoding(image) is Ok,
    ensures
        ({
            let failure = OutcomeView::Failed(ConversionErrorView::Decode(refusal));
            let success = converted_from(m[valid].payload, image);
            let corrupt_first = after_complete(
                after_claim(after_complete(after_claim(m, corrupt), corrupt, failure), valid),
                valid,
                success,
            );
            let valid_first = after_complete(
                after_claim(after_complete(after_claim(m, valid), valid, success), corrupt),
                corrupt,
                failure,
            );
            &&& corrupt_first == valid_first
            &&& corrupt_first.dom() == m.dom()
            &&& corrupt_first[corrupt].status == StatusView::Failed(refusal.reason())
            &&& corrupt_first[corrupt].payload.len() == 0
            &&& corrupt_first[valid].status is Finished
            &&& has_target_signature(corrupt_first[valid].payload)
        }),
{
    let failure = OutcomeView::Failed(ConversionErrorView::Decode(refusal));
    let success = converted_from(m[valid].payload, image);
    processing_order_does_not_matter(m, corrupt, failure, valid, success);
    let corrupt_first = after_complete(
        after_claim(after_complete(after_claim(m, corrupt), corrupt, failure), valid),
        valid,
        success,
    );
    assert(corrupt_first.dom() =~= m.dom());
}

/// A pool's units are started once: the first call to start it asks for all
/// of them, and no call after that asks for any.
pub proof fn pool_starts_once(pool: PoolView)
    ensures
        !pool.started ==> units_to_start(pool) == pool.size,
        units_to_start(after_start(pool)) == 0,
        after_start(after_start(pool)) == after_start(pool),
{
}

} // verus!
