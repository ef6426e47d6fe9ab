use img_processor::codec::{ConversionError, DecodeError, EncodeError};
use img_processor::job::{JobRecord, Outcome, Status};
use img_processor::store::{JobStore, StoreError};
use std::sync::Mutex;

fn text(s: &str) -> String {
    s.to_string()
}

#[test]
fn new_store_is_empty() {
    let store = JobStore::new();
    assert!(store.is_empty());
    assert_eq!(store.len(), 0);
    assert!(!store.contains("a"));
}

#[test]
fn insert_stores_a_waiting_job() {
    let mut store = JobStore::new();
    assert_eq!(store.insert(text("a"), text("tag"), vec![1, 2, 3]), Ok(()));
    assert!(store.contains("a"));
    assert_eq!(store.len(), 1);
    assert!(!store.is_empty());
    let shown = store.read_and_maybe_consume("a");
    assert_eq!(
        shown,
        Some(JobRecord {
            id: text("a"),
            client_tag: text("tag"),
            payload: vec![],
            status: Status::Waiting,
        })
    );
}

#[test]
fn insert_refuses_a_duplicate_and_keeps_the_first() {
    let mut store = JobStore::new();
    assert_eq!(store.insert(text("a"), text("first"), vec![1]), Ok(()));
    assert_eq!(
        store.insert(text("a"), text("second"), vec![2]),
        Err(StoreError::DuplicateId)
    );
    assert_eq!(store.len(), 1);
    let claimed = store.claim_next_waiting().unwrap();
    assert_eq!(claimed.client_tag, "first");
    assert_eq!(claimed.payload, vec![1]);
}

#[test]
fn claim_on_an_empty_store_finds_nothing() {
    let mut store = JobStore::new();
    assert_eq!(store.claim_next_waiting(), None);
}

#[test]
fn claim_hands_out_the_image_and_empties_the_stored_record() {
    let mut store = JobStore::new();
    store.insert(text("a"), text("tag"), vec![9, 8, 7]).unwrap();
    let claimed = store.claim_next_waiting();
    assert_eq!(
        claimed,
        Some(JobRecord {
            id: text("a"),
            client_tag: text("tag"),
            payload: vec![9, 8, 7],
            status: Status::Waiting,
        })
    );
    let shown = store.read_and_maybe_consume("a").unwrap();
    assert_eq!(shown.status, Status::Processing);
    assert_eq!(shown.payload, Vec::<u8>::new());
    assert_eq!(shown.client_tag, "tag");
}

#[test]
fn a_waiting_job_is_claimed_once() {
    let mut store = JobStore::new();
    store.insert(text("a"), text("tag"), vec![1]).unwrap();
    assert!(store.claim_next_waiting().is_some());
    assert_eq!(store.claim_next_waiting(), None);
    assert_eq!(store.claim_next_waiting(), None);
}

#[test]
fn every_waiting_job_is_claimed_exactly_once() {
    let mut store = JobStore::new();
    store.insert(text("a"), text("x"), vec![1]).unwrap();
    store.insert(text("b"), text("y"), vec![2]).unwrap();
    store.insert(text("c"), text("z"), vec![3]).unwrap();
    let mut ids = Vec::new();
    while let Some(job) = store.claim_next_waiting() {
        ids.push(job.id);
    }
    ids.sort();
    assert_eq!(ids, vec![text("a"), text("b"), text("c")]);
    assert_eq!(store.len(), 3);
}

#[test]
fn of_many_claimers_one_gets_the_job() {
    let store = Mutex::new(JobStore::new());
    store
        .lock()
        .unwrap()
        .insert(text("a"), text("tag"), vec![1, 2])
        .unwrap();
    let mut winners = 0;
    for _ in 0..16 {
        if store.lock().unwrap().claim_next_waiting().is_some() {
            winners += 1;
        }
    }
    assert_eq!(winners, 1);
}

#[test]
fn complete_success_finishes_the_job() {
    let mut store = JobStore::new();
    store.insert(text("a"), text("tag"), vec![1]).unwrap();
    store.claim_next_waiting().unwrap();
    assert_eq!(store.complete_success("a", vec![4, 5]), Ok(()));
    let shown = store.read_and_maybe_consume("a");
    assert_eq!(
        shown,
        Some(JobRecord {
            id: text("a"),
            client_tag: text("tag"),
            payload: vec![4, 5],
            status: Status::Finished,
        })
    );
}

#[test]
fn complete_failure_fails_the_job_and_holds_no_image() {
    let mut store = JobStore::new();
    store.insert(text("a"), text("tag"), vec![1]).unwrap();
    store.claim_next_waiting().unwrap();
    assert_eq!(store.complete_failure("a", text("broken")), Ok(()));
    let shown = store.read_and_maybe_consume("a");
    assert_eq!(
        shown,
        Some(JobRecord {
            id: text("a"),
            client_tag: text("tag"),
            payload: vec![],
            status: Status::Failed(text("broken")),
        })
    );
}

#[test]
fn complete_of_a_missing_job_changes_nothing() {
    let mut store = JobStore::new();
    assert_eq!(
        store.complete_success("gone", vec![1]),
        Err(StoreError::NotFound)
    );
    assert_eq!(
        store.complete_failure("gone", text("why")),
        Err(StoreError::NotFound)
    );
    assert!(store.is_empty());
}

#[test]
fn complete_of_a_job_that_no_worker_holds_changes_nothing() {
    let mut store = JobStore::new();
    store.insert(text("a"), text("tag"), vec![1]).unwrap();
    assert_eq!(
        store.complete_success("a", vec![2]),
        Err(StoreError::NotProcessing)
    );
    let claimed = store.claim_next_waiting().unwrap();
    assert_eq!(claimed.payload, vec![1]);
}

#[test]
fn a_failed_job_cannot_be_completed_again() {
    let mut store = JobStore::new();
    store.insert(text("a"), text("tag"), vec![1]).unwrap();
    store.claim_next_waiting().unwrap();
    store
        .complete(
            &text("a"),
            Outcome::Failed(ConversionError::Decode(DecodeError::Decoder(text("broken")))),
        )
        .unwrap();
    assert_eq!(
        store.complete("a", Outcome::Converted(vec![7])),
        Err(StoreError::NotProcessing)
    );
    let shown = store.read_and_maybe_consume("a").unwrap();
    assert_eq!(shown.status, Status::Failed(text("broken")));
}

#[test]
fn complete_records_the_outcome() {
    let mut store = JobStore::new();
    store.insert(text("a"), text("x"), vec![1]).unwrap();
    store.insert(text("b"), text("y"), vec![2]).unwrap();
    store.insert(text("c"), text("z"), vec![3]).unwrap();
    while store.claim_next_waiting().is_some() {}
    assert_eq!(store.complete("a", Outcome::Converted(vec![7, 8])), Ok(()));
    assert_eq!(
        store.complete(
            "b",
            Outcome::Failed(ConversionError::Encode(EncodeError::EncoderFailed))
        ),
        Ok(())
    );
    assert_eq!(
        store.complete(
            "c",
            Outcome::Failed(ConversionError::Decode(DecodeError::Unrecognised))
        ),
        Ok(())
    );
    let b = store.read_and_maybe_consume("b").unwrap();
    assert_eq!(b.status, Status::Failed(text("encode: the encoder failed")));
    assert_eq!(b.payload, Vec::<u8>::new());
    let c = store.read_and_maybe_consume("c").unwrap();
    assert_eq!(
        c.status,
        Status::Failed(text("no image format is recognised in the bytes"))
    );
    let a = store.read_and_maybe_consume("a").unwrap();
    assert_eq!(a.status, Status::Finished);
    assert_eq!(a.payload, vec![7, 8]);
}

#[test]
fn a_finished_job_is_delivered_once() {
    let mut store = JobStore::new();
    store.insert(text("a"), text("tag"), vec![1]).unwrap();
    store.claim_next_waiting().unwrap();
    store.complete_success("a", vec![4, 5, 6]).unwrap();
    let first = store.read_and_maybe_consume("a").unwrap();
    assert_eq!(first.payload, vec![4, 5, 6]);
    assert_eq!(first.status, Status::Finished);
    assert_eq!(store.read_and_maybe_consume("a"), None);
    assert_eq!(store.read_and_maybe_consume("a"), None);
    assert!(store.is_empty());
}

#[test]
fn a_failed_job_is_kept_however_often_it_is_read() {
    let mut store = JobStore::new();
    store.insert(text("a"), text("tag"), vec![1]).unwrap();
    store.claim_next_waiting().unwrap();
    store.complete_failure("a", text("broken")).unwrap();
    for _ in 0..3 {
        let shown = store.read_and_maybe_consume("a").unwrap();
        assert_eq!(shown.status, Status::Failed(text("broken")));
    }
    assert_eq!(store.len(), 1);
}

#[test]
fn reading_an_unknown_identifier_finds_nothing() {
    let mut store = JobStore::new();
    store.insert(text("a"), text("tag"), vec![1]).unwrap();
    assert_eq!(store.read_and_maybe_consume("b"), None);
    assert_eq!(store.len(), 1);
}

#[test]
fn an_identifier_is_free_again_after_delivery() {
    let mut store = JobStore::new();
    store.insert(text("a"), text("one"), vec![1]).unwrap();
    store.claim_next_waiting().unwrap();
    store.complete_success("a", vec![2]).unwrap();
    store.read_and_maybe_consume("a").unwrap();
    assert_eq!(store.insert(text("a"), text("two"), vec![3]), Ok(()));
    assert_eq!(store.claim_next_waiting().unwrap().client_tag, "two");
}

#[test]
fn two_jobs_end_independently_in_either_order() {
    for flip in [false, true] {
        let mut store = JobStore::new();
        store.insert(text("bad"), text("x"), vec![0]).unwrap();
        store.insert(text("good"), text("y"), vec![1]).unwrap();
        store.claim_next_waiting().unwrap();
        store.claim_next_waiting().unwrap();
        if flip {
            store.complete_success("good", vec![9]).unwrap();
            store.complete_failure("bad", text("corrupt")).unwrap();
        } else {
            store.complete_failure("bad", text("corrupt")).unwrap();
            store.complete_success("good", vec![9]).unwrap();
        }
        let bad = store.read_and_maybe_consume("bad").unwrap();
        assert_eq!(bad.status, Status::Failed(text("corrupt")));
        let good = store.read_and_maybe_consume("good").unwrap();
        assert_eq!(good.status, Status::Finished);
        assert_eq!(good.payload, vec![9]);
    }
}

#[test]
fn status_predicates_tell_the_statuses_apart() {
    assert!(Status::Waiting.is_waiting());
    assert!(!Status::Processing.is_waiting());
    assert!(Status::Processing.is_processing());
    assert!(!Status::Finished.is_processing());
    assert!(Status::Finished.is_finished());
    assert!(!Status::Failed(text("x")).is_finished());
    assert!(Status::Finished.is_terminal());
    assert!(Status::Failed(text("x")).is_terminal());
    assert!(!Status::Waiting.is_terminal());
    assert!(!Status::Processing.is_terminal());
    assert_eq!(
        Status::Failed(text("x")).duplicate(),
        Status::Failed(text("x"))
    );
    assert_eq!(Status::Waiting.duplicate(), Status::Waiting);
}

#[test]
fn a_new_record_waits_with_its_image() {
    let record = JobRecord::new(text("id"), text("tag"), vec![1, 2]);
    assert_eq!(
        record,
        JobRecord {
            id: text("id"),
            client_tag: text("tag"),
            payload: vec![1, 2],
            status: Status::Waiting,
        }
    );
}
