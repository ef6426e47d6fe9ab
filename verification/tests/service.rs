use image::{DynamicImage, ImageFormat, Rgb, RgbImage};
use img_processor::codec::is_target_format;
use img_processor::endpoint::{
    decode_body, status, submit, submit_encoded, StatusResponse, SubmitError,
};
use img_processor::job::{JobRecord, Status};
use img_processor::store::JobStore;
use img_processor::worker::{process_next, WorkerPool, DEFAULT_POOL_SIZE, POLL_INTERVAL_SECS};
use std::io::Cursor;

fn text(s: &str) -> String {
    s.to_string()
}

fn small_png() -> Vec<u8> {
    let picture = DynamicImage::ImageRgb8(RgbImage::from_pixel(10, 10, Rgb([10, 120, 240])));
    let mut bytes = Vec::new();
    picture
        .write_to(&mut Cursor::new(&mut bytes), ImageFormat::Png)
        .unwrap();
    bytes
}

#[test]
fn pool_has_sixty_four_units_and_polls_every_second() {
    assert_eq!(DEFAULT_POOL_SIZE, 64);
    assert_eq!(POLL_INTERVAL_SECS, 1);
    let pool = WorkerPool::with_default_size();
    assert_eq!(pool.size(), 64);
    assert!(!pool.is_started());
}

#[test]
fn pool_is_started_once() {
    let mut pool = WorkerPool::with_default_size();
    assert_eq!(pool.start(), 64);
    assert!(pool.is_started());
    assert_eq!(pool.start(), 0);
    assert_eq!(pool.start(), 0);
    assert_eq!(pool.size(), 64);
}

#[test]
fn pool_of_a_chosen_size() {
    let mut pool = WorkerPool::new(3);
    assert_eq!(pool.size(), 3);
    assert_eq!(pool.start(), 3);
    assert_eq!(pool.start(), 0);
}

#[test]
fn body_is_base64() {
    assert_eq!(decode_body(b"aGVsbG8="), Ok(b"hello".to_vec()));
    assert_eq!(decode_body(b""), Ok(vec![]));
    assert_eq!(decode_body(b"AAEC/w=="), Ok(vec![0, 1, 2, 255]));
}

#[test]
fn body_that_is_not_base64_is_malformed() {
    assert_eq!(decode_body(b"not base64!"), Err(SubmitError::MalformedBody));
    assert_eq!(decode_body(b"a"), Err(SubmitError::MalformedBody));
    assert_eq!(decode_body(b"aGVs bG8="), Err(SubmitError::MalformedBody));
    assert_eq!(decode_body(&[0xff, 0xfe]), Err(SubmitError::MalformedBody));
}

#[test]
fn refusals_have_their_status_codes() {
    assert_eq!(SubmitError::MalformedBody.http_code(), 400);
    assert_eq!(SubmitError::DuplicateId.http_code(), 409);
}

#[test]
fn submit_returns_the_identifier() {
    let mut store = JobStore::new();
    assert_eq!(
        submit(&mut store, text("1-1"), text("item"), vec![1, 2]),
        Ok(text("1-1"))
    );
    assert!(store.contains("1-1"));
}

#[test]
fn submit_refuses_an_identifier_that_is_taken() {
    let mut store = JobStore::new();
    submit(&mut store, text("1-1"), text("item"), vec![1]).unwrap();
    assert_eq!(
        submit(&mut store, text("1-1"), text("other"), vec![2]),
        Err(SubmitError::DuplicateId)
    );
    assert_eq!(store.len(), 1);
}

#[test]
fn submit_encoded_queues_the_decoded_image() {
    let mut store = JobStore::new();
    assert_eq!(
        submit_encoded(&mut store, text("1-1"), text("item"), b"aGVsbG8="),
        Ok(text("1-1"))
    );
    let claimed = store.claim_next_waiting().unwrap();
    assert_eq!(claimed.payload, b"hello".to_vec());
    assert_eq!(claimed.client_tag, "item");
}

#[test]
fn submit_encoded_keeps_a_malformed_body_out_of_the_store() {
    let mut store = JobStore::new();
    assert_eq!(
        submit_encoded(&mut store, text("1-1"), text("item"), b"%%%"),
        Err(SubmitError::MalformedBody)
    );
    assert!(store.is_empty());
}

#[test]
fn status_of_an_unknown_identifier_is_not_found() {
    let mut store = JobStore::new();
    let answer = status(&mut store, "nobody");
    assert_eq!(answer, StatusResponse::NotFound);
    assert_eq!(answer.http_code(), 404);
}

#[test]
fn process_next_without_work_does_nothing() {
    let mut store = JobStore::new();
    assert_eq!(process_next(&mut store), None);
    assert!(store.is_empty());
}

#[test]
fn png_job_is_converted_and_delivered_once() {
    let mut store = JobStore::new();
    let id = submit(&mut store, text("1-42"), text("item-7"), small_png()).unwrap();

    let first = status(&mut store, &id);
    assert_eq!(first.http_code(), 200);
    assert_eq!(
        first,
        StatusResponse::InProgress(JobRecord {
            id: text("1-42"),
            client_tag: text("item-7"),
            payload: vec![],
            status: Status::Waiting,
        })
    );

    assert_eq!(process_next(&mut store), Some(text("1-42")));

    let second = status(&mut store, &id);
    assert_eq!(second.http_code(), 200);
    match second {
        StatusResponse::Done(record) => {
            assert_eq!(record.id, "1-42");
            assert_eq!(record.client_tag, "item-7");
            assert_eq!(record.status, Status::Finished);
            assert!(is_target_format(&record.payload));
        }
        other => panic!("{:?}", other),
    }

    let third = status(&mut store, &id);
    assert_eq!(third, StatusResponse::NotFound);
    assert_eq!(third.http_code(), 404);
}

#[test]
fn claimed_job_is_shown_as_processing_without_image() {
    let mut store = JobStore::new();
    submit(&mut store, text("1-1"), text("item"), small_png()).unwrap();
    store.claim_next_waiting().unwrap();
    assert_eq!(
        status(&mut store, "1-1"),
        StatusResponse::InProgress(JobRecord {
            id: text("1-1"),
            client_tag: text("item"),
            payload: vec![],
            status: Status::Processing,
        })
    );
}

#[test]
fn garbage_job_fails_and_stays_failed() {
    let mut store = JobStore::new();
    let id = submit(
        &mut store,
        text("1-9"),
        text("item"),
        vec![0xde, 0xad, 0xbe, 0xef],
    )
    .unwrap();
    assert_eq!(process_next(&mut store), Some(text("1-9")));

    let first = status(&mut store, &id);
    assert_eq!(first.http_code(), 500);
    assert_eq!(
        first,
        StatusResponse::Failed("no image format is recognised in the bytes".to_string())
    );

    let second = status(&mut store, &id);
    assert_eq!(second, first);
    assert_eq!(store.len(), 1);
    assert_eq!(process_next(&mut store), None);
}

#[test]
fn corrupt_and_valid_jobs_end_apart_in_either_order() {
    for corrupt_first in [true, false] {
        let mut store = JobStore::new();
        if corrupt_first {
            submit(&mut store, text("bad"), text("x"), vec![1, 2, 3, 4]).unwrap();
            submit(&mut store, text("good"), text("y"), small_png()).unwrap();
        } else {
            submit(&mut store, text("good"), text("y"), small_png()).unwrap();
            submit(&mut store, text("bad"), text("x"), vec![1, 2, 3, 4]).unwrap();
        }
        assert!(process_next(&mut store).is_some());
        assert!(process_next(&mut store).is_some());
        assert_eq!(process_next(&mut store), None);

        assert!(matches!(
            status(&mut store, "bad"),
            StatusResponse::Failed(_)
        ));
        match status(&mut store, "good") {
            StatusResponse::Done(record) => assert!(is_target_format(&record.payload)),
            other => panic!("{:?}", other),
        }
        assert_eq!(store.len(), 1);
    }
}

#[test]
fn webp_job_comes_back_as_it_was_submitted() {
    let mut store = JobStore::new();
    submit(&mut store, text("a"), text("x"), small_png()).unwrap();
    process_next(&mut store).unwrap();
    let webp = match status(&mut store, "a") {
        StatusResponse::Done(record) => record.payload,
        other => panic!("{:?}", other),
    };
    submit(&mut store, text("b"), text("y"), webp.clone()).unwrap();
    process_next(&mut store).unwrap();
    match status(&mut store, "b") {
        StatusResponse::Done(record) => assert_eq!(record.payload, webp),
        other => panic!("{:?}", other),
    }
}
