use charybdis::callbacks::{CbOutcome, CbStep, CharybdisCbQuery};
use charybdis::query::{
    CharybdisError, CharybdisQuery, Consistency, ModelMutation, ModelPaged, ModelRow, ModelStream,
    OptionalModelRow, PagedDrain, PagingState, PagingStateResponse, SerialConsistency,
};
use std::time::Duration;

const Q: &str = "SELECT * FROM t WHERE id = ?";

#[test]
fn no_row_is_not_found_for_required_read() {
    let r = ModelRow::<u32>::from_first_row(Q, None);
    assert!(matches!(r, Err(CharybdisError::NotFoundError(q)) if q == Q));
}

#[test]
fn no_row_is_absent_for_optional_read() {
    let r = OptionalModelRow::<u32>::from_first_row(Q, None);
    assert!(matches!(r, Ok(None)));
}

#[test]
fn first_row_decoded_or_typing_failure() {
    assert!(matches!(ModelRow::<u32>::from_first_row(Q, Some(Ok(7))), Ok(7)));
    let bad = ModelRow::<u32>::from_first_row(Q, Some(Err("bad column".to_string())));
    assert!(matches!(bad, Err(CharybdisError::FirstRowTypedError(q, ref m)) if q == Q && m == "bad column"));
    assert!(matches!(OptionalModelRow::<u32>::from_first_row(Q, Some(Ok(7))), Ok(Some(7))));
    let bad = OptionalModelRow::<u32>::from_first_row(Q, Some(Err("x".to_string())));
    assert!(matches!(bad, Err(CharybdisError::MaybeFirstRowTypedError(q, _)) if q == Q));
}

#[test]
fn paged_reply_without_rows_fails() {
    let r = ModelPaged::<u32>::from_page(Q, Err("void result".to_string()), PagingStateResponse::NoMorePages);
    assert!(matches!(r, Err(CharybdisError::RowsExpectedError(q, _)) if q == Q));
    let next = PagingStateResponse::HasMorePages(PagingState::Resume(vec![1, 2]));
    let (rows, resp) = ModelPaged::<u32>::from_page(Q, Ok(vec![1, 2, 3]), next.clone()).unwrap();
    assert_eq!(rows, vec![1, 2, 3]);
    assert_eq!(resp, next);
}

fn server_page(all: &[u32], n: usize, state: &PagingState) -> (Vec<u32>, PagingStateResponse) {
    let offset = match state {
        PagingState::Start => 0,
        PagingState::Resume(b) => b[0] as usize,
    };
    let end = (offset + n).min(all.len());
    let next = if end < all.len() {
        PagingStateResponse::HasMorePages(PagingState::Resume(vec![end as u8]))
    } else {
        PagingStateResponse::NoMorePages
    };
    (all[offset..end].to_vec(), next)
}

fn drain(all: &[u32], n: usize) -> (Vec<u32>, usize) {
    let mut d = PagedDrain::<u32>::new();
    let mut trips = 0;
    while let Some(state) = d.next.clone() {
        let (page, next) = server_page(all, n, &state);
        d.accept(page, next);
        trips += 1;
    }
    (d.rows, trips)
}

#[test]
fn paged_drain_enumerates_every_row_once() {
    let all: Vec<u32> = (0..10).collect();
    let (rows, trips) = drain(&all, 3);
    assert_eq!(rows, all);
    assert_eq!(trips, 4);
    let (rows, trips) = drain(&all, 5);
    assert_eq!(rows, all);
    assert_eq!(trips, 2);
}

#[test]
fn paged_and_streamed_partition_reads_match() {
    let all: Vec<u32> = vec![5, 3, 9, 1, 4, 4, 7];
    let (paged, _) = drain(&all, 2);
    let (streamed, _) = drain(&all, 5000);
    let mut a = paged.clone();
    let mut b = streamed.clone();
    a.sort();
    b.sort();
    assert_eq!(a, b);
    assert_eq!(paged, all);
}

#[test]
fn stream_decode_failure_carries_query_and_position() {
    let ok = ModelStream::<u32>::decode_page(Q, vec![Ok(1), Ok(2)], 0).unwrap();
    assert_eq!(ok, vec![1, 2]);
    let page = vec![Ok(1), Err("bad".to_string()), Ok(3)];
    let r = ModelStream::<u32>::decode_page(Q, page, 10);
    assert!(matches!(r, Err(CharybdisError::RowTypedError(q, 11, ref m)) if q == Q && m == "bad"));
}

#[test]
fn builder_defaults() {
    let q = CharybdisQuery::<(i32,), ModelMutation>::new(Q, (1,));
    assert_eq!(q.query_string, Q);
    assert_eq!(q.values, (1,));
    assert_eq!(q.paging_state, PagingState::Start);
    assert_eq!(q.options.page_size, None);
    assert_eq!(q.options.consistency, None);
    assert_eq!(q.options.serial_consistency, None);
    assert!(!q.options.is_idempotent);
    assert!(!q.options.is_tracing);
    assert_eq!(q.options.timestamp, None);
    assert_eq!(q.options.timeout, None);
}

#[test]
fn setters_last_write_wins_and_keep_others() {
    let q = CharybdisQuery::<(i32,), ModelMutation>::new(Q, (1,))
        .consistency(Consistency::Quorum)
        .page_size(10)
        .page_size(20)
        .serial_consistency(Some(SerialConsistency::LocalSerial))
        .idempotent(true)
        .trace(true)
        .timestamp(Some(42))
        .timeout(Some(Duration::from_millis(250)))
        .paging_state(PagingState::Resume(vec![9]))
        .values((2,));
    assert_eq!(q.options.page_size, Some(20));
    assert_eq!(q.options.consistency, Some(Consistency::Quorum));
    assert_eq!(q.options.serial_consistency, Some(SerialConsistency::LocalSerial));
    assert!(q.options.is_idempotent);
    assert!(q.options.is_tracing);
    assert_eq!(q.options.timestamp, Some(42));
    assert_eq!(q.options.timeout, Some(Duration::from_millis(250)));
    assert_eq!(q.paging_state, PagingState::Resume(vec![9]));
    assert_eq!(q.values, (2,));
    assert_eq!(q.query_string, Q);
    let q = q.serial_consistency(None).timestamp(None).idempotent(false);
    assert_eq!(q.options.serial_consistency, None);
    assert_eq!(q.options.timestamp, None);
    assert!(!q.options.is_idempotent);
    assert_eq!(q.options.page_size, Some(20));
}

fn run(events: &[bool]) -> (CbStep, usize) {
    let mut q = CharybdisCbQuery::<Vec<i32>>::new("UPDATE t SET a = ? WHERE id = ?", Vec::new());
    let mut writes = 0;
    let mut i = 0;
    while !matches!(q.step, CbStep::Done(_)) {
        if q.step == CbStep::Execute {
            q = q.bind(vec![1, 2]);
            writes += 1;
        }
        q = q.advance(events[i]);
        i += 1;
    }
    (q.step, writes)
}

#[test]
fn before_hook_failure_issues_no_write() {
    assert_eq!(run(&[false]), (CbStep::Done(CbOutcome::BeforeFailed), 0));
}

#[test]
fn after_hook_failure_still_wrote_once() {
    assert_eq!(run(&[true, true, false]), (CbStep::Done(CbOutcome::AfterFailed), 1));
    assert_eq!(run(&[true, true, true]), (CbStep::Done(CbOutcome::Applied), 1));
    assert_eq!(run(&[true, false]), (CbStep::Done(CbOutcome::WriteFailed), 1));
}

#[test]
fn hooked_mutation_forwards_setters() {
    let q = CharybdisCbQuery::<Vec<i32>>::new("DELETE FROM t WHERE id = ?", Vec::new())
        .page_size(5)
        .consistency(Consistency::One)
        .trace(true)
        .bind(vec![3]);
    assert_eq!(q.inner.options.page_size, Some(5));
    assert_eq!(q.inner.options.consistency, Some(Consistency::One));
    assert!(q.inner.options.is_tracing);
    assert_eq!(q.inner.values, vec![3]);
    assert_eq!(q.step, CbStep::BeforeExecute);
}
