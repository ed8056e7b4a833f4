//! Tests that drive the iterator core over synthetic batches of kernel
//! records and check the decoding, filtering, path joining and the state
//! machine's terminal behaviour.

use dirents::capacity::{buffer_capacity, MAX_CAPACITY};
use dirents::check_traits;
use dirents::reader::{DirError, ReadDir, RefillEvent, RefillStep, Step};

/// Build one kernel record: identity number, zeroed seek cookie, record
/// length, type tag, the name, its null terminator and `pad` extra padding
/// bytes.
fn rec(ino: u64, name: &[u8], pad: usize) -> Vec<u8> {
    let reclen = 19 + name.len() + 1 + pad;
    assert!(reclen <= u16::MAX as usize);
    let mut v = vec![0u8; reclen];
    v[0..8].copy_from_slice(&ino.to_le_bytes());
    v[16..18].copy_from_slice(&(reclen as u16).to_le_bytes());
    v[19..19 + name.len()].copy_from_slice(name);
    v
}

/// Concatenate records into one batch.
fn batch(records: &[Vec<u8>]) -> Vec<u8> {
    let mut v = Vec::new();
    for r in records {
        v.extend_from_slice(r);
    }
    v
}

/// Drive an iterator over the given batches until it finishes or fails,
/// collecting the yielded names.
fn drain(root: &[u8], batches: Vec<Vec<u8>>) -> (Vec<Vec<u8>>, Option<DirError>) {
    let mut remaining = batches;
    let mut rd = ReadDir::new(root.to_vec());
    let mut names = Vec::new();
    loop {
        match rd.advance() {
            Step::Entry(e) => names.push(e.name_bytes()),
            Step::Finished => return (names, None),
            Step::Fail(err) => return (names, Some(err)),
            Step::NeedRefill => {
                let ev = if remaining.is_empty() {
                    RefillEvent::End
                } else {
                    RefillEvent::Filled(remaining.remove(0))
                };
                match rd.on_refill(ev) {
                    RefillStep::Ready | RefillStep::Retry => {}
                    RefillStep::Finished => return (names, None),
                    RefillStep::Fail(err) => return (names, Some(err)),
                }
            }
        }
    }
}

#[test]
fn yields_all_real_entries_in_order() {
    let b = batch(&[
        rec(11, b".", 0),
        rec(12, b"..", 0),
        rec(13, b"alpha", 0),
        rec(0, b"ghost", 0),
        rec(14, b"beta", 3),
    ]);
    let (names, err) = drain(b"/data", vec![b]);
    assert_eq!(err, None);
    assert_eq!(names, vec![b"alpha".to_vec(), b"beta".to_vec()]);
}

#[test]
fn dot_entries_are_never_yielded() {
    let b = batch(&[rec(1, b".", 0), rec(2, b"..", 0), rec(3, b"...", 0), rec(4, b".x", 0)]);
    let (names, err) = drain(b"/d", vec![b]);
    assert_eq!(err, None);
    assert_eq!(names, vec![b"...".to_vec(), b".x".to_vec()]);
}

#[test]
fn identity_zero_is_never_yielded() {
    let b = batch(&[rec(0, b"removed", 0), rec(9, b"kept", 0), rec(0, b"gone", 5)]);
    let (names, err) = drain(b"/d", vec![b]);
    assert_eq!(err, None);
    assert_eq!(names, vec![b"kept".to_vec()]);
}

#[test]
fn empty_directory_yields_nothing_and_no_error() {
    let (names, err) = drain(b"/empty", vec![]);
    assert_eq!(err, None);
    assert_eq!(names, Vec::<Vec<u8>>::new());
}

#[test]
fn path_joins_root_and_name_with_separator() {
    let b = batch(&[rec(5, b"file.txt", 0)]);
    let mut rd = ReadDir::new(b"/tmp/things".to_vec());
    assert!(matches!(rd.advance(), Step::NeedRefill));
    assert_eq!(rd.on_refill(RefillEvent::Filled(b)), RefillStep::Ready);
    match rd.advance() {
        Step::Entry(e) => {
            assert_eq!(e.path(), b"/tmp/things/file.txt".to_vec());
            assert_eq!(e.name_bytes(), b"file.txt".to_vec());
        }
        _ => panic!("expected an entry"),
    }
}

#[test]
fn path_adds_no_second_separator() {
    let b = batch(&[rec(5, b"a", 0)]);
    let mut rd = ReadDir::new(b"/".to_vec());
    assert!(matches!(rd.advance(), Step::NeedRefill));
    assert_eq!(rd.on_refill(RefillEvent::Filled(b)), RefillStep::Ready);
    match rd.advance() {
        Step::Entry(e) => assert_eq!(e.path(), b"/a".to_vec()),
        _ => panic!("expected an entry"),
    }
}

#[test]
fn path_on_empty_root_is_the_name() {
    let b = batch(&[rec(5, b"lone", 0)]);
    let mut rd = ReadDir::new(Vec::new());
    assert!(matches!(rd.advance(), Step::NeedRefill));
    assert_eq!(rd.on_refill(RefillEvent::Filled(b)), RefillStep::Ready);
    match rd.advance() {
        Step::Entry(e) => assert_eq!(e.path(), b"lone".to_vec()),
        _ => panic!("expected an entry"),
    }
}

#[test]
fn padded_name_is_cut_at_terminator() {
    // The name field holds padding past its terminator; the name must come
    // from scanning for the terminator, not from the record length.
    let b = batch(&[rec(7, b"short", 11)]);
    let (names, err) = drain(b"/d", vec![b]);
    assert_eq!(err, None);
    assert_eq!(names, vec![b"short".to_vec()]);
}

#[test]
fn record_too_short_is_malformed() {
    let mut b = rec(3, b"x", 0);
    // Claim a record length below one header plus a terminator.
    b[16..18].copy_from_slice(&10u16.to_le_bytes());
    let (names, err) = drain(b"/d", vec![b]);
    assert_eq!(names, Vec::<Vec<u8>>::new());
    assert_eq!(err, Some(DirError::MalformedRecord));
}

#[test]
fn record_past_valid_data_is_malformed() {
    let mut b = batch(&[rec(3, b"ok", 0), rec(4, b"cut", 0)]);
    // Cut the batch inside the second record.
    b.truncate(b.len() - 5);
    let (names, err) = drain(b"/d", vec![b]);
    assert_eq!(names, vec![b"ok".to_vec()]);
    assert_eq!(err, Some(DirError::MalformedRecord));
}

#[test]
fn missing_terminator_is_malformed() {
    let mut b = rec(3, b"abc", 0);
    // Overwrite the terminator and the padding with name bytes.
    let n = b.len();
    b[19..n].fill(b'z');
    let (names, err) = drain(b"/d", vec![b]);
    assert_eq!(names, Vec::<Vec<u8>>::new());
    assert_eq!(err, Some(DirError::MalformedRecord));
}

#[test]
fn after_malformed_record_nothing_follows() {
    let mut b = rec(3, b"x", 0);
    b[16..18].copy_from_slice(&3u16.to_le_bytes());
    let mut rd = ReadDir::new(b"/d".to_vec());
    assert!(matches!(rd.advance(), Step::NeedRefill));
    assert_eq!(rd.on_refill(RefillEvent::Filled(b)), RefillStep::Ready);
    assert!(matches!(rd.advance(), Step::Fail(DirError::MalformedRecord)));
    assert!(matches!(rd.advance(), Step::Finished));
    assert!(matches!(rd.advance(), Step::Finished));
}

#[test]
fn refill_failure_is_terminal_and_reported_once() {
    let mut rd = ReadDir::new(b"/d".to_vec());
    assert!(matches!(rd.advance(), Step::NeedRefill));
    assert_eq!(
        rd.on_refill(RefillEvent::Failed(5)),
        RefillStep::Fail(DirError::RefillFailure(5))
    );
    assert!(matches!(rd.advance(), Step::Finished));
    // Even a successful-looking outcome is ignored after the failure.
    assert_eq!(
        rd.on_refill(RefillEvent::Filled(rec(9, b"late", 0))),
        RefillStep::Finished
    );
    assert!(matches!(rd.advance(), Step::Finished));
}

#[test]
fn interrupted_refill_is_retried_not_surfaced() {
    let b = batch(&[rec(6, b"survivor", 0)]);
    let mut rd = ReadDir::new(b"/d".to_vec());
    assert!(matches!(rd.advance(), Step::NeedRefill));
    assert_eq!(rd.on_refill(RefillEvent::Interrupted), RefillStep::Retry);
    assert_eq!(rd.on_refill(RefillEvent::Interrupted), RefillStep::Retry);
    assert_eq!(rd.on_refill(RefillEvent::Filled(b)), RefillStep::Ready);
    match rd.advance() {
        Step::Entry(e) => assert_eq!(e.name_bytes(), b"survivor".to_vec()),
        _ => panic!("expected an entry"),
    }
}

#[test]
fn end_of_directory_is_terminal() {
    let mut rd = ReadDir::new(b"/d".to_vec());
    assert!(matches!(rd.advance(), Step::NeedRefill));
    assert_eq!(rd.on_refill(RefillEvent::End), RefillStep::Finished);
    assert!(matches!(rd.advance(), Step::Finished));
    // No further refill outcome is taken once the directory is exhausted.
    assert_eq!(
        rd.on_refill(RefillEvent::Filled(rec(9, b"late", 0))),
        RefillStep::Finished
    );
    assert!(matches!(rd.advance(), Step::Finished));
}

#[test]
fn exactly_full_batch_needs_one_refill() {
    // A batch that exactly fills the buffer is consumed with one refill:
    // the iterator asks again only once all its bytes are consumed.
    let b = batch(&[rec(1, b"one", 0), rec(2, b"two", 0)]);
    let mut rd = ReadDir::new(b"/d".to_vec());
    let mut refills: usize = 0;
    let mut fed = vec![b];
    let mut names = Vec::new();
    loop {
        match rd.advance() {
            Step::Entry(e) => names.push(e.name_bytes()),
            Step::NeedRefill => {
                refills += 1;
                let ev = if fed.is_empty() {
                    RefillEvent::End
                } else {
                    RefillEvent::Filled(fed.remove(0))
                };
                match rd.on_refill(ev) {
                    RefillStep::Ready => {}
                    RefillStep::Finished => break,
                    _ => panic!("unexpected refill step"),
                }
            }
            Step::Finished => break,
            Step::Fail(e) => panic!("unexpected failure: {:?}", e),
        }
    }
    // One refill brought the data, one found the directory exhausted.
    assert_eq!(refills, 2);
    assert_eq!(names, vec![b"one".to_vec(), b"two".to_vec()]);
}

#[test]
fn oversized_listing_spans_several_refills() {
    let b1 = batch(&[rec(1, b"first", 0), rec(2, b"second", 0)]);
    let b2 = batch(&[rec(3, b"third", 0)]);
    let (names, err) = drain(b"/d", vec![b1, b2]);
    assert_eq!(err, None);
    assert_eq!(
        names,
        vec![b"first".to_vec(), b"second".to_vec(), b"third".to_vec()]
    );
}

#[test]
fn equal_batches_drain_to_equal_listings() {
    let make = || {
        vec![
            batch(&[rec(1, b".", 0), rec(2, b"a", 0)]),
            batch(&[rec(3, b"b", 2), rec(0, b"dead", 0)]),
        ]
    };
    let (n1, e1) = drain(b"/same", make());
    let (n2, e2) = drain(b"/same", make());
    assert_eq!(n1, n2);
    assert_eq!(e1, e2);
    assert_eq!(n1, vec![b"a".to_vec(), b"b".to_vec()]);
}

#[test]
fn capacity_rounds_up_and_clamps() {
    // Zero and small sizes land on the block size itself.
    assert_eq!(buffer_capacity(0, 8192), 8192);
    assert_eq!(buffer_capacity(1, 8192), 8192);
    assert_eq!(buffer_capacity(8192, 8192), 8192);
    // Just past a multiple: the next multiple.
    assert_eq!(buffer_capacity(8193, 8192), 16384);
    assert_eq!(buffer_capacity(513, 512), 1024);
    // Large directories are capped at 1 MiB.
    assert_eq!(buffer_capacity(MAX_CAPACITY as u64, 8192), MAX_CAPACITY);
    assert_eq!(buffer_capacity(u64::MAX, 8192), MAX_CAPACITY);
    assert_eq!(buffer_capacity(50_000_000, 4096), MAX_CAPACITY);
}

#[test]
fn iterator_state_can_move_between_threads() {
    check_traits::<ReadDir>();
    check_traits::<dirents::entry::DirEntry>();
}
