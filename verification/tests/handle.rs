use rocker::errors::{GetOutcome, GetTextOutcome, RockerError};
use rocker::store::{destroy, repair, SharedHandle, StoreHandle};

fn opened(path: &str) -> StoreHandle {
    match StoreHandle::open(path.to_string(), Ok(())) {
        Ok(handle) => handle,
        Err(_) => panic!("a successful engine reply must yield a handle"),
    }
}

#[test]
fn open_failure_is_a_structured_error() {
    let r = StoreHandle::open("/tmp/db-bad".to_string(), Err("lock held".to_string()));
    assert_eq!(r.err(), Some(RockerError::OpenFailed("lock held".to_string())));
}

#[test]
fn handle_reports_its_path_and_returns_it_on_close() {
    let handle = opened("/tmp/db1");
    assert_eq!(handle.path(), "/tmp/db1");
    assert_eq!(handle.path(), "/tmp/db1");
    assert_eq!(handle.close(), "/tmp/db1");
}

#[test]
fn put_then_get_round_trip() {
    let mut handle = opened("/tmp/db1");
    assert!(handle.put(b"a", b"1", Ok(())).is_ok());
    let got = handle.get(b"a", Ok(Some(b"1".to_vec())));
    assert_eq!(got, Ok(GetOutcome::Found(b"1".to_vec())));
}

#[test]
fn absent_key_is_not_found_not_an_error() {
    let handle = opened("/tmp/db1");
    let got = handle.get(b"never-written", Ok(None));
    assert_eq!(got, Ok(GetOutcome::NotFound));
}

#[test]
fn delete_of_an_absent_key_succeeds() {
    let mut handle = opened("/tmp/db1");
    assert!(handle.delete(b"missing", Ok(())).is_ok());
    let got = handle.get(b"missing", Ok(None));
    assert_eq!(got, Ok(GetOutcome::NotFound));
}

#[test]
fn write_failure_is_wrapped_with_its_reason() {
    let mut handle = opened("/tmp/db1");
    let r = handle.put(b"k", b"v", Err("disk full".to_string()));
    assert_eq!(r, Err(RockerError::WriteFailed("disk full".to_string())));
    let r = handle.delete(b"k", Err("disk full".to_string()));
    assert_eq!(r, Err(RockerError::WriteFailed("disk full".to_string())));
}

#[test]
fn read_failure_is_distinct_from_absence() {
    let handle = opened("/tmp/db1");
    let r = handle.get(b"k", Err("corrupt block".to_string()));
    assert_eq!(r, Err(RockerError::ReadFailed("corrupt block".to_string())));
}

#[test]
fn text_read_of_valid_text_is_found() {
    let handle = opened("/tmp/db1");
    let r = handle.get_text(b"a", Ok(Some(b"2".to_vec())));
    assert_eq!(r, Ok(GetTextOutcome::Found("2".to_string())));
}

#[test]
fn text_read_of_malformed_text_is_decode_failed() {
    let handle = opened("/tmp/db1");
    let r = handle.get_text(b"a", Ok(Some(vec![0xff, 0xfe])));
    assert_eq!(r, Err(RockerError::DecodeFailed));
}

#[test]
fn text_put_records_the_bytes_of_the_text() {
    let mut handle = opened("/tmp/db1");
    assert!(handle.put_text("a", "1", Ok(())).is_ok());
    let r = handle.get_text(b"a", Ok(Some("1".as_bytes().to_vec())));
    assert_eq!(r, Ok(GetTextOutcome::Found("1".to_string())));
}

#[test]
fn destroy_and_repair_wrap_their_failures() {
    assert!(destroy(Ok(())).is_ok());
    assert_eq!(
        destroy(Err("path in use".to_string())),
        Err(RockerError::DestroyFailed("path in use".to_string()))
    );
    assert!(repair(Ok(())).is_ok());
    assert_eq!(
        repair(Err("no manifest".to_string())),
        Err(RockerError::RepairFailed("no manifest".to_string()))
    );
}

#[test]
fn shared_handle_serializes_operations() {
    let shared = SharedHandle::share(opened("/tmp/db1"));
    assert_eq!(shared.path(), "/tmp/db1");
    let (mut handle, held) = shared.acquire();
    assert!(handle.put(b"a", b"1", Ok(())).is_ok());
    held.release_write(handle);
    let (handle, held) = shared.acquire();
    let got = handle.get(b"a", Ok(Some(b"1".to_vec())));
    assert_eq!(got, Ok(GetOutcome::Found(b"1".to_vec())));
    held.release_write(handle);
    let handle = shared.unshare();
    assert_eq!(handle.close(), "/tmp/db1");
}

#[test]
fn overwrite_then_delete_scenario() {
    let mut handle = opened("/tmp/db1");
    assert!(handle.put_text("a", "1", Ok(())).is_ok());
    assert!(handle.put_text("a", "2", Ok(())).is_ok());
    let got = handle.get_text(b"a", Ok(Some(b"2".to_vec())));
    assert_eq!(got, Ok(GetTextOutcome::Found("2".to_string())));
    assert!(handle.delete(b"a", Ok(())).is_ok());
    let got = handle.get_text(b"a", Ok(None));
    assert_eq!(got, Ok(GetTextOutcome::NotFound));
}
