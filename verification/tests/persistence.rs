use disk_persist::DataError;
use disk_persist::DiskPersist;
use disk_persist::ReadEvent;
use disk_persist::Record;

fn john_doe() -> Record {
    Record { name: String::from("John Doe"), age: 45 }
}

#[test]
fn round_trip() {
    let handle: DiskPersist<Record> = DiskPersist::init_in("/tmp/cache", "example");
    let written = john_doe();
    let bytes = handle.write_payload(&written).unwrap();
    let read_back = handle.read_from(ReadEvent::Present(bytes)).unwrap().unwrap();
    assert_eq!(written, read_back);
}

#[test]
fn encoding_layout() {
    let handle: DiskPersist<Record> = DiskPersist::init_in("/tmp/cache", "example");
    let bytes = handle.write_payload(&john_doe()).unwrap();
    let mut expected: Vec<u8> = vec![8, 0, 0, 0, 0, 0, 0, 0];
    expected.extend_from_slice("John Doe".as_bytes());
    expected.push(45);
    assert_eq!(bytes, expected);
}

#[test]
fn absent_is_not_error() {
    let handle: DiskPersist<Record> = DiskPersist::init_in("/tmp/cache", "example");
    let read = handle.read_from(ReadEvent::Absent);
    assert!(matches!(read, Ok(None)));

    let not_found = std::io::Error::new(std::io::ErrorKind::NotFound, "no such file");
    let read = handle.read_result(Err(not_found));
    assert!(matches!(read, Ok(None)));
}

#[test]
fn io_failure_is_reported() {
    let handle: DiskPersist<Record> = DiskPersist::init_in("/tmp/cache", "example");
    let denied = std::io::Error::new(std::io::ErrorKind::PermissionDenied, "denied");
    let read = handle.read_result(Err(denied));
    assert!(matches!(read, Err(DataError::Io(_))));

    let failed = std::io::Error::new(std::io::ErrorKind::PermissionDenied, "denied");
    let read = handle.read_from(ReadEvent::Failed(failed));
    assert!(matches!(read, Err(DataError::Io(_))));
}

#[test]
fn write_payload_succeeds() {
    let handle: DiskPersist<Record> = DiskPersist::init_in("/tmp/cache", "example");
    assert!(handle.write_payload(&john_doe()).is_ok());
    let empty = Record { name: String::new(), age: 0 };
    assert!(handle.write_payload(&empty).is_ok());
}

#[test]
fn write_outcome_reported() {
    let handle: DiskPersist<Record> = DiskPersist::init_in("/tmp/cache", "example");
    assert!(matches!(handle.write_result(Ok(())), Ok(())));

    let denied = std::io::Error::new(std::io::ErrorKind::PermissionDenied, "denied");
    let written = handle.write_result(Err(denied));
    assert!(matches!(written, Err(DataError::Io(_))));
}

#[test]
fn last_write_wins() {
    let handle: DiskPersist<Record> = DiskPersist::init_in("/tmp/cache", "example");
    let first = Record { name: String::from("Jane Doe"), age: 30 };
    let second = john_doe();
    let _overwritten = handle.write_payload(&first).unwrap();
    let bytes = handle.write_payload(&second).unwrap();
    let read_back = handle.read_from(ReadEvent::Present(bytes)).unwrap().unwrap();
    assert_eq!(read_back, second);
    assert!(read_back != first);
}

#[test]
fn directory_rejected() {
    let decided = DiskPersist::<Record>::at_path("somewhere", true);
    assert!(matches!(decided, Err(DataError::FoundDirectory)));

    let existing_dir = DiskPersist::<Record>::init_with_path("/");
    assert!(matches!(existing_dir, Err(DataError::FoundDirectory)));

    let plain_file = DiskPersist::<Record>::init_with_path("no-such-thing.persist").unwrap();
    assert_eq!(plain_file.path(), "no-such-thing.persist");
}

#[test]
fn truncation_detected() {
    let handle: DiskPersist<Record> = DiskPersist::init_in("/tmp/cache", "example");
    let mut bytes = handle.write_payload(&john_doe()).unwrap();
    bytes.pop();
    let read = handle.read_from(ReadEvent::Present(bytes));
    assert!(matches!(read, Err(DataError::Serde(_))));
}

#[test]
fn alteration_detected() {
    let handle: DiskPersist<Record> = DiskPersist::init_in("/tmp/cache", "example");
    let mut bytes = handle.write_payload(&john_doe()).unwrap();
    bytes[0] = bytes[0].wrapping_add(1);
    let read = handle.read_from(ReadEvent::Present(bytes));
    assert!(matches!(read, Err(DataError::Serde(_))));
}

#[test]
fn empty_file_rejected() {
    let handle: DiskPersist<Record> = DiskPersist::init_in("/tmp/cache", "example");
    let read = handle.read_from(ReadEvent::Present(Vec::new()));
    assert!(matches!(read, Err(DataError::Serde(_))));
}

#[test]
fn named_path_layout() {
    let handle: DiskPersist<Record> = DiskPersist::init_in("/home/user/.cache", "example");
    assert_eq!(handle.path(), "/home/user/.cache/example.persist");
}

#[test]
fn init_uses_cache_directory() {
    match DiskPersist::<Record>::init("disk-persist-test") {
        Ok(handle) => assert!(handle.path().ends_with("/disk-persist-test.persist")),
        Err(error) => assert!(matches!(error, DataError::NoCacheDir)),
    }
}

#[test]
fn same_name_same_file() {
    let writer: DiskPersist<Record> = DiskPersist::init_in("/tmp/cache", "example");
    let reader: DiskPersist<Record> = DiskPersist::init_in("/tmp/cache", "example");
    assert_eq!(writer.path(), reader.path());

    let stored = john_doe();
    let bytes = writer.write_payload(&stored).unwrap();
    let read_back = reader.read_from(ReadEvent::Present(bytes)).unwrap().unwrap();
    assert_eq!(read_back, stored);

    let after_delete = reader.read_from(ReadEvent::Absent);
    assert!(matches!(after_delete, Ok(None)));
}
