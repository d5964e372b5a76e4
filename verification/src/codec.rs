use vstd::prelude::*;

use crate::error::DataError;
use crate::store::DiskPersist;

verus! {

/// The record this store persists: a name and an age.
#[derive(Debug, Clone)]
pub struct Record {
    pub name: String,
    pub age: u8,
}

impl PartialEq for Record {
    fn eq(&self, other: &Record) -> bool {
        self.name == other.name && self.age == other.age
    }
}

impl vstd::std_specs::cmp::PartialEqSpecImpl for Record {
    open spec fn obeys_eq_spec() -> bool {
        true
    }

    open spec fn eq_spec(&self, other: &Record) -> bool {
        self.name@ == other.name@ && self.age == other.age
    }
}

/// The byte sequence that the binary encoding assigns to a record with the
/// given name and age.
pub uninterp spec fn record_encoding(name: Seq<char>, age: u8) -> Seq<u8>;

/// Relies on `bincode::serialize`: for a string-and-byte record it cannot
/// fail (the size pass runs with no limit and the `Vec` writer is
/// infallible), and the bytes are a function of the record's fields alone
/// (a deterministic, length-prefixed encoding).
#[verifier::external_body]
fn bincode_encode(data: &Record) -> (r: Result<Vec<u8>, Box<bincode::ErrorKind>>)
    ensures
        r is Ok,
        r matches Ok(v) ==> v@ == record_encoding(data.name@, data.age),
{
    bincode::serialize(&(&data.name, data.age))
}

/// What decoding a byte sequence returns: bytes that are exactly the
/// encoding of a record decode to that record; a decoded record is never
/// invented (its encoding starts the bytes); decoding fails exactly when no
/// encoded record starts the bytes.
pub open spec fn decode_spec(bytes: Seq<u8>, r: Result<Record, Box<bincode::ErrorKind>>) -> bool {
    &&& forall|name: Seq<char>, age: u8|
        bytes == #[trigger] record_encoding(name, age) ==> (r matches Ok(rec) && rec.name@ == name
            && rec.age == age)
    &&& (r matches Ok(rec) ==> record_encoding(rec.name@, rec.age).is_prefix_of(bytes))
    &&& (r is Err ==> forall|name: Seq<char>, age: u8|
        !(#[trigger] record_encoding(name, age)).is_prefix_of(bytes))
}

/// Relies on `bincode::deserialize`: it inverts `bincode::serialize`,
/// reading one encoded record off the front of the bytes (trailing bytes
/// are permitted), and fails exactly when no encoded record starts them.
#[verifier::external_body]
fn bincode_decode(bytes: &Vec<u8>) -> (r: Result<Record, Box<bincode::ErrorKind>>)
    ensures
        decode_spec(bytes@, r),
{
    match bincode::deserialize::<(String, u8)>(bytes.as_slice()) {
        Ok((name, age)) => Ok(Record { name, age }),
        Err(e) => Err(e),
    }
}

/// What the filesystem gave back when the file at a handle's path was read.
pub enum ReadEvent {
    /// The file exists and holds these bytes.
    Present(Vec<u8>),
    /// The file does not exist.
    Absent,
    /// Reading failed for another reason.
    Failed(std::io::Error),
}

/// Relies on `std::io::Error::kind`: whether the failure is `NotFound`.
#[verifier::external_body]
fn is_not_found(e: &std::io::Error) -> bool {
    e.kind() == std::io::ErrorKind::NotFound
}

/// Sort the raw result of reading the file: bytes are kept as present, a
/// `NotFound` failure means the file is absent, and any other failure is
/// kept as a failure.
pub fn classify_read(raw: Result<Vec<u8>, std::io::Error>) -> (ev: ReadEvent)
    ensures
        raw matches Ok(bytes) ==> ev == ReadEvent::Present(bytes),
        raw matches Err(e) ==> ev == ReadEvent::Absent || ev == ReadEvent::Failed(e),
{
    match raw {
        Ok(bytes) => ReadEvent::Present(bytes),
        Err(e) => {
            if is_not_found(&e) {
                ReadEvent::Absent
            } else {
                ReadEvent::Failed(e)
            }
        },
    }
}

/// What a read of the given file contents returns: the decoded record for
/// bytes, an absent value for a missing file, the failure otherwise.
///
/// The clauses over `record_encoding` state the round-trip guarantee: bytes
/// produced by a write decode to exactly the record that was written, a
/// decoded record is never invented (its encoding starts the bytes), and
/// bytes that no encoded record starts are rejected as `Serde`, never
/// returned as a partial or default value.
pub open spec fn read_spec(contents: ReadEvent, r: Result<Option<Record>, DataError>) -> bool {
    &&& contents is Absent ==> r == Ok::<Option<Record>, DataError>(None::<Record>)
    &&& (contents matches ReadEvent::Failed(e) ==> r == Err::<Option<Record>, DataError>(
        DataError::Io(e),
    ))
    &&& (contents matches ReadEvent::Present(bytes) ==> {
        &&& forall|name: Seq<char>, age: u8|
            bytes@ == #[trigger] record_encoding(name, age) ==> (r matches Ok(o) && o matches Some(
                rec,
            ) && rec.name@ == name && rec.age == age)
        &&& (r matches Ok(o) ==> (o matches Some(rec) ==> record_encoding(
            rec.name@,
            rec.age,
        ).is_prefix_of(bytes@)))
        &&& r matches Ok(o) ==> o is Some
        &&& r matches Err(e) ==> (e is Serde && forall|name: Seq<char>, age: u8|
            !(#[trigger] record_encoding(name, age)).is_prefix_of(bytes@))
    })
}

/// Law: round trip. When the file holds exactly the bytes that a write of
/// `record` produces — `write_payload` ensures they are the record's
/// encoding — then any read outcome that meets `read_spec`, as every result
/// of `read_from` does, returns `record` itself.
pub proof fn lemma_round_trip(record: Record, bytes: Vec<u8>, r: Result<Option<Record>, DataError>)
    requires
        bytes@ == record_encoding(record.name@, record.age),
        read_spec(ReadEvent::Present(bytes), r),
    ensures
        r matches Ok(o) && o matches Some(read_back) && read_back.name@ == record.name@
            && read_back.age == record.age,
{
}

impl DiskPersist<Record> {
    /// The bytes that a write of `data` puts at the handle's path: the
    /// record's binary encoding. Encoding a record never fails; the
    /// `Serde` error variant is the shape an encoder's failure would take.
    pub fn write_payload(&self, data: &Record) -> (r: Result<Vec<u8>, DataError>)
        ensures
            r is Ok,
            r matches Ok(bytes) ==> bytes@ == record_encoding(data.name@, data.age),
            r matches Err(e) ==> e is Serde,
    {
        match bincode_encode(data) {
            Ok(bytes) => Ok(bytes),
            Err(e) => Err(DataError::Serde(e)),
        }
    }

    /// Turn the contents found at the handle's path back into a record.
    /// Absence of the file is an absent value, not an error; present bytes
    /// decode through the inverse of the write encoding.
    pub fn read_from(&self, contents: ReadEvent) -> (r: Result<Option<Record>, DataError>)
        ensures
            read_spec(contents, r),
    {
        match contents {
            ReadEvent::Absent => Ok(None),
            ReadEvent::Failed(e) => Err(DataError::Io(e)),
            ReadEvent::Present(bytes) => match bincode_decode(&bytes) {
                Ok(rec) => Ok(Some(rec)),
                Err(e) => Err(DataError::Serde(e)),
            },
        }
    }

    /// Turn the raw filesystem result of overwriting the handle's file with
    /// a write's bytes into the write's outcome: success stands, a failure
    /// is reported as `Io`, never swallowed.
    pub fn write_result(&self, raw: Result<(), std::io::Error>) -> (r: Result<(), DataError>)
        ensures
            raw is Ok ==> r == Ok::<(), DataError>(()),
            raw matches Err(e) ==> r == Err::<(), DataError>(DataError::Io(e)),
    {
        match raw {
            Ok(()) => Ok(()),
            Err(e) => Err(DataError::Io(e)),
        }
    }

    /// Turn the raw filesystem result of reading the handle's file into a
    /// record: `classify_read` followed by `read_from`. A `NotFound`
    /// failure yields an absent value; any other failure is `Io`.
    pub fn read_result(&self, raw: Result<Vec<u8>, std::io::Error>) -> (r: Result<
        Option<Record>,
        DataError,
    >)
        ensures
            raw matches Ok(bytes) ==> read_spec(ReadEvent::Present(bytes), r),
            raw matches Err(e) ==> r == Ok::<Option<Record>, DataError>(None::<Record>) || r
                == Err::<Option<Record>, DataError>(DataError::Io(e)),
    {
        self.read_from(classify_read(raw))
    }
}

} // verus!
