//! A minimal typed persistence helper: a handle bound to one file path,
//! a fixed binary encoding for the stored record, and an error taxonomy.
//!
//! The library itself performs no file input or output: construction
//! resolves the path, the codec turns records into the bytes a write puts
//! on disk and turns the outcome of a read back into a record. A thin
//! caller performs the filesystem calls and hands their results in.

mod codec;
mod error;
mod store;

pub use codec::classify_read;
pub use codec::lemma_round_trip;
pub use codec::read_spec;
pub use codec::record_encoding;
pub use codec::ReadEvent;
pub use codec::Record;
pub use error::DataError;
pub use store::named_path;
pub use store::DiskPersist;
