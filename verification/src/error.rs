use vstd::prelude::*;

verus! {

/// Relies on `std::io::Error`: carried through as an opaque description of a
/// filesystem failure.
#[verifier::external_type_specification]
#[verifier::external_body]
pub struct ExIoError(std::io::Error);

/// Relies on `bincode::ErrorKind`: carried through as an opaque description
/// of an encoding or decoding failure.
#[verifier::external_type_specification]
#[verifier::external_body]
pub struct ExBincodeErrorKind(bincode::ErrorKind);

/// Errors returned by [`crate::DiskPersist`].
#[derive(Debug)]
pub enum DataError {
    /// A filesystem failure while reading or writing the file.
    Io(std::io::Error),
    /// The encoder rejected the value, or the file's bytes did not decode;
    /// on a read this can mean the data is corrupted.
    Serde(Box<bincode::ErrorKind>),
    /// No cache directory could be found on the system.
    NoCacheDir,
    /// The supplied save path is a directory, not a file.
    FoundDirectory,
}

} // verus!
