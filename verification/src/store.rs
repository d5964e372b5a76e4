use vstd::prelude::*;
use vstd::string::StringExecFns;

use crate::error::DataError;

verus! {

/// The path a name-based handle is bound to: `<base>/<name>.persist`.
pub open spec fn named_path(base: Seq<char>, name: Seq<char>) -> Seq<char> {
    base + "/"@ + name + ".persist"@
}

/// A handle bound to one file path, through which a caller persists data.
///
/// The type parameter records which value type the file is meant to hold;
/// no value of it is stored.
pub struct DiskPersist<D> {
    path: String,
    _type: core::marker::PhantomData<D>,
}

impl<D> View for DiskPersist<D> {
    type V = Seq<char>;

    closed spec fn view(&self) -> Seq<char> {
        self.path@
    }
}

/// Relies on `dirs::cache_dir`: the platform's per-user cache directory, or
/// `None` when the system defines none. A directory whose name is not
/// Unicode counts as absent.
#[verifier::external_body]
fn cache_dir() -> Option<String> {
    match dirs::cache_dir() {
        Some(base) => base.into_os_string().into_string().ok(),
        None => None,
    }
}

/// Relies on `std::path::Path::is_dir`: whether the path currently names an
/// existing directory on this filesystem.
#[verifier::external_body]
fn path_is_dir(path: &str) -> bool {
    std::path::Path::new(path).is_dir()
}

impl<D> DiskPersist<D> {
    /// Bind a handle to the path for a logical name under a given base
    /// directory: `<base>/<name>.persist`. No file input or output occurs.
    pub fn init_in(base: &str, name: &str) -> (h: Self)
        ensures
            h@ == named_path(base@, name@),
    {
        let mut path = base.to_owned();
        path.append("/");
        path.append(name);
        path.append(".persist");
        DiskPersist { path, _type: core::marker::PhantomData }
    }

    /// Bind a handle to `<cache directory>/<name>.persist`, or fail with
    /// `NoCacheDir` when the system has no cache directory. No file input
    /// or output occurs.
    pub fn init(name: &str) -> (r: Result<Self, DataError>)
        ensures
            r matches Ok(h) ==> exists|base: Seq<char>| h@ == named_path(base, name@),
            r matches Err(e) ==> e is NoCacheDir,
    {
        match cache_dir() {
            Some(base) => Ok(Self::init_in(base.as_str(), name)),
            None => Err(DataError::NoCacheDir),
        }
    }

    /// Decide path-based construction, given whether the path currently
    /// names a directory: a directory is rejected with `FoundDirectory`,
    /// anything else binds the handle to the path verbatim. No file is
    /// created or touched.
    pub fn at_path(path: &str, is_dir: bool) -> (r: Result<Self, DataError>)
        ensures
            is_dir ==> (r matches Err(e) && e is FoundDirectory),
            !is_dir ==> (r matches Ok(h) && h@ == path@),
    {
        if is_dir {
            Err(DataError::FoundDirectory)
        } else {
            Ok(DiskPersist { path: path.to_owned(), _type: core::marker::PhantomData })
        }
    }

    /// Bind a handle to a caller-supplied path, used verbatim, or fail with
    /// `FoundDirectory` when the path is an existing directory. Beyond the
    /// directory check, no file input or output occurs.
    pub fn init_with_path(path: &str) -> (r: Result<Self, DataError>)
        ensures
            r matches Ok(h) ==> h@ == path@,
            r matches Err(e) ==> e is FoundDirectory,
    {
        Self::at_path(path, path_is_dir(path))
    }

    /// Return the path where data is written, read-only.
    pub fn path(&self) -> (p: &str)
        ensures
            p@ == self@,
    {
        self.path.as_str()
    }
}

} // verus!
