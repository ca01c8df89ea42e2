//! The local directory that stores cached content, as the storage
//! collaborator uses it.

use std::path::PathBuf;
use vstd::prelude::*;

verus! {

/// std's `PathBuf`, carried through as an opaque value.
#[verifier::external_type_specification]
#[verifier::external_body]
pub struct ExPathBuf(PathBuf);

/// Why storing or reading cached content failed.
#[derive(Clone, Copy, Debug, PartialEq, Eq, Structural)]
pub enum FileClientError {
    /// Nothing is stored under the name
    NotFound,
    /// The storage itself failed
    Fatal,
}

/// Stores cached content as files in one application directory.
#[derive(Debug)]
pub struct NativeFileClient {
    app_dir: PathBuf,
}

impl NativeFileClient {
    pub closed spec fn spec_app_dir(&self) -> PathBuf {
        self.app_dir
    }

    /// A client over `app_dir`, which the caller found to be a directory
    /// (`is_dir`); `Fatal` where it is none.
    pub fn try_new(app_dir: PathBuf, is_dir: bool) -> (r: Result<NativeFileClient, FileClientError>)
        ensures
            is_dir ==> (r matches Ok(c) && c.spec_app_dir() == app_dir),
            !is_dir ==> r == Err::<NativeFileClient, FileClientError>(FileClientError::Fatal),
    {
        if is_dir {
            Ok(NativeFileClient { app_dir })
        } else {
            Err(FileClientError::Fatal)
        }
    }

    /// The directory that holds the stored files.
    pub fn app_dir(&self) -> (r: &PathBuf)
        ensures
            *r == self.spec_app_dir(),
    {
        &self.app_dir
    }
}

} // verus!
