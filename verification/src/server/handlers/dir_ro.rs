//! The rules by which a directory is served for reading only.

use vstd::prelude::*;
use crate::error::{Error, ErrorView};
use crate::packet::{Error as PacketError, ProtocolErrorView};
use crate::server::handlers::dir::{is_secure, secure_path, PathComponent};

verus! {

/// Handler that serves only read requests for a directory.
#[derive(Debug)]
pub struct DirRoHandler {
    pub dir: String,
}

impl DirRoHandler {
    /// Create new handler for directory `dir`, given in canonical form;
    /// `is_dir` says whether it names a directory.
    pub fn new(dir: String, is_dir: bool) -> (r: Result<Self, Error>)
        ensures
            r is Ok == is_dir,
            r matches Ok(h) ==> h.dir@ == dir@,
            r matches Err(e) ==> e@ == ErrorView::NotDir(dir@),
    {
        if !is_dir {
            return Err(Error::NotDir(dir));
        }
        Ok(DirRoHandler { dir })
    }

    /// Whether a read request is served: the path must be secure and name
    /// a regular file. Every other path is reported as not found.
    pub fn read_req_open(&self, path: &[PathComponent], is_file: bool) -> (r: Result<
        (),
        PacketError,
    >)
        ensures
            r is Ok == (is_secure(path@) && is_file),
            r matches Err(e) ==> e@ == ProtocolErrorView::FileNotFound,
    {
        match secure_path(path) {
            Ok(_) => {},
            Err(_) => {
                return Err(PacketError::FileNotFound);
            },
        }
        if !is_file {
            return Err(PacketError::FileNotFound);
        }
        Ok(())
    }

    /// Write requests are never served.
    pub fn write_open(&self) -> (r: Result<(), PacketError>)
        ensures
            r matches Err(e) && e@ == ProtocolErrorView::IllegalOperation,
    {
        Err(PacketError::IllegalOperation)
    }
}

} // verus!
