//! The rules by which a directory is served.
//!
//! The file system itself is out of reach here. Whoever opens the files
//! splits a requested path into its components, asks the handler, and
//! opens the file below the directory only on `Ok`.

use vstd::prelude::*;
use crate::error::{Error, ErrorView};
use crate::packet::{Error as PacketError, ProtocolErrorView};

verus! {

/// One component of a path, by its kind.
#[derive(Debug, Clone, Copy, PartialEq, Eq, Structural)]
pub enum PathComponent {
    /// A drive or share prefix.
    Prefix,
    /// The root directory.
    RootDir,
    /// The directory itself, `.`.
    CurDir,
    /// The parent directory, `..`.
    ParentDir,
    /// A name.
    Normal,
}

/// Handler that serves read and write requests for a directory.
#[derive(Debug)]
pub struct DirHandler {
    pub dir: String,
    pub serve_rrq: bool,
    pub serve_wrq: bool,
}

#[derive(Debug, Clone, Copy, PartialEq, Eq, Structural)]
pub enum DirHandlerMode {
    /// Serve only read requests.
    ReadOnly,
    /// Serve only write requests.
    WriteOnly,
    /// Server read and write requests.
    ReadWrite,
}

/// Whether a path stays below the directory it is joined to: it begins
/// with a name and has no `..` anywhere.
pub open spec fn is_secure(path: Seq<PathComponent>) -> bool {
    &&& path.len() > 0
    &&& path[0] == PathComponent::Normal
    &&& forall|i: int| 0 <= i < path.len() ==> path[i] != PathComponent::ParentDir
}

/// Checks a requested path, given by its components after a leading `/` or
/// `./` was stripped. `PermissionDenied` for every path that is not
/// secure.
pub fn secure_path(path: &[PathComponent]) -> (r: Result<(), PacketError>)
    ensures
        r is Ok == is_secure(path@),
        r matches Err(e) ==> e@ == ProtocolErrorView::PermissionDenied,
{
    // Avoid directory traversal attack by filtering `../`.
    let n: usize = path.len();
    let mut i: usize = 0;
    while i < n
        invariant
            i <= n,
            n == path@.len(),
            forall|j: int| 0 <= j < i ==> path@[j] != PathComponent::ParentDir,
        decreases n - i,
    {
        if path[i] == PathComponent::ParentDir {
            return Err(PacketError::PermissionDenied);
        }
        i += 1;
    }
    // Path should not start from root dir or have any Windows prefixes.
    // i.e. We accept only normal path components.
    if n == 0 || path[0] != PathComponent::Normal {
        return Err(PacketError::PermissionDenied);
    }
    Ok(())
}

impl DirHandler {
    /// Create new handler for directory `dir`, given in canonical form;
    /// `is_dir` says whether it names a directory.
    pub fn new(dir: String, is_dir: bool, flags: DirHandlerMode) -> (r: Result<Self, Error>)
        ensures
            r is Ok == is_dir,
            r matches Ok(h) ==> h.dir@ == dir@ && h.serve_rrq == (flags != DirHandlerMode::WriteOnly)
                && h.serve_wrq == (flags != DirHandlerMode::ReadOnly),
            r matches Err(e) ==> e@ == ErrorView::NotDir(dir@),
    {
        if !is_dir {
            return Err(Error::NotDir(dir));
        }
        let serve_rrq = match flags {
            DirHandlerMode::ReadOnly => true,
            DirHandlerMode::WriteOnly => false,
            DirHandlerMode::ReadWrite => true,
        };
        let serve_wrq = match flags {
            DirHandlerMode::ReadOnly => false,
            DirHandlerMode::WriteOnly => true,
            DirHandlerMode::ReadWrite => true,
        };
        Ok(DirHandler { dir, serve_rrq, serve_wrq })
    }

    /// Whether a read request is served. `is_file` says whether the path,
    /// joined to the directory, names a regular file.
    pub fn read_req_open(&self, path: &[PathComponent], is_file: bool) -> (r: Result<
        (),
        PacketError,
    >)
        ensures
            r is Ok == (self.serve_rrq && is_secure(path@) && is_file),
            r matches Err(e) ==> e@ == (if !self.serve_rrq {
                ProtocolErrorView::IllegalOperation
            } else if !is_secure(path@) {
                ProtocolErrorView::PermissionDenied
            } else {
                ProtocolErrorView::FileNotFound
            }),
    {
        if !self.serve_rrq {
            return Err(PacketError::IllegalOperation);
        }
        match secure_path(path) {
            Ok(_) => {},
            Err(e) => {
                return Err(e);
            },
        }
        // Send only regular files
        if !is_file {
            return Err(PacketError::FileNotFound);
        }
        Ok(())
    }

    /// Whether a write request is served.
    pub fn write_req_open(&self, path: &[PathComponent]) -> (r: Result<(), PacketError>)
        ensures
            r is Ok == (self.serve_wrq && is_secure(path@)),
            r matches Err(e) ==> e@ == (if !self.serve_wrq {
                ProtocolErrorView::IllegalOperation
            } else {
                ProtocolErrorView::PermissionDenied
            }),
    {
        if !self.serve_wrq {
            return Err(PacketError::IllegalOperation);
        }
        secure_path(path)
    }
}

} // verus!
