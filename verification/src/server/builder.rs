//! Collects the configuration of a server.

use vstd::prelude::*;
use crate::addr::{Ip, Peer};
use crate::error::Error;
use crate::server::handlers::{DirHandler, DirHandlerMode};
use crate::server::server::{ServerConfig, TftpServer, Timeout};

verus! {

/// The address that a server listens on unless another is set: port 69 on
/// every interface.
pub open spec fn default_addr() -> Peer {
    Peer { ip: Ip::V4(0), port: 69, flowinfo: 0, scope_id: 0 }
}

/// TFTP server builder.
pub struct TftpServerBuilder<H> {
    pub handle: H,
    pub addr: Peer,
    pub timeout: Timeout,
    pub block_size_limit: Option<u16>,
    pub max_send_retries: u32,
    pub ignore_client_timeout: bool,
    pub ignore_client_block_size: bool,
}

impl TftpServerBuilder<DirHandler> {
    /// Create new builder with [`DirHandler`] that serves only read requests.
    /// `is_dir` says whether `dir` names a directory.
    pub fn with_dir_ro(dir: String, is_dir: bool) -> (r: Result<
        TftpServerBuilder<DirHandler>,
        Error,
    >)
        ensures
            r is Ok == is_dir,
            r matches Ok(b) ==> b.handle.dir@ == dir@ && b.handle.serve_rrq && !b.handle.serve_wrq
                && b.is_default(),
            r matches Err(e) ==> e@ == crate::error::ErrorView::NotDir(dir@),
    {
        match DirHandler::new(dir, is_dir, DirHandlerMode::ReadOnly) {
            Ok(handler) => Ok(TftpServerBuilder::with_handler(handler)),
            Err(e) => Err(e),
        }
    }

    /// Create new builder with [`DirHandler`] that serves only write requests.
    pub fn with_dir_wo(dir: String, is_dir: bool) -> (r: Result<
        TftpServerBuilder<DirHandler>,
        Error,
    >)
        ensures
            r is Ok == is_dir,
            r matches Ok(b) ==> b.handle.dir@ == dir@ && !b.handle.serve_rrq && b.handle.serve_wrq
                && b.is_default(),
            r matches Err(e) ==> e@ == crate::error::ErrorView::NotDir(dir@),
    {
        match DirHandler::new(dir, is_dir, DirHandlerMode::WriteOnly) {
            Ok(handler) => Ok(TftpServerBuilder::with_handler(handler)),
            Err(e) => Err(e),
        }
    }

    /// Create new builder with [`DirHandler`] that serves read and write requests.
    pub fn with_dir_rw(dir: String, is_dir: bool) -> (r: Result<
        TftpServerBuilder<DirHandler>,
        Error,
    >)
        ensures
            r is Ok == is_dir,
            r matches Ok(b) ==> b.handle.dir@ == dir@ && b.handle.serve_rrq && b.handle.serve_wrq
                && b.is_default(),
            r matches Err(e) ==> e@ == crate::error::ErrorView::NotDir(dir@),
    {
        match DirHandler::new(dir, is_dir, DirHandlerMode::ReadWrite) {
            Ok(handler) => Ok(TftpServerBuilder::with_handler(handler)),
            Err(e) => Err(e),
        }
    }
}

impl<H> TftpServerBuilder<H> {
    /// Whether every setting has its default: port 69 on every interface,
    /// a timeout of 3 seconds, no block size limit, 100 retries, and no
    /// client option passed over.
    pub open spec fn is_default(&self) -> bool {
        &&& self.addr == default_addr()
        &&& self.timeout == (Timeout { secs: 3, nanos: 0 })
        &&& self.block_size_limit is None
        &&& self.max_send_retries == 100
        &&& !self.ignore_client_timeout
        &&& !self.ignore_client_block_size
    }

    /// Create new builder with custom handler.
    pub fn with_handler(handler: H) -> (b: Self)
        ensures
            b.handle == handler,
            b.is_default(),
    {
        TftpServerBuilder {
            handle: handler,
            addr: Peer { ip: Ip::V4(0), port: 69, flowinfo: 0, scope_id: 0 },
            timeout: Timeout::from_secs(3),
            block_size_limit: None,
            max_send_retries: 100,
            ignore_client_timeout: false,
            ignore_client_block_size: false,
        }
    }

    /// Set listening address.
    ///
    /// **Default:** `0.0.0.0:69`
    pub fn bind(self, addr: Peer) -> (b: Self)
        ensures
            b == (TftpServerBuilder { addr, ..self }),
    {
        TftpServerBuilder { addr, ..self }
    }

    /// Set retry timeout.
    ///
    /// Client can override this (RFC2349). If you want to enforce it you must
    /// combine it with `ignore_client_timeout`.
    ///
    /// **Default:** 3 seconds
    pub fn timeout(self, timeout: Timeout) -> (b: Self)
        ensures
            b == (TftpServerBuilder { timeout, ..self }),
    {
        TftpServerBuilder { timeout, ..self }
    }

    /// Set maximum block size.
    ///
    /// Client can request a specific block size (RFC2348). Use this option if you
    /// want to set a limit.
    pub fn block_size_limit(self, size: u16) -> (b: Self)
        ensures
            b == (TftpServerBuilder { block_size_limit: Some(size), ..self }),
    {
        TftpServerBuilder { block_size_limit: Some(size), ..self }
    }

    /// Set maximum send retries for a data block.
    ///
    /// On timeout server will try to send the data block again. When retries are
    /// reached for the specific data block the server closes the connection with
    /// the client.
    ///
    /// Default: 100 retries.
    pub fn max_send_retries(self, retries: u32) -> (b: Self)
        ensures
            b == (TftpServerBuilder { max_send_retries: retries, ..self }),
    {
        TftpServerBuilder { max_send_retries: retries, ..self }
    }

    /// Ignore client's `timeout` option.
    pub fn ignore_client_timeout(self) -> (b: Self)
        ensures
            b == (TftpServerBuilder { ignore_client_timeout: true, ..self }),
    {
        TftpServerBuilder { ignore_client_timeout: true, ..self }
    }

    /// Ignore client's block size option.
    ///
    /// This will enforce 512 block size that is defined in RFC1350.
    pub fn ignore_client_block_size(self) -> (b: Self)
        ensures
            b == (TftpServerBuilder { ignore_client_block_size: true, ..self }),
    {
        TftpServerBuilder { ignore_client_block_size: true, ..self }
    }

    /// Build the server: it carries the settings as they stand and has no
    /// session in progress.
    pub fn build(self) -> (server: TftpServer<H>)
        ensures
            server.wf(),
            server.handler == self.handle,
            server.reqs_in_progress@.len() == 0,
            server.active() == Set::<Peer>::empty(),
            server.config == (ServerConfig {
                timeout: self.timeout,
                block_size_limit: self.block_size_limit,
                max_send_retries: self.max_send_retries,
                ignore_client_timeout: self.ignore_client_timeout,
                ignore_client_block_size: self.ignore_client_block_size,
            }),
    {
        let config = ServerConfig {
            timeout: self.timeout,
            block_size_limit: self.block_size_limit,
            max_send_retries: self.max_send_retries,
            ignore_client_timeout: self.ignore_client_timeout,
            ignore_client_block_size: self.ignore_client_block_size,
        };
        let server = TftpServer { handler: self.handle, reqs_in_progress: Vec::new(), config };
        assert(server.active() =~= Set::<Peer>::empty());
        server
    }
}

} // verus!
