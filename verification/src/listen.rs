//! Opening a listening socket node.
//!
//! Each open of a socket node performs exactly one bind: the node carries
//! only its protocol, never a socket, so nothing can be reused across
//! opens.  The returned action describes the single bind the caller must
//! perform, and whether to wrap the listener in TLS.

use crate::addr::{
    last_seg, listen_host_part, listen_port_part, matches_bind_host, parse_listen_addr,
    valid_port, BindHost, ListenAddr,
};
use crate::config::ListenFile;
use crate::error::VfsError;
use crate::strutil::dec_val;
use vstd::prelude::*;

verus! {

/// The WASI `NONBLOCK` file-descriptor flag.
pub const FDFLAG_NONBLOCK: u16 = 4;

/// One bind to perform: interface, port, blocking mode, and whether the
/// accepted connections are wrapped in TLS.
#[derive(Clone, Debug)]
pub struct ListenAction {
    /// Parsed bind address.
    pub addr: ListenAddr,
    /// Whether the listener is put in non-blocking mode.
    pub nonblocking: bool,
    /// Whether accepted connections complete a TLS handshake.
    pub tls: bool,
}

/// When an open of a listening socket node succeeds: it must not be opened
/// as a directory, must be opened read+write, the trailing path component
/// must parse as `[host:]port`, and the flags must be empty or exactly
/// `NONBLOCK`.
pub open spec fn listen_open_ok(
    path: Seq<char>,
    dirflag: bool,
    read: bool,
    write: bool,
    fdflags: u16,
) -> bool {
    &&& !dirflag
    &&& read
    &&& write
    &&& path.len() > 0
    &&& valid_port(listen_port_part(last_seg(path)))
    &&& (fdflags == FDFLAG_NONBLOCK || fdflags == 0)
}

/// The error an open of a listening socket node returns, mirroring the
/// order the conditions are checked in.
pub open spec fn listen_open_err(
    path: Seq<char>,
    dirflag: bool,
    read: bool,
    write: bool,
    fdflags: u16,
) -> VfsError {
    if dirflag {
        VfsError::NotDir
    } else if !read || !write {
        VfsError::Permission
    } else {
        VfsError::InvalidArgument
    }
}

/// Exact contract of opening a listening socket node of the given
/// protocol.
pub open spec fn listen_open_spec(
    protocol: ListenFile,
    path: Seq<char>,
    dirflag: bool,
    read: bool,
    write: bool,
    fdflags: u16,
    r: Result<ListenAction, VfsError>,
) -> bool {
    match r {
        Ok(a) => {
            &&& listen_open_ok(path, dirflag, read, write, fdflags)
            &&& a.addr.port as int == dec_val(listen_port_part(last_seg(path)))
            &&& matches_bind_host(listen_host_part(last_seg(path)), a.addr.host)
            &&& a.nonblocking == (fdflags == FDFLAG_NONBLOCK)
            &&& a.tls == (protocol is Tls)
        },
        Err(e) => !listen_open_ok(path, dirflag, read, write, fdflags) && e == listen_open_err(
            path,
            dirflag,
            read,
            write,
            fdflags,
        ),
    }
}

/// Opens a listening socket node: parses the trailing path component as
/// `[host:]port`, validates the flag combination, and returns the one
/// bind to perform.  The bind is wrapped in TLS exactly when the node's
/// protocol is TLS.
pub fn open_listen_socket(
    protocol: ListenFile,
    path: &str,
    dirflag: bool,
    read: bool,
    write: bool,
    fdflags: u16,
) -> (r: Result<ListenAction, VfsError>)
    ensures
        listen_open_spec(protocol, path@, dirflag, read, write, fdflags, r),
{
    if dirflag {
        return Err(VfsError::NotDir);
    }
    if !read || !write {
        return Err(VfsError::Permission);
    }
    let addr = match crate::addr::last_segment(path) {
        Some(a) => a,
        None => {
            return Err(VfsError::InvalidArgument);
        },
    };
    let parsed = match parse_listen_addr(addr) {
        Ok(p) => p,
        Err(e) => {
            return Err(e);
        },
    };
    let nonblocking = if fdflags == FDFLAG_NONBLOCK {
        true
    } else if fdflags == 0 {
        false
    } else {
        return Err(VfsError::InvalidArgument);
    };
    let tls = match protocol {
        ListenFile::Tls => true,
        ListenFile::Tcp => false,
    };
    Ok(ListenAction { addr: parsed, nonblocking, tls })
}

} // verus!
