//! Opening a connected stream under the connect directory.
//!
//! The trailing path component is the address `host[:port]`.  The
//! protocol is resolved against the directory's exact-match table first
//! and its default second; an omitted port defaults to 443 under TLS and
//! 80 under TCP.  Each successful open describes exactly one connect to
//! perform; the node graph never caches a connection.

use crate::addr::{
    connect_host_part, connect_port_part, matches_connect_host, parse_connect_addr,
    valid_connect_addr, ConnectAddr, ConnectHost,
};
use crate::config::ConnectFile;
use crate::error::VfsError;
use crate::listen::FDFLAG_NONBLOCK;
use crate::policy::{resolve, spec_resolve, table_view};
use crate::strutil::dec_val;
use vstd::prelude::*;

verus! {

/// One connect to perform: remote endpoint, blocking mode, TLS or not,
/// and the server name presented during a TLS handshake.
#[derive(Clone, Debug)]
pub struct ConnectAction {
    /// Remote host.
    pub host: ConnectHost,
    /// Remote port, after policy defaulting.
    pub port: u16,
    /// Whether the stream is put in non-blocking mode.
    pub nonblocking: bool,
    /// Whether a TLS client session is established over the stream.
    pub tls: bool,
    /// Server name of the TLS session: the literal host string.
    pub server_name: String,
}

/// The port a connect address resolves to: the explicit port when given,
/// else 443 under TLS policy and 80 under TCP policy.
pub open spec fn connect_port_of(addr: Seq<char>, policy: ConnectFile) -> int {
    match connect_port_part(addr) {
        Some(p) => dec_val(p),
        None => if policy is Tls {
            443
        } else {
            80
        },
    }
}

/// Exact contract of opening a connect address against a policy.
pub open spec fn connect_open_spec(
    entries: Seq<(Seq<char>, ConnectFile)>,
    default: ConnectFile,
    addr: Seq<char>,
    fdflags: u16,
    r: Result<ConnectAction, VfsError>,
) -> bool {
    let policy = spec_resolve(entries, default, addr);
    match r {
        Ok(a) => {
            &&& valid_connect_addr(addr)
            &&& (fdflags == FDFLAG_NONBLOCK || fdflags == 0)
            &&& matches_connect_host(connect_host_part(addr), a.host)
            &&& a.port as int == connect_port_of(addr, policy)
            &&& a.nonblocking == (fdflags == FDFLAG_NONBLOCK)
            &&& a.tls == (policy is Tls)
            &&& a.server_name@ == connect_host_part(addr)
        },
        Err(e) => e is InvalidArgument && (!valid_connect_addr(addr) || !(fdflags
            == FDFLAG_NONBLOCK || fdflags == 0)),
    }
}

/// Opens a connect address: parses `host[:port]`, resolves the protocol
/// exact-match-first, defaults the port per the protocol, validates the
/// flags, and returns the one connect to perform.  A TLS session is
/// established exactly when the resolved protocol is TLS.
pub fn open_connect_socket(
    entries: &Vec<(String, ConnectFile)>,
    default: ConnectFile,
    addr: &str,
    fdflags: u16,
) -> (r: Result<ConnectAction, VfsError>)
    ensures
        connect_open_spec(table_view(entries@), default, addr@, fdflags, r),
{
    let parsed: ConnectAddr = match parse_connect_addr(addr) {
        Ok(p) => p,
        Err(e) => {
            return Err(e);
        },
    };
    let policy = resolve(entries, default, addr);
    let port: u16 = match parsed.port {
        Some(p) => p,
        None => match policy {
            ConnectFile::Tls => 443,
            ConnectFile::Tcp => 80,
        },
    };
    let nonblocking = if fdflags == FDFLAG_NONBLOCK {
        true
    } else if fdflags == 0 {
        false
    } else {
        return Err(VfsError::InvalidArgument);
    };
    let tls = match policy {
        ConnectFile::Tls => true,
        ConnectFile::Tcp => false,
    };
    let server_name = match &parsed.host {
        ConnectHost::Loopback => String::from_str("localhost"),
        ConnectHost::Named(n) => n.clone(),
    };
    proof {
        if connect_host_part(addr@) == "localhost"@ {
            assert(server_name@ == connect_host_part(addr@));
        }
    }
    Ok(ConnectAction { host: parsed.host, port, nonblocking, tls, server_name })
}

} // verus!
