//! Address grammars of the socket directories.
//!
//! A listening socket name is `[host:]port`: the part before the first `:`
//! is the host, the rest the port; without a `:` the whole name is the port.
//! A connect address is `host[:port]`: the part after the last `:` is the
//! port when present; the host must be non-empty.

use crate::error::VfsError;
use crate::strutil::{dec_val, find_first, find_last, is_dec_digits, parse_port, str_eq};
use vstd::prelude::*;

verus! {

/// Interface a listening socket binds to.
#[derive(Clone, Debug)]
pub enum BindHost {
    /// Bind all interfaces.
    Any,
    /// Bind loopback explicitly.
    Loopback,
    /// Bind the named host.
    Named(String),
}

/// A parsed listening socket name.
#[derive(Clone, Debug)]
pub struct ListenAddr {
    /// Interface to bind.
    pub host: BindHost,
    /// Port to bind.
    pub port: u16,
}

/// Remote endpoint of a connect address.
#[derive(Clone, Debug)]
pub enum ConnectHost {
    /// The literal host `localhost`: connect to a local address.
    Loopback,
    /// Any other host string, domain or IP literal.
    Named(String),
}

/// A parsed connect address; the port may be omitted.
#[derive(Clone, Debug)]
pub struct ConnectAddr {
    /// Remote host.
    pub host: ConnectHost,
    /// Remote port, when given explicitly.
    pub port: Option<u16>,
}

/// Host part of a listening socket name: what stands before the first `:`.
pub open spec fn listen_host_part(s: Seq<char>) -> Option<Seq<char>> {
    match s.index_of_first(':') {
        Some(i) => Some(s.take(i)),
        None => None,
    }
}

/// Port part of a listening socket name: what stands after the first `:`,
/// or the whole name without one.
pub open spec fn listen_port_part(s: Seq<char>) -> Seq<char> {
    match s.index_of_first(':') {
        Some(i) => s.skip(i + 1),
        None => s,
    }
}

/// A valid decimal port: non-empty digits, value at most 65535.
pub open spec fn valid_port(p: Seq<char>) -> bool {
    p.len() > 0 && is_dec_digits(p) && dec_val(p) <= 65535
}

/// The bind interface a listen host token names.
pub open spec fn matches_bind_host(h: Option<Seq<char>>, b: BindHost) -> bool {
    match h {
        None => b is Any,
        Some(hs) => if hs == "localhost"@ || hs == "127.0.0.1"@ {
            b is Loopback
        } else if hs == "0.0.0.0"@ || hs.len() == 0 {
            b is Any
        } else {
            match b {
                BindHost::Named(n) => n@ == hs,
                _ => false,
            }
        },
    }
}

/// Parses a listening socket name.
///
/// `localhost` and `127.0.0.1` bind loopback; an absent host, the literal
/// `0.0.0.0` and the empty token bind all interfaces; any other host is
/// bound by name.  A malformed port is an invalid-argument error.
pub fn parse_listen_addr(addr: &str) -> (r: Result<ListenAddr, VfsError>)
    ensures
        match r {
            Ok(la) => {
                &&& valid_port(listen_port_part(addr@))
                &&& la.port as int == dec_val(listen_port_part(addr@))
                &&& matches_bind_host(listen_host_part(addr@), la.host)
            },
            Err(e) => e is InvalidArgument && !valid_port(listen_port_part(addr@)),
        },
{
    proof {
        addr@.index_of_first_ensures(':');
        assert(addr@.subrange(0, addr@.len() as int) =~= addr@);
    }
    let n = addr.unicode_len();
    let (host, port_str) = match find_first(addr, ':') {
        Some(i) => {
            proof {
                assert(addr@.index_of_first(':') == Some(i as int));
            }
            (Some(addr.substring_char(0, i)), addr.substring_char(i + 1, n))
        },
        None => {
            proof {
                if addr@.contains(':') {
                    let j = choose|j: int| 0 <= j < addr@.len() && addr@[j] == ':';
                    assert(addr@[j] == ':');
                }
            }
            (None, addr.substring_char(0, n))
        },
    };
    let port = match parse_port(port_str) {
        Some(p) => p,
        None => {
            return Err(VfsError::InvalidArgument);
        },
    };
    let host = match host {
        None => BindHost::Any,
        Some(h) => {
            if str_eq(h, "localhost") || str_eq(h, "127.0.0.1") {
                BindHost::Loopback
            } else if str_eq(h, "0.0.0.0") || h.unicode_len() == 0 {
                BindHost::Any
            } else {
                BindHost::Named(String::from_str(h))
            }
        },
    };
    Ok(ListenAddr { host, port })
}

/// Host part of a connect address: what stands before the last `:`, or the
/// whole address without one.
pub open spec fn connect_host_part(s: Seq<char>) -> Seq<char> {
    match s.index_of_last(':') {
        Some(i) => s.take(i),
        None => s,
    }
}

/// Port part of a connect address: what stands after the last `:`, if any.
pub open spec fn connect_port_part(s: Seq<char>) -> Option<Seq<char>> {
    match s.index_of_last(':') {
        Some(i) => Some(s.skip(i + 1)),
        None => None,
    }
}

/// A well-formed connect address: non-empty host, and a valid port when one
/// is given.
pub open spec fn valid_connect_addr(s: Seq<char>) -> bool {
    &&& connect_host_part(s).len() > 0
    &&& match connect_port_part(s) {
        Some(p) => valid_port(p),
        None => true,
    }
}

/// The remote host a connect host token names.
pub open spec fn matches_connect_host(h: Seq<char>, c: ConnectHost) -> bool {
    if h == "localhost"@ {
        c is Loopback
    } else {
        match c {
            ConnectHost::Named(n) => n@ == h,
            _ => false,
        }
    }
}

/// Parses a connect address.
///
/// The literal host `localhost` resolves to a local address; the port may
/// be omitted.  An empty host or a malformed port is an invalid-argument
/// error.
pub fn parse_connect_addr(addr: &str) -> (r: Result<ConnectAddr, VfsError>)
    ensures
        match r {
            Ok(ca) => {
                &&& valid_connect_addr(addr@)
                &&& matches_connect_host(connect_host_part(addr@), ca.host)
                &&& match connect_port_part(addr@) {
                    Some(p) => ca.port is Some && ca.port.unwrap() as int == dec_val(p),
                    None => ca.port is None,
                }
            },
            Err(e) => e is InvalidArgument && !valid_connect_addr(addr@),
        },
{
    proof {
        addr@.index_of_last_ensures(':');
        assert(addr@.subrange(0, addr@.len() as int) =~= addr@);
    }
    let n = addr.unicode_len();
    let (host, port) = match find_last(addr, ':') {
        Some(i) => {
            proof {
                assert(addr@.index_of_last(':') == Some(i as int));
            }
            let h = addr.substring_char(0, i);
            let p = addr.substring_char(i + 1, n);
            match parse_port(p) {
                Some(v) => (h, Some(v)),
                None => {
                    return Err(VfsError::InvalidArgument);
                },
            }
        },
        None => {
            proof {
                if addr@.contains(':') {
                    let j = choose|j: int| 0 <= j < addr@.len() && addr@[j] == ':';
                    assert(addr@[j] == ':');
                }
            }
            (addr.substring_char(0, n), None)
        },
    };
    if host.unicode_len() == 0 {
        return Err(VfsError::InvalidArgument);
    }
    let host = if str_eq(host, "localhost") {
        ConnectHost::Loopback
    } else {
        ConnectHost::Named(String::from_str(host))
    };
    Ok(ConnectAddr { host, port })
}

/// The last path segment, as `rsplit_terminator` of the path separator
/// yields it: one trailing separator is ignored; an empty path has none.
pub open spec fn trimmed_path(s: Seq<char>) -> Seq<char> {
    if s.len() > 0 && s.last() == '/' {
        s.drop_last()
    } else {
        s
    }
}

/// View of the last path segment of a non-empty path.
pub open spec fn last_seg(s: Seq<char>) -> Seq<char> {
    match trimmed_path(s).index_of_last('/') {
        Some(i) => trimmed_path(s).skip(i + 1),
        None => trimmed_path(s),
    }
}

/// The trailing component of a path, or `None` for the empty path.
pub fn last_segment<'a>(s: &'a str) -> (r: Option<&'a str>)
    ensures
        match r {
            Some(t) => s@.len() > 0 && t@ == last_seg(s@),
            None => s@.len() == 0,
        },
{
    let n = s.unicode_len();
    if n == 0 {
        return None;
    }
    let t = if s.get_char(n - 1) == '/' {
        s.substring_char(0, n - 1)
    } else {
        s.substring_char(0, n)
    };
    proof {
        assert(t@ =~= trimmed_path(s@));
        t@.index_of_last_ensures('/');
    }
    let tn = t.unicode_len();
    match find_last(t, '/') {
        Some(i) => {
            proof {
                assert(t@.index_of_last('/') == Some(i as int));
            }
            Some(t.substring_char(i + 1, tn))
        },
        None => {
            proof {
                if t@.contains('/') {
                    let j = choose|j: int| 0 <= j < t@.len() && t@[j] == '/';
                    assert(t@[j] == '/');
                }
            }
            Some(t)
        },
    }
}

} // verus!
