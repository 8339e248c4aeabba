//! Configuration for a WASI application running in a keep.
//!
//! The structures mirror the on-disk TOML configuration.  Deserialization
//! itself happens outside this crate; here the configuration is plain data
//! with its defaults and the network policy it induces.

use vstd::prelude::*;

verus! {

/// Protocol of a pre-declared listening socket.
#[derive(Clone, Copy, Debug, PartialEq, Eq, Structural)]
pub enum ListenFile {
    /// TLS listen socket.
    Tls,
    /// TCP listen socket.
    Tcp,
}

impl Default for ListenFile {
    /// Listening sockets default to TLS.
    fn default() -> (r: Self)
        ensures
            r is Tls,
    {
        ListenFile::Tls
    }
}

/// Protocol of a pre-declared connected stream.
#[derive(Clone, Copy, Debug, PartialEq, Eq, Structural)]
pub enum ConnectFile {
    /// TLS stream socket.
    Tls,
    /// TCP stream socket.
    Tcp,
}

impl Default for ConnectFile {
    /// Connected streams default to TLS.
    fn default() -> (r: Self)
        ensures
            r is Tls,
    {
        ConnectFile::Tls
    }
}

/// Standard I/O routing.
#[derive(Clone, Copy, Debug, PartialEq, Eq, Structural)]
pub enum StdioFile {
    /// Discard standard I/O.
    Null,
    /// Forward standard I/O to the host.
    Host,
}

impl Default for StdioFile {
    /// Standard I/O is discarded by default.
    fn default() -> (r: Self)
        ensures
            r is Null,
    {
        StdioFile::Null
    }
}

/// Incoming network connection policy.
#[derive(Clone, Copy, Debug, PartialEq, Eq, Structural)]
pub struct IncomingNetwork {
    /// Default protocol for listening sockets not declared statically.
    pub default: ListenFile,
}

impl Default for IncomingNetwork {
    /// The incoming default is the [`ListenFile`] default.
    fn default() -> (r: Self)
        ensures
            r.default is Tls,
    {
        IncomingNetwork { default: ListenFile::Tls }
    }
}

/// Outgoing network connection policy.
#[derive(Clone, Copy, Debug, PartialEq, Eq, Structural)]
pub struct OutgoingNetwork {
    /// Default protocol for connect addresses without an exact-match entry.
    pub default: ConnectFile,
}

impl Default for OutgoingNetwork {
    /// The outgoing default is the [`ConnectFile`] default.
    fn default() -> (r: Self)
        ensures
            r.default is Tls,
    {
        OutgoingNetwork { default: ConnectFile::Tls }
    }
}

/// Network policy: incoming and outgoing defaults.
#[derive(Clone, Copy, Debug, PartialEq, Eq, Structural)]
pub struct Network {
    /// Incoming network connection policy.
    pub incoming: IncomingNetwork,
    /// Outgoing network connection policy.
    pub outgoing: OutgoingNetwork,
}

impl Default for Network {
    /// Both directions default to TLS.
    fn default() -> (r: Self)
        ensures
            r.incoming.default is Tls,
            r.outgoing.default is Tls,
    {
        Network {
            incoming: IncomingNetwork { default: ListenFile::Tls },
            outgoing: OutgoingNetwork { default: ConnectFile::Tls },
        }
    }
}

/// The keep configuration for a WASI application.
///
/// `listen` and `connect` are exact-match tables from file name (or address)
/// to protocol; lookups consult them before the per-direction default in
/// `network`.
#[derive(Clone, Debug)]
pub struct Config {
    /// Optional URL of the remote signing service.
    pub steward: Option<String>,
    /// Arguments to provide to the application.
    pub args: Vec<String>,
    /// Environment variables to provide to the application.
    pub env: Vec<(String, String)>,
    /// Standard input routing.
    pub stdin: StdioFile,
    /// Standard output routing.
    pub stdout: StdioFile,
    /// Standard error routing.
    pub stderr: StdioFile,
    /// Pre-declared listening sockets, name to protocol.
    pub listen: Vec<(String, ListenFile)>,
    /// Pre-declared connected streams, address to protocol.
    pub connect: Vec<(String, ConnectFile)>,
    /// Network policy defaults.
    pub network: Network,
}

impl Default for Config {
    /// The default configuration: no steward, no arguments, no environment,
    /// all standard I/O discarded, no pre-declared sockets, TLS defaults.
    fn default() -> (r: Self)
        ensures
            r.steward is None,
            r.args@.len() == 0,
            r.env@.len() == 0,
            r.stdin is Null,
            r.stdout is Null,
            r.stderr is Null,
            r.listen@.len() == 0,
            r.connect@.len() == 0,
            r.network.incoming.default is Tls,
            r.network.outgoing.default is Tls,
    {
        Config {
            steward: None,
            args: Vec::new(),
            env: Vec::new(),
            stdin: StdioFile::Null,
            stdout: StdioFile::Null,
            stderr: StdioFile::Null,
            listen: Vec::new(),
            connect: Vec::new(),
            network: Network {
                incoming: IncomingNetwork { default: ListenFile::Tls },
                outgoing: OutgoingNetwork { default: ConnectFile::Tls },
            },
        }
    }
}

} // verus!
