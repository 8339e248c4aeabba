//! Opening paths against the node graph.
//!
//! A path with separators is resolved by opening the first segment as a
//! directory and recursing on the remainder; `.` resolves to the node
//! itself and `..` to its parent, or to the node itself at the root.  The
//! final component is dispatched on the directory's payload: plain
//! directories hand out their children, the listen directory mints and
//! opens socket nodes, the connect directory resolves addresses against
//! its policy, and the peer directory serves one-shot metadata records.
//!
//! No open ever returns a live socket: a successful socket open returns
//! the description of exactly one bind or connect for the caller to
//! perform, so no socket can be cached or reused across opens.

use crate::config::{ConnectFile, ListenFile};
use crate::connect::{connect_open_spec, open_connect_socket, ConnectAction};
use crate::error::VfsError;
use crate::listen::{listen_open_spec, open_listen_socket, ListenAction};
use crate::net::{accept_json, connect_json, encode_accept, encode_connect};
use crate::node::{Fs, Node, Payload};
use crate::policy::{spec_lookup, table_view};
use crate::strutil::{find_first, str_eq};
use vstd::prelude::*;

verus! {

/// WASI open flag: create the file if absent.
pub const OFLAG_CREATE: u16 = 1;

/// WASI open flag: fail unless the target is a directory.
pub const OFLAG_DIRECTORY: u16 = 2;

/// WASI open flag: fail if the target exists.
pub const OFLAG_EXCLUSIVE: u16 = 4;

/// WASI open flag: truncate the target.
pub const OFLAG_TRUNCATE: u16 = 8;

/// The open flag combinations these directories accept.
pub open spec fn oflags_valid(o: u16) -> bool {
    ||| o == 0
    ||| o == OFLAG_CREATE
    ||| o == OFLAG_DIRECTORY
    ||| o == OFLAG_TRUNCATE
    ||| o == OFLAG_CREATE + OFLAG_DIRECTORY
    ||| o == OFLAG_CREATE + OFLAG_EXCLUSIVE
    ||| o == OFLAG_CREATE + OFLAG_TRUNCATE
    ||| o == OFLAG_CREATE + OFLAG_DIRECTORY + OFLAG_EXCLUSIVE
}

/// Whether a valid flag combination contains `TRUNCATE`.
pub open spec fn has_truncate(o: u16) -> bool {
    o == OFLAG_TRUNCATE || o == OFLAG_CREATE + OFLAG_TRUNCATE
}

/// Whether a valid flag combination contains `DIRECTORY`.
pub open spec fn has_directory(o: u16) -> bool {
    o == OFLAG_DIRECTORY || o == OFLAG_CREATE + OFLAG_DIRECTORY || o == OFLAG_CREATE
        + OFLAG_DIRECTORY + OFLAG_EXCLUSIVE
}

/// Whether a valid flag combination contains `EXCLUSIVE`.
pub open spec fn has_exclusive(o: u16) -> bool {
    o == OFLAG_CREATE + OFLAG_EXCLUSIVE || o == OFLAG_CREATE + OFLAG_DIRECTORY + OFLAG_EXCLUSIVE
}

/// What an open returns.
#[derive(Debug)]
pub enum Outcome {
    /// A handle on a directory node.
    Dir(usize),
    /// Perform exactly this one bind, then listen.
    Listen(ListenAction),
    /// Perform exactly this one connect.
    Connect(ConnectAction),
    /// One accept record, serialized, delivered exactly once.
    ReadAccept(String),
    /// One connect record, serialized, delivered exactly once.
    ReadConnect(String),
    /// No accept record is available yet: retry once one was produced.
    PendingAccept,
    /// No connect record is available yet: retry once one was produced.
    PendingConnect,
}

/// One resolution step of a directory-open: `.`, `..`, or a named child
/// that must itself be a directory.  The policy directories hand out no
/// children by name; a socket is no directory.
pub open spec fn spec_step(nodes: Seq<Node>, at: int, seg: Seq<char>) -> Result<int, VfsError> {
    if seg.len() == 0 {
        Err(VfsError::InvalidArgument)
    } else if seg == "."@ {
        Ok(at)
    } else if seg == ".."@ {
        match nodes[at].parent {
            Some(p) => Ok(p as int),
            None => Ok(at),
        }
    } else {
        match nodes[at].payload {
            Payload::Dir => spec_step_lookup(nodes, at, seg),
            Payload::ListenDir { .. } => spec_step_lookup(nodes, at, seg),
            Payload::ConnectDir { .. } => Err(VfsError::NotSupported),
            Payload::PeerDir { .. } => Err(VfsError::NotSupported),
            Payload::ListenSocket { .. } => Err(VfsError::NotDir),
        }
    }
}

/// Lookup of a named child during directory resolution.
pub open spec fn spec_step_lookup(nodes: Seq<Node>, at: int, seg: Seq<char>) -> Result<
    int,
    VfsError,
> {
    match spec_lookup(table_view(nodes[at].entries@), seg) {
        Some(c) => if nodes[c as int].payload.is_dir() {
            Ok(c as int)
        } else {
            Err(VfsError::NotDir)
        },
        None => Err(VfsError::NotFound),
    }
}

/// Resolution of all but the last component of a path.
pub open spec fn spec_resolve_path(nodes: Seq<Node>, at: int, path: Seq<char>) -> Result<
    (int, Seq<char>),
    VfsError,
>
    decreases path.len(),
    via spec_resolve_path_dec
{
    match path.index_of_first('/') {
        None => Ok((at, path)),
        Some(i) => match spec_step(nodes, at, path.take(i)) {
            Ok(d) => spec_resolve_path(nodes, d, path.skip(i + 1)),
            Err(e) => Err(e),
        },
    }
}

#[via_fn]
proof fn spec_resolve_path_dec(nodes: Seq<Node>, at: int, path: Seq<char>) {
    path.index_of_first_ensures('/');
}

/// Whether the payload is a directory payload.
fn payload_is_dir(p: &Payload) -> (b: bool)
    ensures
        b == p.is_dir(),
{
    match p {
        Payload::ListenSocket { .. } => false,
        _ => true,
    }
}

/// One resolution step, executable.
pub fn step(fs: &Fs, at: usize, seg: &str) -> (r: Result<usize, VfsError>)
    requires
        fs.wf(),
        at < fs.len(),
    ensures
        match (r, spec_step(fs.nodes@, at as int, seg@)) {
            (Ok(d), Ok(sd)) => d as int == sd && d < fs.len(),
            (Err(e), Err(se)) => e == se,
            _ => false,
        },
{
    if seg.unicode_len() == 0 {
        return Err(VfsError::InvalidArgument);
    }
    if str_eq(seg, ".") {
        return Ok(at);
    }
    if str_eq(seg, "..") {
        return Ok(fs.parent_or_self(at));
    }
    match &fs.nodes[at].payload {
        Payload::Dir | Payload::ListenDir { .. } => {
            match fs.lookup(at, seg) {
                Some(c) => {
                    if payload_is_dir(&fs.nodes[c].payload) {
                        Ok(c)
                    } else {
                        Err(VfsError::NotDir)
                    }
                },
                None => Err(VfsError::NotFound),
            }
        },
        Payload::ConnectDir { .. } => Err(VfsError::NotSupported),
        Payload::PeerDir { .. } => Err(VfsError::NotSupported),
        Payload::ListenSocket { .. } => Err(VfsError::NotDir),
    }
}

/// Resolves all but the last component of `path` from `at`, stepping
/// through each `/`-separated segment.
pub fn resolve_path<'a>(fs: &Fs, at: usize, path: &'a str) -> (r: Result<
    (usize, &'a str),
    VfsError,
>)
    requires
        fs.wf(),
        at < fs.len(),
    ensures
        match (r, spec_resolve_path(fs.nodes@, at as int, path@)) {
            (Ok((d, leaf)), Ok((sd, sleaf))) => d as int == sd && leaf@ == sleaf && d < fs.len()
                && !leaf@.contains('/'),
            (Err(e), Err(se)) => e == se,
            _ => false,
        },
    decreases path@.len(),
{
    proof {
        path@.index_of_first_ensures('/');
    }
    match find_first(path, '/') {
        None => {
            proof {
                if path@.contains('/') {
                    let j = choose|j: int| 0 <= j < path@.len() && path@[j] == '/';
                    assert(path@[j] == '/');
                }
            }
            Ok((at, path))
        },
        Some(i) => {
            proof {
                assert(path@.index_of_first('/') == Some(i as int));
            }
            let n = path.unicode_len();
            let seg = path.substring_char(0, i);
            let rest = path.substring_char(i + 1, n);
            match step(fs, at, seg) {
                Ok(d) => resolve_path(fs, d, rest),
                Err(e) => Err(e),
            }
        },
    }
}

/// Leaf behavior of a plain directory: `.` and `..` open the directory
/// and its parent; a named child is handed out; nothing is created.
pub open spec fn open_plain_dir_spec(
    pre: Fs,
    post: Fs,
    d: int,
    leaf: Seq<char>,
    r: Result<Outcome, VfsError>,
) -> bool {
    &&& post == pre
    &&& if leaf == "."@ || leaf.len() == 0 {
        r matches Ok(Outcome::Dir(h)) && h as int == d
    } else if leaf == ".."@ {
        r matches Ok(Outcome::Dir(h)) && h as int == crate::node::spec_parent_or_self(&pre, d)
    } else {
        match spec_lookup(table_view(pre.nodes@[d].entries@), leaf) {
            Some(c) => r matches Ok(Outcome::Dir(h)) && h == c,
            None => r == Err::<Outcome, VfsError>(VfsError::NotFound),
        }
    }
}

/// A result that opens a listening socket of the given protocol, wrapped
/// as an outcome.
pub open spec fn listen_outcome_spec(
    protocol: ListenFile,
    leaf: Seq<char>,
    dirflag: bool,
    read: bool,
    write: bool,
    fdflags: u16,
    r: Result<Outcome, VfsError>,
) -> bool {
    match r {
        Ok(Outcome::Listen(a)) => listen_open_spec(
            protocol,
            leaf,
            dirflag,
            read,
            write,
            fdflags,
            Ok(a),
        ),
        Err(e) => listen_open_spec(protocol, leaf, dirflag, read, write, fdflags, Err(e)),
        _ => false,
    }
}

/// Leaf behavior of the listen directory: statically declared names open
/// their socket node; any other name first mints a socket node carrying
/// the directory's default protocol, attaches it under that name, and
/// opens it.  Either way each open binds exactly one fresh socket.
pub open spec fn open_listen_dir_spec(
    pre: Fs,
    post: Fs,
    d: int,
    default: ListenFile,
    leaf: Seq<char>,
    oflags: u16,
    read: bool,
    write: bool,
    fdflags: u16,
    r: Result<Outcome, VfsError>,
) -> bool {
    if leaf == "."@ || leaf.len() == 0 {
        post == pre && (r matches Ok(Outcome::Dir(h)) && h as int == d)
    } else if leaf == ".."@ {
        post == pre && (r matches Ok(Outcome::Dir(h)) && h as int
            == crate::node::spec_parent_or_self(&pre, d))
    } else {
        match spec_lookup(table_view(pre.nodes@[d].entries@), leaf) {
            Some(c) => {
                &&& post == pre
                &&& match pre.nodes@[c as int].payload {
                    Payload::ListenSocket { protocol } => listen_outcome_spec(
                        protocol,
                        leaf,
                        has_directory(oflags),
                        read,
                        write,
                        fdflags,
                        r,
                    ),
                    _ => r matches Ok(Outcome::Dir(h)) && h == c,
                }
            },
            None => {
                &&& post.nodes@.len() == pre.nodes@.len() + 1
                &&& post.nodes@[pre.nodes@.len() as int].payload == (Payload::ListenSocket {
                    protocol: default,
                })
                &&& (post.nodes@[pre.nodes@.len() as int].parent matches Some(p) && p as int == d)
                &&& post.nodes@[pre.nodes@.len() as int].id.device == pre.nodes@[d].id.device
                &&& spec_lookup(table_view(post.nodes@[d].entries@), leaf) == Some(
                    pre.nodes@.len() as usize,
                )
                &&& forall|i: int|
                    0 <= i < pre.nodes@.len() && i != d ==> post.nodes@[i] == pre.nodes@[i]
                &&& listen_outcome_spec(
                    default,
                    leaf,
                    has_directory(oflags),
                    read,
                    write,
                    fdflags,
                    r,
                )
            },
        }
    }
}

/// Leaf behavior of the connect directory: flag gate, `.`/`..` handling,
/// and for an address the policy-resolved connect.
pub open spec fn open_connect_dir_spec(
    pre: Fs,
    post: Fs,
    d: int,
    entries: Seq<(Seq<char>, ConnectFile)>,
    default: ConnectFile,
    leaf: Seq<char>,
    oflags: u16,
    write: bool,
    fdflags: u16,
    r: Result<Outcome, VfsError>,
) -> bool {
    &&& post == pre
    &&& if !oflags_valid(oflags) {
        r == Err::<Outcome, VfsError>(VfsError::InvalidArgument)
    } else if has_truncate(oflags) && !write {
        r == Err::<Outcome, VfsError>(VfsError::InvalidArgument)
    } else if leaf == "."@ && has_exclusive(oflags) {
        r == Err::<Outcome, VfsError>(VfsError::Exist)
    } else if leaf == "."@ && has_truncate(oflags) {
        r == Err::<Outcome, VfsError>(VfsError::Io)
    } else if leaf == "."@ || leaf.len() == 0 {
        r matches Ok(Outcome::Dir(h)) && h as int == d
    } else if leaf == ".."@ && has_exclusive(oflags) {
        r == Err::<Outcome, VfsError>(VfsError::Exist)
    } else if leaf == ".."@ && has_truncate(oflags) {
        r == Err::<Outcome, VfsError>(VfsError::Io)
    } else if leaf == ".."@ {
        r matches Ok(Outcome::Dir(h)) && h as int == crate::node::spec_parent_or_self(&pre, d)
    } else {
        match r {
            Ok(Outcome::Connect(a)) => connect_open_spec(entries, default, leaf, fdflags, Ok(a)),
            Err(e) => connect_open_spec(entries, default, leaf, fdflags, Err(e)),
            _ => false,
        }
    }
}

/// Leaf behavior of the peer directory: flag gate, `.`/`..` handling, and
/// the two one-shot record files.  Reading `lis` or `con` delivers the
/// oldest undelivered record exactly once, or reports that none is
/// available yet; any other name is not supported here.
pub open spec fn open_peer_dir_spec(
    pre: Fs,
    post: Fs,
    d: int,
    leaf: Seq<char>,
    oflags: u16,
    write: bool,
    fdflags: u16,
    r: Result<Outcome, VfsError>,
) -> bool {
    if !oflags_valid(oflags) {
        post == pre && r == Err::<Outcome, VfsError>(VfsError::InvalidArgument)
    } else if has_truncate(oflags) && !write {
        post == pre && r == Err::<Outcome, VfsError>(VfsError::InvalidArgument)
    } else if leaf == "."@ && has_exclusive(oflags) {
        post == pre && r == Err::<Outcome, VfsError>(VfsError::Exist)
    } else if leaf == "."@ && has_truncate(oflags) {
        post == pre && r == Err::<Outcome, VfsError>(VfsError::Io)
    } else if leaf == "."@ || leaf.len() == 0 {
        post == pre && (r matches Ok(Outcome::Dir(h)) && h as int == d)
    } else if leaf == ".."@ && has_exclusive(oflags) {
        post == pre && r == Err::<Outcome, VfsError>(VfsError::Exist)
    } else if leaf == ".."@ && has_truncate(oflags) {
        post == pre && r == Err::<Outcome, VfsError>(VfsError::Io)
    } else if leaf == ".."@ {
        post == pre && (r matches Ok(Outcome::Dir(h)) && h as int
            == crate::node::spec_parent_or_self(&pre, d))
    } else if leaf == "con"@ {
        peer_read_connect_spec(pre, post, d, r)
    } else if leaf == "lis"@ {
        peer_read_accept_spec(pre, post, d, r)
    } else {
        post == pre && r == Err::<Outcome, VfsError>(VfsError::NotSupported)
    }
}

/// Reading `con`: the oldest undelivered connect record leaves the queue
/// and is returned serialized; with no record the filesystem is unchanged
/// and the read is pending.
pub open spec fn peer_read_connect_spec(
    pre: Fs,
    post: Fs,
    d: int,
    r: Result<Outcome, VfsError>,
) -> bool {
    match pre.nodes@[d].payload {
        Payload::PeerDir { queues } => {
            if queues.connected@.len() == 0 {
                r == Ok::<Outcome, VfsError>(Outcome::PendingConnect) && peer_popped(
                    pre,
                    post,
                    d,
                    queues.accepted@,
                    queues.connected@,
                )
            } else {
                &&& r matches Ok(Outcome::ReadConnect(s)) && s@ == connect_json(
                    queues.connected@[0],
                )
                &&& peer_popped(pre, post, d, queues.accepted@, queues.connected@.drop_first())
            }
        },
        _ => false,
    }
}

/// Reading `lis`: the oldest undelivered accept record leaves the queue
/// and is returned serialized; with no record the filesystem is unchanged
/// and the read is pending.
pub open spec fn peer_read_accept_spec(
    pre: Fs,
    post: Fs,
    d: int,
    r: Result<Outcome, VfsError>,
) -> bool {
    match pre.nodes@[d].payload {
        Payload::PeerDir { queues } => {
            if queues.accepted@.len() == 0 {
                r == Ok::<Outcome, VfsError>(Outcome::PendingAccept) && peer_popped(
                    pre,
                    post,
                    d,
                    queues.accepted@,
                    queues.connected@,
                )
            } else {
                &&& r matches Ok(Outcome::ReadAccept(s)) && s@ == accept_json(queues.accepted@[0])
                &&& peer_popped(pre, post, d, queues.accepted@.drop_first(), queues.connected@)
            }
        },
        _ => false,
    }
}

/// A mutation-bearing directory operation that synthetic nodes refuse.
#[derive(Clone, Copy, Debug, PartialEq, Eq, Structural)]
pub enum DirOp {
    /// Create a directory.
    CreateDir,
    /// Remove a directory.
    RemoveDir,
    /// Unlink a file.
    UnlinkFile,
    /// Create a symbolic link (resolution runs over the new path).
    Symlink,
    /// Rename an entry.
    Rename,
    /// Create a hard link.
    HardLink,
    /// Read a symbolic link.
    ReadLink,
    /// Enumerate the directory.
    Readdir,
}

/// Whether refusing the operation distinguishes the `.`/`..`/empty leaf
/// (invalid argument) from a named one (not supported).
pub open spec fn dir_op_checks_leaf(op: DirOp) -> bool {
    op is CreateDir || op is RemoveDir || op is UnlinkFile
}

/// Refuses a mutation-bearing operation on the synthetic directories,
/// exactly as the open-handle methods do: the path still resolves (so a
/// bad path reports its own error); creation and removal of `.`, `..` or
/// the empty name are invalid arguments; everything else is simply not
/// supported on a synthetic node.
pub fn unsupported_dir_op(fs: &Fs, at: usize, path: &str, op: DirOp) -> (r: Result<(), VfsError>)
    requires
        fs.wf(),
        at < fs.len(),
    ensures
        r is Err,
        match spec_resolve_path(fs.nodes@, at as int, path@) {
            Err(e) => r == Err::<(), VfsError>(e),
            Ok((d, leaf)) => {
                if dir_op_checks_leaf(op) && (leaf.len() == 0 || leaf == "."@ || leaf == ".."@) {
                    r == Err::<(), VfsError>(VfsError::InvalidArgument)
                } else {
                    r == Err::<(), VfsError>(VfsError::NotSupported)
                }
            },
        },
{
    let (_d, leaf) = match resolve_path(fs, at, path) {
        Ok(p) => p,
        Err(e) => {
            return Err(e);
        },
    };
    let checks = match op {
        DirOp::CreateDir | DirOp::RemoveDir | DirOp::UnlinkFile => true,
        _ => false,
    };
    if checks && (leaf.unicode_len() == 0 || str_eq(leaf, ".") || str_eq(leaf, "..")) {
        Err(VfsError::InvalidArgument)
    } else {
        Err(VfsError::NotSupported)
    }
}

impl Fs {
    /// Sets timestamps through a path, as the open-handle `set_times`
    /// does: `.` and the empty name set the directory's own times, `..`
    /// its parent's; a named child is not supported here.
    pub fn set_times_at(
        &mut self,
        at: usize,
        path: &str,
        atim: Option<u64>,
        mtim: Option<u64>,
    ) -> (r: Result<(), VfsError>)
        requires
            old(self).wf(),
            at < old(self).len(),
        ensures
            final(self).wf(),
            final(self).len() == old(self).len(),
            match spec_resolve_path(old(self).nodes@, at as int, path@) {
                Err(e) => r == Err::<(), VfsError>(e) && *final(self) == *old(self),
                Ok((d, leaf)) => {
                    if leaf.len() == 0 || leaf == "."@ {
                        r is Ok && times_set(*old(self), *final(self), d, atim, mtim)
                    } else if leaf == ".."@ {
                        r is Ok && times_set(
                            *old(self),
                            *final(self),
                            crate::node::spec_parent_or_self(&*old(self), d),
                            atim,
                            mtim,
                        )
                    } else {
                        r == Err::<(), VfsError>(VfsError::NotSupported) && *final(self) == *old(
                            self,
                        )
                    }
                },
            },
    {
        let (d, leaf) = match resolve_path(self, at, path) {
            Ok(p) => p,
            Err(e) => {
                return Err(e);
            },
        };
        if leaf.unicode_len() == 0 || str_eq(leaf, ".") {
            self.set_times(d, atim, mtim);
            Ok(())
        } else if str_eq(leaf, "..") {
            let p = self.parent_or_self(d);
            self.set_times(p, atim, mtim);
            Ok(())
        } else {
            Err(VfsError::NotSupported)
        }
    }

    /// Reports attributes through a path, as `get_path_filestat` does:
    /// `.` and the empty name report the directory's own, `..` its
    /// parent's; a named child is not supported here.
    pub fn filestat_at(&self, at: usize, path: &str) -> (r: Result<
        crate::node::Filestat,
        VfsError,
    >)
        requires
            self.wf(),
            at < self.len(),
        ensures
            match spec_resolve_path(self.nodes@, at as int, path@) {
                Err(e) => r == Err::<crate::node::Filestat, VfsError>(e),
                Ok((d, leaf)) => {
                    if leaf.len() == 0 || leaf == "."@ {
                        r matches Ok(st) && st.inode == self.nodes@[d].id.inode && st.device_id
                            == self.nodes@[d].id.device
                    } else if leaf == ".."@ {
                        r matches Ok(st) && st.inode == self.nodes@[crate::node::spec_parent_or_self(
                            self,
                            d,
                        )].id.inode && st.device_id == self.nodes@[crate::node::spec_parent_or_self(
                            self,
                            d,
                        )].id.device
                    } else {
                        r == Err::<crate::node::Filestat, VfsError>(VfsError::NotSupported)
                    }
                },
            },
    {
        let (d, leaf) = match resolve_path(self, at, path) {
            Ok(p) => p,
            Err(e) => {
                return Err(e);
            },
        };
        if leaf.unicode_len() == 0 || str_eq(leaf, ".") {
            Ok(self.filestat(d))
        } else if str_eq(leaf, "..") {
            let p = self.parent_or_self(d);
            Ok(self.filestat(p))
        } else {
            Err(VfsError::NotSupported)
        }
    }
}

/// The filesystem after a timestamp update of node `n`: only that node's
/// access and modification times moved, as requested.
pub open spec fn times_set(pre: Fs, post: Fs, n: int, atim: Option<u64>, mtim: Option<u64>) -> bool {
    &&& post.nodes@.len() == pre.nodes@.len()
    &&& forall|i: int| 0 <= i < pre.nodes@.len() && i != n ==> post.nodes@[i] == pre.nodes@[i]
    &&& post.nodes@[n].atim == match atim {
        Some(t) => t,
        None => pre.nodes@[n].atim,
    }
    &&& post.nodes@[n].mtim == match mtim {
        Some(t) => t,
        None => pre.nodes@[n].mtim,
    }
    &&& post.nodes@[n].ctim == pre.nodes@[n].ctim
    &&& post.nodes@[n].id == pre.nodes@[n].id
    &&& post.nodes@[n].entries@ == pre.nodes@[n].entries@
    &&& post.nodes@[n].payload == pre.nodes@[n].payload
}

/// Resolving `.` from any directory yields the directory itself, so
/// reading `.` of an open directory returns an identity equal to the
/// directory's own.
pub proof fn lemma_dot_identity(fs: &Fs, at: int)
    requires
        fs.wf(),
        0 <= at < fs.len(),
    ensures
        spec_step(fs.nodes@, at, "."@) == Ok::<int, VfsError>(at),
{
    reveal_strlit(".");
}

/// Resolving `..` at the root yields the root itself: the root has no
/// parent and treats `..` as a no-op, so reading `..` from the root
/// returns the root's own identity.
pub proof fn lemma_root_dotdot_identity(fs: &Fs)
    requires
        fs.wf(),
    ensures
        spec_step(fs.nodes@, 0, ".."@) == Ok::<int, VfsError>(0),
{
    reveal_strlit(".");
    reveal_strlit("..");
    assert("."@.len() == 1 && ".."@.len() == 2);
    assert(crate::node::node_wf(&fs.nodes@[0], 0, fs.nodes@.len() as int));
}

/// A socket entry declared TCP never asks for a TLS handshake, and one
/// declared TLS always does: any successful open of a statically
/// declared listen entry carries the TLS bit exactly when the entry's
/// protocol is TLS.
pub proof fn lemma_declared_protocol_decides_tls(
    pre: Fs,
    post: Fs,
    d: int,
    default: ListenFile,
    leaf: Seq<char>,
    oflags: u16,
    read: bool,
    write: bool,
    fdflags: u16,
    r: Result<Outcome, VfsError>,
    c: usize,
    protocol: ListenFile,
)
    requires
        open_listen_dir_spec(pre, post, d, default, leaf, oflags, read, write, fdflags, r),
        spec_lookup(table_view(pre.nodes@[d].entries@), leaf) == Some(c),
        pre.nodes@[c as int].payload == (Payload::ListenSocket { protocol }),
    ensures
        match r {
            Ok(Outcome::Listen(a)) => a.tls <==> protocol is Tls,
            _ => true,
        },
{
}

/// A connect open never touches the filesystem: whatever the outcome,
/// the node graph after the open equals the one before, so nothing — in
/// particular no socket — can be carried from one open to the next.
/// Each open performs exactly its own single connect.
pub proof fn lemma_connect_open_leaves_fs_unchanged(
    pre: Fs,
    post: Fs,
    d: int,
    entries: Seq<(Seq<char>, ConnectFile)>,
    default: ConnectFile,
    leaf: Seq<char>,
    oflags: u16,
    write: bool,
    fdflags: u16,
    r: Result<Outcome, VfsError>,
)
    requires
        open_connect_dir_spec(pre, post, d, entries, default, leaf, oflags, write, fdflags, r),
    ensures
        post == pre,
{
}

/// A connect open is a function of the address, the policy and the flags
/// alone: any two results admitted by its contract agree.  No state can
/// flow from one open to the next, so each open performs exactly its own
/// single connect.
pub proof fn lemma_connect_open_deterministic(
    entries: Seq<(Seq<char>, ConnectFile)>,
    default: ConnectFile,
    addr: Seq<char>,
    fdflags: u16,
    r1: Result<ConnectAction, VfsError>,
    r2: Result<ConnectAction, VfsError>,
)
    requires
        connect_open_spec(entries, default, addr, fdflags, r1),
        connect_open_spec(entries, default, addr, fdflags, r2),
    ensures
        r1 is Ok <==> r2 is Ok,
        r1 is Err ==> r2 is Err && r1.unwrap_err() == r2.unwrap_err(),
        (r1 is Ok && r2 is Ok) ==> {
            &&& r1.unwrap().port == r2.unwrap().port
            &&& r1.unwrap().nonblocking == r2.unwrap().nonblocking
            &&& r1.unwrap().tls == r2.unwrap().tls
            &&& r1.unwrap().server_name@ == r2.unwrap().server_name@
        },
{
}

/// A listening-socket open is a function of the node's protocol, the path
/// and the flags alone: any two results admitted by its contract agree.
pub proof fn lemma_listen_open_deterministic(
    protocol: ListenFile,
    path: Seq<char>,
    dirflag: bool,
    read: bool,
    write: bool,
    fdflags: u16,
    r1: Result<ListenAction, VfsError>,
    r2: Result<ListenAction, VfsError>,
)
    requires
        listen_open_spec(protocol, path, dirflag, read, write, fdflags, r1),
        listen_open_spec(protocol, path, dirflag, read, write, fdflags, r2),
    ensures
        r1 is Ok <==> r2 is Ok,
        r1 is Err ==> r2 is Err && r1.unwrap_err() == r2.unwrap_err(),
        (r1 is Ok && r2 is Ok) ==> {
            &&& r1.unwrap().addr.port == r2.unwrap().addr.port
            &&& r1.unwrap().nonblocking == r2.unwrap().nonblocking
            &&& r1.unwrap().tls == r2.unwrap().tls
        },
{
}

/// What a leaf dispatch decided before any mutation takes place.
enum LeafStep {
    /// The open is already decided.
    Done(Result<Outcome, VfsError>),
    /// Mint a socket node with this protocol under the leaf name, then
    /// open it.
    MintListen(ListenFile),
    /// Serve the next connect record.
    ReadCon,
    /// Serve the next accept record.
    ReadLis,
}

/// Executable test of [`oflags_valid`].
fn oflags_valid_ex(o: u16) -> (b: bool)
    ensures
        b == oflags_valid(o),
{
    o == 0 || o == OFLAG_CREATE || o == OFLAG_DIRECTORY || o == OFLAG_TRUNCATE || o == OFLAG_CREATE
        + OFLAG_DIRECTORY || o == OFLAG_CREATE + OFLAG_EXCLUSIVE || o == OFLAG_CREATE
        + OFLAG_TRUNCATE || o == OFLAG_CREATE + OFLAG_DIRECTORY + OFLAG_EXCLUSIVE
}

/// Executable test of [`has_truncate`].
fn has_truncate_ex(o: u16) -> (b: bool)
    ensures
        b == has_truncate(o),
{
    o == OFLAG_TRUNCATE || o == OFLAG_CREATE + OFLAG_TRUNCATE
}

/// Executable test of [`has_directory`].
fn has_directory_ex(o: u16) -> (b: bool)
    ensures
        b == has_directory(o),
{
    o == OFLAG_DIRECTORY || o == OFLAG_CREATE + OFLAG_DIRECTORY || o == OFLAG_CREATE
        + OFLAG_DIRECTORY + OFLAG_EXCLUSIVE
}

/// Executable test of [`has_exclusive`].
fn has_exclusive_ex(o: u16) -> (b: bool)
    ensures
        b == has_exclusive(o),
{
    o == OFLAG_CREATE + OFLAG_EXCLUSIVE || o == OFLAG_CREATE + OFLAG_DIRECTORY + OFLAG_EXCLUSIVE
}

impl Fs {
    /// Opens `path` relative to the directory `at`: resolves every
    /// segment before the last, then dispatches the last on the resolved
    /// directory's payload.  The one filesystem mutation a successful
    /// socket open can make is minting a missing listen node; the one a
    /// peer read makes is consuming the delivered record.
    pub fn open_file_at(
        &mut self,
        at: usize,
        path: &str,
        oflags: u16,
        read: bool,
        write: bool,
        fdflags: u16,
    ) -> (r: Result<Outcome, VfsError>)
        requires
            old(self).wf(),
            at < old(self).len(),
            old(self).len() < u64::MAX,
        ensures
            final(self).wf(),
            ({
                let rp = spec_resolve_path(old(self).nodes@, at as int, path@);
                match rp {
                    Err(e) => r == Err::<Outcome, VfsError>(e) && *final(self) == *old(self),
                    Ok((d, leaf)) => match old(self).nodes@[d].payload {
                        Payload::Dir => open_plain_dir_spec(*old(self), *final(self), d, leaf, r),
                        Payload::ListenDir { default } => open_listen_dir_spec(
                            *old(self),
                            *final(self),
                            d,
                            default,
                            leaf,
                            oflags,
                            read,
                            write,
                            fdflags,
                            r,
                        ),
                        Payload::ConnectDir { entries, default } => open_connect_dir_spec(
                            *old(self),
                            *final(self),
                            d,
                            table_view(entries@),
                            default,
                            leaf,
                            oflags,
                            write,
                            fdflags,
                            r,
                        ),
                        Payload::PeerDir { .. } => open_peer_dir_spec(
                            *old(self),
                            *final(self),
                            d,
                            leaf,
                            oflags,
                            write,
                            fdflags,
                            r,
                        ),
                        Payload::ListenSocket { .. } => r == Err::<Outcome, VfsError>(
                            VfsError::NotDir,
                        ) && *final(self) == *old(self),
                    },
                }
            }),
    {
        let (d, leaf) = match resolve_path(self, at, path) {
            Ok(p) => p,
            Err(e) => {
                return Err(e);
            },
        };
        let todo: LeafStep = match &self.nodes[d].payload {
            Payload::ListenSocket { .. } => LeafStep::Done(Err(VfsError::NotDir)),
            Payload::Dir => {
                if str_eq(leaf, ".") || leaf.unicode_len() == 0 {
                    LeafStep::Done(Ok(Outcome::Dir(d)))
                } else if str_eq(leaf, "..") {
                    LeafStep::Done(Ok(Outcome::Dir(self.parent_or_self(d))))
                } else {
                    match self.lookup(d, leaf) {
                        Some(c) => LeafStep::Done(Ok(Outcome::Dir(c))),
                        None => LeafStep::Done(Err(VfsError::NotFound)),
                    }
                }
            },
            Payload::ListenDir { default } => {
                if str_eq(leaf, ".") || leaf.unicode_len() == 0 {
                    LeafStep::Done(Ok(Outcome::Dir(d)))
                } else if str_eq(leaf, "..") {
                    LeafStep::Done(Ok(Outcome::Dir(self.parent_or_self(d))))
                } else {
                    match self.lookup(d, leaf) {
                        Some(c) => match &self.nodes[c].payload {
                            Payload::ListenSocket { protocol } => {
                                let opened = open_listen_socket(
                                    *protocol,
                                    leaf,
                                    has_directory_ex(oflags),
                                    read,
                                    write,
                                    fdflags,
                                );
                                match opened {
                                    Ok(a) => LeafStep::Done(Ok(Outcome::Listen(a))),
                                    Err(e) => LeafStep::Done(Err(e)),
                                }
                            },
                            _ => LeafStep::Done(Ok(Outcome::Dir(c))),
                        },
                        None => LeafStep::MintListen(*default),
                    }
                }
            },
            Payload::ConnectDir { entries, default } => {
                if !oflags_valid_ex(oflags) {
                    LeafStep::Done(Err(VfsError::InvalidArgument))
                } else if has_truncate_ex(oflags) && !write {
                    LeafStep::Done(Err(VfsError::InvalidArgument))
                } else if str_eq(leaf, ".") && has_exclusive_ex(oflags) {
                    LeafStep::Done(Err(VfsError::Exist))
                } else if str_eq(leaf, ".") && has_truncate_ex(oflags) {
                    LeafStep::Done(Err(VfsError::Io))
                } else if str_eq(leaf, ".") || leaf.unicode_len() == 0 {
                    LeafStep::Done(Ok(Outcome::Dir(d)))
                } else if str_eq(leaf, "..") && has_exclusive_ex(oflags) {
                    LeafStep::Done(Err(VfsError::Exist))
                } else if str_eq(leaf, "..") && has_truncate_ex(oflags) {
                    LeafStep::Done(Err(VfsError::Io))
                } else if str_eq(leaf, "..") {
                    LeafStep::Done(Ok(Outcome::Dir(self.parent_or_self(d))))
                } else {
                    match open_connect_socket(entries, *default, leaf, fdflags) {
                        Ok(a) => LeafStep::Done(Ok(Outcome::Connect(a))),
                        Err(e) => LeafStep::Done(Err(e)),
                    }
                }
            },
            Payload::PeerDir { .. } => {
                if !oflags_valid_ex(oflags) {
                    LeafStep::Done(Err(VfsError::InvalidArgument))
                } else if has_truncate_ex(oflags) && !write {
                    LeafStep::Done(Err(VfsError::InvalidArgument))
                } else if str_eq(leaf, ".") && has_exclusive_ex(oflags) {
                    LeafStep::Done(Err(VfsError::Exist))
                } else if str_eq(leaf, ".") && has_truncate_ex(oflags) {
                    LeafStep::Done(Err(VfsError::Io))
                } else if str_eq(leaf, ".") || leaf.unicode_len() == 0 {
                    LeafStep::Done(Ok(Outcome::Dir(d)))
                } else if str_eq(leaf, "..") && has_exclusive_ex(oflags) {
                    LeafStep::Done(Err(VfsError::Exist))
                } else if str_eq(leaf, "..") && has_truncate_ex(oflags) {
                    LeafStep::Done(Err(VfsError::Io))
                } else if str_eq(leaf, "..") {
                    LeafStep::Done(Ok(Outcome::Dir(self.parent_or_self(d))))
                } else if str_eq(leaf, "con") {
                    LeafStep::ReadCon
                } else if str_eq(leaf, "lis") {
                    LeafStep::ReadLis
                } else {
                    LeafStep::Done(Err(VfsError::NotSupported))
                }
            },
        };
        match todo {
            LeafStep::Done(r) => r,
            LeafStep::MintListen(default) => {
                let s = self.add_listen_socket(d, default);
                let ghost mid = *self;
                match self.attach(d, leaf, s) {
                    Ok(()) => (),
                    Err(_) => {
                        return Err(VfsError::Io);
                    },
                }
                proof {
                    let pre = *old(self);
                    let post = *self;
                    let t_pre = table_view(pre.nodes@[d as int].entries@);
                    let t_mid = table_view(mid.nodes@[d as int].entries@);
                    assert(t_mid == t_pre);
                    crate::policy::lemma_lookup_push(t_mid, leaf@, s);
                    let t_post = table_view(post.nodes@[d as int].entries@);
                    assert(t_post =~= t_mid.push((leaf@, s)));
                }
                let opened = open_listen_socket(
                    default,
                    leaf,
                    has_directory_ex(oflags),
                    read,
                    write,
                    fdflags,
                );
                match opened {
                    Ok(a) => Ok(Outcome::Listen(a)),
                    Err(e) => Err(e),
                }
            },
            LeafStep::ReadCon => {
                let mut node = self.nodes.remove(d);
                let r = match &mut node.payload {
                    Payload::PeerDir { queues } => {
                        match queues.take_connect() {
                            Some(m) => Ok(Outcome::ReadConnect(encode_connect(&m))),
                            None => Ok(Outcome::PendingConnect),
                        }
                    },
                    _ => Err(VfsError::Io),
                };
                self.nodes.insert(d, node);
                proof {
                    assert(self.nodes@ =~= old(self).nodes@.update(d as int, self.nodes@[d as int]));
                    let len = self.nodes@.len() as int;
                    assert forall|i: int| 0 <= i < len implies crate::node::node_wf(
                        &(#[trigger] self.nodes@[i]),
                        i,
                        len,
                    ) by {
                        assert(crate::node::node_wf(&old(self).nodes@[i], i, len));
                    }
                }
                r
            },
            LeafStep::ReadLis => {
                let mut node = self.nodes.remove(d);
                let r = match &mut node.payload {
                    Payload::PeerDir { queues } => {
                        match queues.take_accept() {
                            Some(m) => Ok(Outcome::ReadAccept(encode_accept(&m))),
                            None => Ok(Outcome::PendingAccept),
                        }
                    },
                    _ => Err(VfsError::Io),
                };
                self.nodes.insert(d, node);
                proof {
                    assert(self.nodes@ =~= old(self).nodes@.update(d as int, self.nodes@[d as int]));
                    let len = self.nodes@.len() as int;
                    assert forall|i: int| 0 <= i < len implies crate::node::node_wf(
                        &(#[trigger] self.nodes@[i]),
                        i,
                        len,
                    ) by {
                        assert(crate::node::node_wf(&old(self).nodes@[i], i, len));
                    }
                }
                r
            },
        }
    }
}

/// The filesystem after a peer-directory read: only the peer directory's
/// queues changed, to the given contents.
pub open spec fn peer_popped(
    pre: Fs,
    post: Fs,
    d: int,
    accepted: Seq<crate::net::AcceptMetadata>,
    connected: Seq<crate::net::ConnectMetadata>,
) -> bool {
    &&& post.nodes@.len() == pre.nodes@.len()
    &&& forall|i: int| 0 <= i < pre.nodes@.len() && i != d ==> post.nodes@[i] == pre.nodes@[i]
    &&& post.nodes@[d].id == pre.nodes@[d].id
    &&& post.nodes@[d].parent == pre.nodes@[d].parent
    &&& post.nodes@[d].entries@ == pre.nodes@[d].entries@
    &&& post.nodes@[d].payload matches Payload::PeerDir { queues } && queues.accepted@ == accepted
        && queues.connected@ == connected
}

} // verus!
