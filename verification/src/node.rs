//! The node graph: a generic hierarchical filesystem abstraction.
//!
//! Nodes live in an arena indexed by inode number; a node's upward
//! reference is the parent's index and is non-owning, so no reference
//! cycles can arise.  Only a directory's entry table reaches a node
//! downward.  Each node belongs to a device; inode numbers are unique
//! within a device for the node's lifetime.

use crate::config::{ConnectFile, ListenFile};
use crate::error::VfsError;
use crate::net::PeerQueues;
use crate::policy::{spec_lookup, table_view, unique_keys};
use crate::strutil::str_eq;
use vstd::prelude::*;

verus! {

/// Identity of a node: owning device and inode number within it.
#[derive(Clone, Copy, Debug, PartialEq, Eq, Structural)]
pub struct InodeId {
    /// The device the node belongs to.
    pub device: u64,
    /// Inode number, unique within the device.
    pub inode: u64,
}

/// File type of a node.
#[derive(Clone, Copy, Debug, PartialEq, Eq, Structural)]
pub enum FileKind {
    /// A directory.
    Directory,
    /// A stream socket.
    SocketStream,
}

/// Type-specific payload of a node.
#[derive(Debug)]
pub enum Payload {
    /// A plain directory: an attachment point for other branches.
    Dir,
    /// The listen directory: statically declared socket children, plus a
    /// factory that mints a socket with the default protocol for any
    /// other name opened.
    ListenDir {
        /// Protocol of dynamically minted listen sockets.
        default: ListenFile,
    },
    /// A listening socket: each open binds a fresh socket.
    ListenSocket {
        /// Protocol the socket speaks once bound.
        protocol: ListenFile,
    },
    /// The connect directory: resolves addresses against its policy and
    /// connects a fresh socket on every open.
    ConnectDir {
        /// Exact-match address table.
        entries: Vec<(String, ConnectFile)>,
        /// Default protocol for addresses without an exact match.
        default: ConnectFile,
    },
    /// The peer metadata directory with its event queues.
    PeerDir {
        /// Undelivered accept/connect records.
        queues: PeerQueues,
    },
}

impl Payload {
    /// Whether this payload is a directory payload.
    pub open spec fn is_dir(&self) -> bool {
        match self {
            Payload::Dir => true,
            Payload::ListenDir { .. } => true,
            Payload::ConnectDir { .. } => true,
            Payload::PeerDir { .. } => true,
            Payload::ListenSocket { .. } => false,
        }
    }

    /// The file kind this payload exposes.
    pub open spec fn kind(&self) -> FileKind {
        if self.is_dir() {
            FileKind::Directory
        } else {
            FileKind::SocketStream
        }
    }
}

/// A filesystem node: identity, non-owning parent, entry table, payload
/// and timestamps.
#[derive(Debug)]
pub struct Node {
    /// Identity of this node.
    pub id: InodeId,
    /// Index of the parent; `None` only at the root.
    pub parent: Option<usize>,
    /// Directory entries: name to node index.
    pub entries: Vec<(String, usize)>,
    /// Type-specific payload.
    pub payload: Payload,
    /// Access time, nanoseconds.
    pub atim: u64,
    /// Modification time, nanoseconds.
    pub mtim: u64,
    /// Creation time, nanoseconds.
    pub ctim: u64,
}

/// Attributes reported for a node.
#[derive(Clone, Copy, Debug, PartialEq, Eq, Structural)]
pub struct Filestat {
    /// Owning device.
    pub device_id: u64,
    /// Inode number.
    pub inode: u64,
    /// File type.
    pub filetype: FileKind,
    /// Synthetic nodes report no size.
    pub size: u64,
    /// Access time, nanoseconds.
    pub atim: u64,
    /// Modification time, nanoseconds.
    pub mtim: u64,
    /// Creation time, nanoseconds.
    pub ctim: u64,
}

/// Well-formedness of one node at index `i` of an arena of length `len`.
pub open spec fn node_wf(n: &Node, i: int, len: int) -> bool {
    &&& n.id.inode == i
    &&& match n.parent {
        Some(p) => p < i,
        None => i == 0,
    }
    &&& forall|j: int| 0 <= j < n.entries@.len() ==> (#[trigger] n.entries@[j]).1 < len
    &&& unique_keys(table_view(n.entries@))
    &&& (n.payload.is_dir() || n.entries@.len() == 0)
}

/// The node arena.
#[derive(Debug)]
pub struct Fs {
    /// All nodes, indexed by inode number.
    pub nodes: Vec<Node>,
    /// Next fresh device identifier.
    pub next_device: u64,
}

impl Fs {
    /// Arena well-formedness: indices are inode numbers, parents stand
    /// strictly before their children (so the graph is acyclic), entries
    /// point into the arena under unique names, and only directories
    /// carry entries.
    pub open spec fn wf(&self) -> bool {
        &&& 0 < self.nodes@.len()
        &&& self.nodes@.len() <= u64::MAX
        &&& self.next_device <= self.nodes@.len()
        &&& forall|i: int|
            0 <= i < self.nodes@.len() ==> node_wf(&(#[trigger] self.nodes@[i]), i, self.nodes@.len() as int)
    }

    /// Number of nodes.
    pub open spec fn len(&self) -> int {
        self.nodes@.len() as int
    }

    /// A fresh filesystem holding only the root directory, device 0.
    pub fn new() -> (r: Fs)
        ensures
            r.wf(),
            r.len() == 1,
            r.nodes@[0].parent is None,
            r.nodes@[0].payload is Dir,
            r.nodes@[0].entries@.len() == 0,
            r.nodes@[0].id == (InodeId { device: 0, inode: 0 }),
    {
        let root = Node {
            id: InodeId { device: 0, inode: 0 },
            parent: None,
            entries: Vec::new(),
            payload: Payload::Dir,
            atim: 0,
            mtim: 0,
            ctim: 0,
        };
        let mut nodes = Vec::new();
        nodes.push(root);
        Fs { nodes, next_device: 1 }
    }

    /// Appends a node under `parent`, allocated in the parent's device, or
    /// in a fresh device of its own when `new_device` is set.
    fn add_node(&mut self, parent: usize, payload: Payload, new_device: bool) -> (r: usize)
        requires
            old(self).wf(),
            parent < old(self).len(),
            old(self).len() < u64::MAX,
        ensures
            final(self).wf(),
            r == old(self).len(),
            final(self).len() == old(self).len() + 1,
            forall|i: int| 0 <= i < old(self).len() ==> final(self).nodes@[i] == old(self).nodes@[i],
            final(self).nodes@[r as int].parent == Some(parent),
            final(self).nodes@[r as int].payload == payload,
            final(self).nodes@[r as int].entries@.len() == 0,
            final(self).nodes@[r as int].id.inode == r as u64,
            !new_device ==> final(self).nodes@[r as int].id.device == old(self).nodes@[
                parent as int
            ].id.device,
    {
        let idx = self.nodes.len();
        let device = if new_device {
            let d = self.next_device;
            self.next_device = self.next_device + 1;
            d
        } else {
            self.nodes[parent].id.device
        };
        let node = Node {
            id: InodeId { device, inode: idx as u64 },
            parent: Some(parent),
            entries: Vec::new(),
            payload,
            atim: 0,
            mtim: 0,
            ctim: 0,
        };
        self.nodes.push(node);
        proof {
            assert forall|i: int| 0 <= i < self.nodes@.len() implies node_wf(
                &(#[trigger] self.nodes@[i]),
                i,
                self.nodes@.len() as int,
            ) by {
                if i < idx {
                    assert(node_wf(&old(self).nodes@[i], i, old(self).nodes@.len() as int));
                }
            }
        }
        idx
    }

    /// Appends a plain directory under `parent`.
    pub fn add_dir(&mut self, parent: usize) -> (r: usize)
        requires
            old(self).wf(),
            parent < old(self).len(),
            old(self).len() < u64::MAX,
            old(self).nodes@[parent as int].payload.is_dir(),
        ensures
            final(self).wf(),
            r == old(self).len(),
            final(self).len() == old(self).len() + 1,
            forall|i: int| 0 <= i < old(self).len() ==> final(self).nodes@[i] == old(self).nodes@[i],
            final(self).nodes@[r as int].parent == Some(parent),
            final(self).nodes@[r as int].payload is Dir,
            final(self).nodes@[r as int].entries@.len() == 0,
    {
        self.add_node(parent, Payload::Dir, false)
    }

    /// Appends the listen directory under `parent`; it owns a fresh device.
    pub fn add_listen_dir(&mut self, parent: usize, default: ListenFile) -> (r: usize)
        requires
            old(self).wf(),
            parent < old(self).len(),
            old(self).len() < u64::MAX,
            old(self).nodes@[parent as int].payload.is_dir(),
        ensures
            final(self).wf(),
            r == old(self).len(),
            final(self).len() == old(self).len() + 1,
            forall|i: int| 0 <= i < old(self).len() ==> final(self).nodes@[i] == old(self).nodes@[i],
            final(self).nodes@[r as int].parent == Some(parent),
            final(self).nodes@[r as int].payload == (Payload::ListenDir { default }),
            final(self).nodes@[r as int].entries@.len() == 0,
    {
        self.add_node(parent, Payload::ListenDir { default }, true)
    }

    /// Appends a listening socket node under `parent` (the listen
    /// directory), in the parent's device.
    pub fn add_listen_socket(&mut self, parent: usize, protocol: ListenFile) -> (r: usize)
        requires
            old(self).wf(),
            parent < old(self).len(),
            old(self).len() < u64::MAX,
            old(self).nodes@[parent as int].payload.is_dir(),
        ensures
            final(self).wf(),
            r == old(self).len(),
            final(self).len() == old(self).len() + 1,
            forall|i: int| 0 <= i < old(self).len() ==> final(self).nodes@[i] == old(self).nodes@[i],
            final(self).nodes@[r as int].parent == Some(parent),
            final(self).nodes@[r as int].payload == (Payload::ListenSocket { protocol }),
            final(self).nodes@[r as int].id.device == old(self).nodes@[parent as int].id.device,
    {
        self.add_node(parent, Payload::ListenSocket { protocol }, false)
    }

    /// Appends the connect directory with its policy under `parent`.
    pub fn add_connect_dir(
        &mut self,
        parent: usize,
        entries: Vec<(String, ConnectFile)>,
        default: ConnectFile,
    ) -> (r: usize)
        requires
            old(self).wf(),
            parent < old(self).len(),
            old(self).len() < u64::MAX,
            old(self).nodes@[parent as int].payload.is_dir(),
        ensures
            final(self).wf(),
            r == old(self).len(),
            final(self).len() == old(self).len() + 1,
            forall|i: int| 0 <= i < old(self).len() ==> final(self).nodes@[i] == old(self).nodes@[i],
            final(self).nodes@[r as int].parent == Some(parent),
            final(self).nodes@[r as int].payload == (Payload::ConnectDir { entries, default }),
            final(self).nodes@[r as int].entries@.len() == 0,
    {
        self.add_node(parent, Payload::ConnectDir { entries, default }, false)
    }

    /// Appends the peer metadata directory with its queues under `parent`.
    pub fn add_peer_dir(&mut self, parent: usize, queues: PeerQueues) -> (r: usize)
        requires
            old(self).wf(),
            parent < old(self).len(),
            old(self).len() < u64::MAX,
            old(self).nodes@[parent as int].payload.is_dir(),
        ensures
            final(self).wf(),
            r == old(self).len(),
            final(self).len() == old(self).len() + 1,
            forall|i: int| 0 <= i < old(self).len() ==> final(self).nodes@[i] == old(self).nodes@[i],
            final(self).nodes@[r as int].parent == Some(parent),
            final(self).nodes@[r as int].payload matches Payload::PeerDir { queues: q } && q
                == queues,
            final(self).nodes@[r as int].entries@.len() == 0,
    {
        self.add_node(parent, Payload::PeerDir { queues }, false)
    }

    /// Adds the entry `name -> child` to directory `dir`.  A directory
    /// strongly owns its attached children; duplicate names are refused.
    pub fn attach(&mut self, dir: usize, name: &str, child: usize) -> (r: Result<(), VfsError>)
        requires
            old(self).wf(),
            dir < old(self).len(),
            child < old(self).len(),
            old(self).nodes@[dir as int].payload.is_dir(),
        ensures
            final(self).wf(),
            final(self).len() == old(self).len(),
            match r {
                Ok(()) => {
                    &&& spec_lookup(table_view(old(self).nodes@[dir as int].entries@), name@)
                        is None
                    &&& forall|i: int|
                        0 <= i < old(self).len() && i != dir ==> final(self).nodes@[i]
                            == old(self).nodes@[i]
                    &&& final(self).nodes@[dir as int].entries@.len() == old(self).nodes@[
                        dir as int
                    ].entries@.len() + 1
                    &&& final(self).nodes@[dir as int].entries@.last().0@ == name@
                    &&& final(self).nodes@[dir as int].entries@.last().1 == child
                    &&& forall|j: int|
                        0 <= j < old(self).nodes@[dir as int].entries@.len()
                            ==> final(self).nodes@[dir as int].entries@[j]
                            == old(self).nodes@[dir as int].entries@[j]
                    &&& final(self).nodes@[dir as int].id == old(self).nodes@[dir as int].id
                    &&& final(self).nodes@[dir as int].parent == old(self).nodes@[dir as int].parent
                    &&& final(self).nodes@[dir as int].payload == old(self).nodes@[
                        dir as int
                    ].payload
                },
                Err(e) => e is Exist && *final(self) == *old(self) && spec_lookup(
                    table_view(old(self).nodes@[dir as int].entries@),
                    name@,
                ) is Some,
            },
    {
        let present = crate::policy::lookup(&self.nodes[dir].entries, name);
        if present.is_some() {
            return Err(VfsError::Exist);
        }
        let owned = String::from_str(name);
        let mut node = self.nodes.remove(dir);
        node.entries.push((owned, child));
        self.nodes.insert(dir, node);
        proof {
            let dirn = dir as int;
            let len = self.nodes@.len() as int;
            assert(self.nodes@ =~= old(self).nodes@.update(dirn, self.nodes@[dirn]));
            let newe = self.nodes@[dirn].entries@;
            let olde = old(self).nodes@[dirn].entries@;
            assert(newe == olde.push((newe.last().0, child)));
            assert(table_view(newe).len() == newe.len());
            assert forall|x: int| 0 <= x < olde.len() implies (#[trigger] table_view(newe)[x])
                == table_view(olde)[x] by {
                assert(newe[x] == olde[x]);
            }
            crate::policy::lemma_lookup_none_means_absent(table_view(olde), name@);
            assert(node_wf(&old(self).nodes@[dirn], dirn, len));
            assert(unique_keys(table_view(newe))) by {
                assert(table_view(newe)[newe.len() - 1].0 == name@);
                assert forall|x: int, y: int|
                    0 <= x < y < table_view(newe).len() implies (#[trigger] table_view(
                    newe,
                )[x]).0 != (#[trigger] table_view(newe)[y]).0 by {
                    if y < olde.len() {
                        assert(table_view(olde)[x].0 != table_view(olde)[y].0);
                    } else {
                        assert(table_view(olde)[x].0 != name@);
                    }
                }
            }
            assert forall|i: int| 0 <= i < len implies node_wf(
                &(#[trigger] self.nodes@[i]),
                i,
                len,
            ) by {
                assert(node_wf(&old(self).nodes@[i], i, len));
            }
        }
        Ok(())
    }

    /// Looks a name up in a directory's entry table.
    pub fn lookup(&self, dir: usize, name: &str) -> (r: Option<usize>)
        requires
            self.wf(),
            dir < self.len(),
        ensures
            r == spec_lookup(table_view(self.nodes@[dir as int].entries@), name@),
            r is Some ==> r.unwrap() < self.len(),
    {
        let r = crate::policy::lookup(&self.nodes[dir].entries, name);
        proof {
            if r is Some {
                let t = table_view(self.nodes@[dir as int].entries@);
                crate::policy::lemma_lookup_in_table(t, name@);
                let i = choose|i: int|
                    0 <= i < t.len() && (#[trigger] t[i]).0 == name@ && t[i].1 == spec_lookup(
                        t,
                        name@,
                    ).unwrap();
                assert(node_wf(
                    &self.nodes@[dir as int],
                    dir as int,
                    self.nodes@.len() as int,
                ));
                assert(self.nodes@[dir as int].entries@[i].1 < self.nodes@.len());
            }
        }
        r
    }

    /// The parent of a node, or the node itself at the root: `..` is a
    /// no-op there.
    pub fn parent_or_self(&self, n: usize) -> (r: usize)
        requires
            self.wf(),
            n < self.len(),
        ensures
            r < self.len(),
            r as int == spec_parent_or_self(self, n as int),
    {
        match self.nodes[n].parent {
            Some(p) => p,
            None => n,
        }
    }

    /// Identity of a node.
    pub fn node_id(&self, n: usize) -> (r: InodeId)
        requires
            self.wf(),
            n < self.len(),
        ensures
            r == self.nodes@[n as int].id,
    {
        self.nodes[n].id
    }

    /// Attributes of a node, as `get_filestat` reports them: identity,
    /// file type, no size, and the three timestamps.
    pub fn filestat(&self, n: usize) -> (r: Filestat)
        requires
            self.wf(),
            n < self.len(),
        ensures
            r.device_id == self.nodes@[n as int].id.device,
            r.inode == self.nodes@[n as int].id.inode,
            r.filetype == self.nodes@[n as int].payload.kind(),
            r.size == 0,
            r.atim == self.nodes@[n as int].atim,
            r.mtim == self.nodes@[n as int].mtim,
            r.ctim == self.nodes@[n as int].ctim,
    {
        let node = &self.nodes[n];
        let filetype = match node.payload {
            Payload::ListenSocket { .. } => FileKind::SocketStream,
            _ => FileKind::Directory,
        };
        Filestat {
            device_id: node.id.device,
            inode: node.id.inode,
            filetype,
            size: 0,
            atim: node.atim,
            mtim: node.mtim,
            ctim: node.ctim,
        }
    }

    /// Sets the access and/or modification time of a node; absent values
    /// leave the field unchanged, and nothing else moves.
    pub fn set_times(&mut self, n: usize, atim: Option<u64>, mtim: Option<u64>)
        requires
            old(self).wf(),
            n < old(self).len(),
        ensures
            final(self).wf(),
            final(self).len() == old(self).len(),
            forall|i: int|
                0 <= i < old(self).len() && i != n ==> final(self).nodes@[i] == old(self).nodes@[i],
            final(self).nodes@[n as int].atim == match atim {
                Some(t) => t,
                None => old(self).nodes@[n as int].atim,
            },
            final(self).nodes@[n as int].mtim == match mtim {
                Some(t) => t,
                None => old(self).nodes@[n as int].mtim,
            },
            final(self).nodes@[n as int].ctim == old(self).nodes@[n as int].ctim,
            final(self).nodes@[n as int].id == old(self).nodes@[n as int].id,
            final(self).nodes@[n as int].parent == old(self).nodes@[n as int].parent,
            final(self).nodes@[n as int].entries@ == old(self).nodes@[n as int].entries@,
            final(self).nodes@[n as int].payload == old(self).nodes@[n as int].payload,
    {
        let mut node = self.nodes.remove(n);
        if let Some(t) = atim {
            node.atim = t;
        }
        if let Some(t) = mtim {
            node.mtim = t;
        }
        self.nodes.insert(n, node);
        proof {
            let len = self.nodes@.len() as int;
            assert(self.nodes@ =~= old(self).nodes@.update(n as int, self.nodes@[n as int]));
            assert forall|i: int| 0 <= i < len implies node_wf(
                &(#[trigger] self.nodes@[i]),
                i,
                len,
            ) by {
                assert(node_wf(&old(self).nodes@[i], i, len));
            }
        }
    }
}

/// The parent index of a node, or the node itself at the root.
pub open spec fn spec_parent_or_self(fs: &Fs, n: int) -> int {
    match fs.nodes@[n].parent {
        Some(p) => p as int,
        None => n,
    }
}

} // verus!
