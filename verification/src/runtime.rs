//! Keep startup: assembling the filesystem the workload sees.
//!
//! At startup the identity subsystem produces a key and a certificate
//! chain; one client-side and one server-side TLS configuration are built
//! from it outside this crate and shared read-only by every socket.  The
//! node graph is assembled here: the attachment points `/dev`, `/key` and
//! `/tmp` (whose inner detail belongs to other branches), and `/net` with
//! its `lis`, `con` and `peer` directories.

use crate::config::{ConnectFile, ListenFile};
use crate::error::VfsError;
use crate::net::PeerQueues;
use crate::node::{Fs, Payload};
use crate::policy::{lemma_lookup_order_independent, spec_lookup, table_view, unique_keys};
use vstd::prelude::*;

verus! {

/// The WASM runtime around the keep filesystem.
pub struct Runtime;

/// Indices of the nodes attached at startup.
#[derive(Clone, Copy, Debug, PartialEq, Eq, Structural)]
pub struct KeepLayout {
    /// The root directory.
    pub root: usize,
    /// `/dev` attachment point.
    pub dev: usize,
    /// `/key` attachment point.
    pub key: usize,
    /// `/net`.
    pub net: usize,
    /// `/net/lis`, the listen directory.
    pub lis: usize,
    /// `/net/con`, the connect directory.
    pub con: usize,
    /// `/net/peer`, the peer metadata directory.
    pub peer: usize,
    /// `/tmp` attachment point.
    pub tmp: usize,
}

impl Runtime {
    /// Assembles the keep filesystem: the attachment points, and the
    /// network directories configured from the static socket tables and
    /// the per-direction defaults.  Fails exactly when two static listen
    /// entries share a name.
    pub fn build_fs(
        listen: &Vec<(String, ListenFile)>,
        incoming: ListenFile,
        connect: Vec<(String, ConnectFile)>,
        outgoing: ConnectFile,
    ) -> (r: Result<(Fs, KeepLayout), VfsError>)
        requires
            listen@.len() + 16 < u64::MAX,
        ensures
            match r {
                Ok((fs, l)) => {
                    &&& fs.wf()
                    &&& unique_keys(table_view(listen@))
                    &&& l.root as int == 0
                    &&& l.net < fs.len() && l.lis < fs.len() && l.con < fs.len() && l.peer
                        < fs.len()
                    &&& spec_lookup(table_view(fs.nodes@[0].entries@), "net"@) == Some(l.net)
                    &&& spec_lookup(table_view(fs.nodes@[0].entries@), "dev"@) == Some(l.dev)
                    &&& spec_lookup(table_view(fs.nodes@[0].entries@), "key"@) == Some(l.key)
                    &&& spec_lookup(table_view(fs.nodes@[0].entries@), "tmp"@) == Some(l.tmp)
                    &&& spec_lookup(table_view(fs.nodes@[l.net as int].entries@), "lis"@) == Some(
                        l.lis,
                    )
                    &&& spec_lookup(table_view(fs.nodes@[l.net as int].entries@), "con"@) == Some(
                        l.con,
                    )
                    &&& spec_lookup(table_view(fs.nodes@[l.net as int].entries@), "peer"@) == Some(
                        l.peer,
                    )
                    &&& fs.nodes@[l.lis as int].payload == (Payload::ListenDir {
                        default: incoming,
                    })
                    &&& (fs.nodes@[l.con as int].payload matches Payload::ConnectDir {
                        entries: e,
                        default: d,
                    } && e == connect && d == outgoing)
                    &&& (fs.nodes@[l.peer as int].payload matches Payload::PeerDir { queues: q }
                        && q.accepted@.len() == 0 && q.connected@.len() == 0)
                    &&& forall|i: int|
                        0 <= i < listen@.len() ==> (spec_lookup(
                            table_view(fs.nodes@[l.lis as int].entries@),
                            (#[trigger] listen@[i]).0@,
                        ) matches Some(s) && fs.nodes@[s as int].payload == (Payload::ListenSocket {
                            protocol: listen@[i].1,
                        }))
                },
                Err(e) => e is Exist && !unique_keys(table_view(listen@)),
            },
    {
        let mut fs = Fs::new();
        let root: usize = 0;
        proof {
            reveal_strlit("dev");
            reveal_strlit("key");
            reveal_strlit("net");
            reveal_strlit("tmp");
            reveal_strlit("lis");
            reveal_strlit("con");
            reveal_strlit("peer");
            assert("dev"@[0] == 'd' && "key"@[0] == 'k' && "net"@[0] == 'n' && "tmp"@[0] == 't');
            assert("lis"@[0] == 'l' && "con"@[0] == 'c' && "peer"@[0] == 'p');
        }
        let dev = fs.add_dir(root);
        let ghost t0 = table_view(fs.nodes@[0].entries@);
        let a1 = fs.attach(root, "dev", dev);
        proof {
            assert(t0.len() == 0);
            crate::policy::lemma_lookup_absent(t0, "dev"@);
            assert(a1 is Ok);
            assert(table_view(fs.nodes@[0].entries@)[0] == ("dev"@, dev));
        }
        let key = fs.add_dir(root);
        let ghost t1 = table_view(fs.nodes@[0].entries@);
        let a2 = fs.attach(root, "key", key);
        proof {
            assert(t1.len() == 1 && t1[0].0 == "dev"@);
            crate::policy::lemma_lookup_absent(t1, "key"@);
            assert(a2 is Ok);
            assert(table_view(fs.nodes@[0].entries@)[0] == ("dev"@, dev));
            assert(table_view(fs.nodes@[0].entries@)[1] == ("key"@, key));
        }
        let net = fs.add_dir(root);
        let ghost t2 = table_view(fs.nodes@[0].entries@);
        let a3 = fs.attach(root, "net", net);
        proof {
            assert(t2.len() == 2 && t2[0].0 == "dev"@ && t2[1].0 == "key"@);
            crate::policy::lemma_lookup_absent(t2, "net"@);
            assert(a3 is Ok);
            assert(table_view(fs.nodes@[0].entries@)[0] == ("dev"@, dev));
            assert(table_view(fs.nodes@[0].entries@)[1] == ("key"@, key));
            assert(table_view(fs.nodes@[0].entries@)[2] == ("net"@, net));
        }
        let tmp = fs.add_dir(root);
        let ghost t3 = table_view(fs.nodes@[0].entries@);
        let a4 = fs.attach(root, "tmp", tmp);
        proof {
            assert(t3.len() == 3 && t3[0].0 == "dev"@ && t3[1].0 == "key"@ && t3[2].0 == "net"@);
            crate::policy::lemma_lookup_absent(t3, "tmp"@);
            assert(a4 is Ok);
            assert(table_view(fs.nodes@[0].entries@)[0] == ("dev"@, dev));
            assert(table_view(fs.nodes@[0].entries@)[1] == ("key"@, key));
            assert(table_view(fs.nodes@[0].entries@)[2] == ("net"@, net));
            assert(table_view(fs.nodes@[0].entries@)[3] == ("tmp"@, tmp));
        }
        let lis = fs.add_listen_dir(net, incoming);
        let ghost u0 = table_view(fs.nodes@[net as int].entries@);
        let b1 = fs.attach(net, "lis", lis);
        proof {
            assert(u0.len() == 0);
            crate::policy::lemma_lookup_absent(u0, "lis"@);
            assert(b1 is Ok);
            assert(table_view(fs.nodes@[net as int].entries@)[0] == ("lis"@, lis));
        }
        let con = fs.add_connect_dir(net, connect, outgoing);
        let ghost u1 = table_view(fs.nodes@[net as int].entries@);
        let b2 = fs.attach(net, "con", con);
        proof {
            assert(u1.len() == 1 && u1[0].0 == "lis"@);
            crate::policy::lemma_lookup_absent(u1, "con"@);
            assert(b2 is Ok);
            assert(table_view(fs.nodes@[net as int].entries@)[0] == ("lis"@, lis));
            assert(table_view(fs.nodes@[net as int].entries@)[1] == ("con"@, con));
        }
        let peer = fs.add_peer_dir(net, PeerQueues::new());
        let ghost u2 = table_view(fs.nodes@[net as int].entries@);
        let b3 = fs.attach(net, "peer", peer);
        proof {
            assert(u2.len() == 2 && u2[0].0 == "lis"@ && u2[1].0 == "con"@);
            crate::policy::lemma_lookup_absent(u2, "peer"@);
            assert(b3 is Ok);
            assert(table_view(fs.nodes@[net as int].entries@)[0] == ("lis"@, lis));
            assert(table_view(fs.nodes@[net as int].entries@)[1] == ("con"@, con));
            assert(table_view(fs.nodes@[net as int].entries@)[2] == ("peer"@, peer));
        }
        let ghost base = fs;
        proof {
            let rt = table_view(base.nodes@[0].entries@);
            assert(crate::node::node_wf(&base.nodes@[0], 0, base.len()));
            lemma_lookup_order_independent(rt, "dev"@, 0);
            lemma_lookup_order_independent(rt, "key"@, 1);
            lemma_lookup_order_independent(rt, "net"@, 2);
            lemma_lookup_order_independent(rt, "tmp"@, 3);
            let nt = table_view(base.nodes@[net as int].entries@);
            assert(crate::node::node_wf(&base.nodes@[net as int], net as int, base.len()));
            lemma_lookup_order_independent(nt, "lis"@, 0);
            lemma_lookup_order_independent(nt, "con"@, 1);
            lemma_lookup_order_independent(nt, "peer"@, 2);
        }
        let n = listen.len();
        let mut i: usize = 0;
        while i < n
            invariant
                n == listen@.len(),
                fs.wf(),
                listen@.len() + 16 < u64::MAX,
                fs.len() == base.len() + i,
                base.len() == 8,
                net == 3 && lis == 5 && con == 6 && peer == 7,
                i <= n,
                fs.nodes@[0].entries@ == base.nodes@[0].entries@,
                fs.nodes@[net as int].entries@ == base.nodes@[net as int].entries@,
                forall|k: int| 0 <= k < base.len() && k != lis ==> fs.nodes@[k] == base.nodes@[k],
                fs.nodes@[lis as int].payload == (Payload::ListenDir { default: incoming }),
                fs.nodes@[lis as int].id == base.nodes@[lis as int].id,
                fs.nodes@[lis as int].parent == base.nodes@[lis as int].parent,
                table_view(fs.nodes@[lis as int].entries@).len() == i,
                forall|j: int|
                    0 <= j < i ==> (#[trigger] table_view(fs.nodes@[lis as int].entries@)[j]).0
                        == listen@[j].0@,
                forall|j: int|
                    0 <= j < i ==> ((#[trigger] table_view(
                        fs.nodes@[lis as int].entries@,
                    )[j]).1 as int) < fs.len() && fs.nodes@[table_view(
                        fs.nodes@[lis as int].entries@,
                    )[j].1 as int].payload == (Payload::ListenSocket { protocol: listen@[j].1 }),
            decreases n - i,
        {
            let name = listen[i].0.clone();
            let proto = listen[i].1;
            let s = fs.add_listen_socket(lis, proto);
            let ghost mid = fs;
            let att = fs.attach(lis, name.as_str(), s);
            match att {
                Ok(()) => {
                    proof {
                        let t_new = table_view(fs.nodes@[lis as int].entries@);
                        let t_old = table_view(mid.nodes@[lis as int].entries@);
                        assert(t_new =~= t_old.push((name@, s)));
                        assert(name@ == listen@[i as int].0@);
                    }
                },
                Err(_) => {
                    proof {
                        let t = table_view(mid.nodes@[lis as int].entries@);
                        crate::policy::lemma_lookup_in_table(t, name@);
                        let j = choose|j: int|
                            0 <= j < t.len() && (#[trigger] t[j]).0 == name@ && t[j].1
                                == spec_lookup(t, name@).unwrap();
                        assert(table_view(listen@)[j].0 == listen@[j].0@);
                        assert(table_view(listen@)[i as int].0 == listen@[i as int].0@);
                        assert(!unique_keys(table_view(listen@)));
                    }
                    return Err(VfsError::Exist);
                },
            }
            i += 1;
        }
        proof {
            let t = table_view(fs.nodes@[lis as int].entries@);
            assert(crate::node::node_wf(&fs.nodes@[lis as int], lis as int, fs.len()));
            assert(unique_keys(t));
            assert forall|x: int, y: int|
                0 <= x < y < listen@.len() implies (#[trigger] table_view(listen@)[x]).0 != (
            #[trigger] table_view(listen@)[y]).0 by {
                assert(t[x].0 == listen@[x].0@ && t[y].0 == listen@[y].0@);
            }
            assert forall|j: int| 0 <= j < listen@.len() implies (spec_lookup(
                t,
                (#[trigger] listen@[j]).0@,
            ) matches Some(s) && fs.nodes@[s as int].payload == (Payload::ListenSocket {
                protocol: listen@[j].1,
            })) by {
                assert(t[j].0 == listen@[j].0@);
                lemma_lookup_order_independent(t, listen@[j].0@, j);
            }
        }
        let layout = KeepLayout { root, dev, key, net, lis, con, peer, tmp };
        Ok((fs, layout))
    }
}

} // verus!
