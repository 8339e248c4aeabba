//! Provenance records for completed socket operations, their JSON wire
//! format, and the one-shot FIFO queues the peer directory serves them
//! from.

use crate::identity::Peer;
use crate::json::{dec_digits, json_string, push_json_string, push_u64};
use vstd::prelude::*;

verus! {

/// One completed accept: who connected, under what identity.
#[derive(Clone, Debug, PartialEq, Eq)]
pub struct AcceptMetadata {
    /// Remote address, `ip:port`.
    pub addr: String,
    /// Identity of the remote party.
    pub peer: Peer,
}

/// One completed connect: where to, under what identity.
#[derive(Clone, Debug, PartialEq, Eq)]
pub struct ConnectMetadata {
    /// Remote host.
    pub host: String,
    /// Remote port.
    pub port: u16,
    /// Identity of the remote party.
    pub peer: Peer,
}

/// JSON form of a peer identity.
pub open spec fn peer_json(p: Peer) -> Seq<char> {
    match p {
        Peer::Anonymous => "{\"kind\":\"anonymous\"}"@,
        Peer::Local { digest } => "{\"kind\":\"local\",\"digest\":"@ + json_string(digest@)
            + "}"@,
        Peer::Keep { workload, digest } => "{\"kind\":\"keep\",\"workload\":"@ + json_string(
            workload@,
        ) + ",\"digest\":"@ + json_string(digest@) + "}"@,
    }
}

/// JSON form of an accept record.
pub open spec fn accept_json(m: AcceptMetadata) -> Seq<char> {
    "{\"addr\":"@ + json_string(m.addr@) + ",\"peer\":"@ + peer_json(m.peer) + "}"@
}

/// JSON form of a connect record.
pub open spec fn connect_json(m: ConnectMetadata) -> Seq<char> {
    "{\"host\":"@ + json_string(m.host@) + ",\"port\":"@ + dec_digits(m.port as int)
        + ",\"peer\":"@ + peer_json(m.peer) + "}"@
}

/// Appends the JSON form of a peer identity.
fn push_peer_json(out: &mut String, p: &Peer)
    ensures
        final(out)@ == old(out)@ + peer_json(*p),
{
    match p {
        Peer::Anonymous => {
            out.append("{\"kind\":\"anonymous\"}");
        },
        Peer::Local { digest } => {
            out.append("{\"kind\":\"local\",\"digest\":");
            push_json_string(out, digest.as_str());
            out.append("}");
        },
        Peer::Keep { workload, digest } => {
            out.append("{\"kind\":\"keep\",\"workload\":");
            push_json_string(out, workload.as_str());
            out.append(",\"digest\":");
            push_json_string(out, digest.as_str());
            out.append("}");
        },
    }
    proof {
        assert(out@ =~= old(out)@ + peer_json(*p));
    }
}

/// The JSON encoding of an accept record.
pub fn encode_accept(m: &AcceptMetadata) -> (r: String)
    ensures
        r@ == accept_json(*m),
{
    let mut out = String::new();
    out.append("{\"addr\":");
    push_json_string(&mut out, m.addr.as_str());
    out.append(",\"peer\":");
    push_peer_json(&mut out, &m.peer);
    out.append("}");
    proof {
        assert(out@ =~= accept_json(*m));
    }
    out
}

/// The JSON encoding of a connect record.
pub fn encode_connect(m: &ConnectMetadata) -> (r: String)
    ensures
        r@ == connect_json(*m),
{
    let mut out = String::new();
    out.append("{\"host\":");
    push_json_string(&mut out, m.host.as_str());
    out.append(",\"port\":");
    push_u64(&mut out, m.port as u64);
    out.append(",\"peer\":");
    push_peer_json(&mut out, &m.peer);
    out.append("}");
    proof {
        assert(out@ =~= connect_json(*m));
    }
    out
}

/// The two event queues behind the peer directory: single-consumer FIFOs,
/// one for accepts and one for connects, each record delivered exactly
/// once.
#[derive(Debug)]
pub struct PeerQueues {
    /// Undelivered accept records, oldest first.
    pub accepted: Vec<AcceptMetadata>,
    /// Undelivered connect records, oldest first.
    pub connected: Vec<ConnectMetadata>,
}

impl PeerQueues {
    /// Empty queues.
    pub fn new() -> (r: Self)
        ensures
            r.accepted@.len() == 0,
            r.connected@.len() == 0,
    {
        PeerQueues { accepted: Vec::new(), connected: Vec::new() }
    }

    /// The producer boundary: records a completed accept.
    pub fn push_accept(&mut self, m: AcceptMetadata)
        ensures
            final(self).accepted@ == old(self).accepted@ + seq![m],
            final(self).connected@ == old(self).connected@,
    {
        self.accepted.push(m);
    }

    /// The producer boundary: records a completed connect.
    pub fn push_connect(&mut self, m: ConnectMetadata)
        ensures
            final(self).connected@ == old(self).connected@ + seq![m],
            final(self).accepted@ == old(self).accepted@,
    {
        self.connected.push(m);
    }

    /// Takes the oldest undelivered accept record, if any.
    pub fn take_accept(&mut self) -> (r: Option<AcceptMetadata>)
        ensures
            final(self).connected@ == old(self).connected@,
            match r {
                Some(m) => old(self).accepted@.len() > 0 && m == old(self).accepted@[0]
                    && final(self).accepted@ == old(self).accepted@.drop_first(),
                None => old(self).accepted@.len() == 0
                    && final(self).accepted@ == old(self).accepted@,
            },
    {
        if self.accepted.len() == 0 {
            None
        } else {
            Some(self.accepted.remove(0))
        }
    }

    /// Takes the oldest undelivered connect record, if any.
    pub fn take_connect(&mut self) -> (r: Option<ConnectMetadata>)
        ensures
            final(self).accepted@ == old(self).accepted@,
            match r {
                Some(m) => old(self).connected@.len() > 0 && m == old(self).connected@[0]
                    && final(self).connected@ == old(self).connected@.drop_first(),
                None => old(self).connected@.len() == 0
                    && final(self).connected@ == old(self).connected@,
            },
    {
        if self.connected.len() == 0 {
            None
        } else {
            Some(self.connected.remove(0))
        }
    }
}

/// One read step of a FIFO queue: the head, and the rest.
pub open spec fn spec_take<A>(q: Seq<A>) -> (Option<A>, Seq<A>) {
    if q.len() == 0 {
        (None, q)
    } else {
        (Some(q[0]), q.drop_first())
    }
}

/// What the `k`-th sequential read of a queue returns, counting from 0.
pub open spec fn kth_read<A>(q: Seq<A>, k: int) -> Option<A>
    decreases k,
{
    if k <= 0 {
        spec_take(q).0
    } else {
        kth_read(spec_take(q).1, k - 1)
    }
}

/// FIFO delivery: with events pushed in order, the `k`-th sequential read
/// returns exactly the `k`-th event — in order, each exactly once.
pub proof fn lemma_reads_in_order<A>(q: Seq<A>, k: int)
    requires
        0 <= k < q.len(),
    ensures
        kth_read(q, k) == Some(q[k]),
    decreases k,
{
    if k > 0 {
        lemma_reads_in_order(q.drop_first(), k - 1);
    }
}

} // verus!
