//! The peer metadata directory: one-shot, in-order delivery of accept and
//! connect records, and their JSON wire format.

use enarx::blob::Blob;
use enarx::config::{ConnectFile, ListenFile};
use enarx::identity::Peer;
use enarx::net::{encode_accept, encode_connect, AcceptMetadata, ConnectMetadata, PeerQueues};
use enarx::node::Payload;
use enarx::runtime::Runtime;
use enarx::vfs::Outcome;

fn accept(addr: &str, peer: Peer) -> AcceptMetadata {
    AcceptMetadata { addr: addr.to_string(), peer }
}

#[test]
fn accept_json_wire_format() {
    let j = encode_accept(&accept("127.0.0.1:80", Peer::Anonymous));
    assert_eq!(j, "{\"addr\":\"127.0.0.1:80\",\"peer\":{\"kind\":\"anonymous\"}}");

    let j = encode_accept(&accept(
        "10.0.0.1:443",
        Peer::Keep { workload: "myapp".to_string(), digest: "AbCd/12+".to_string() },
    ));
    assert_eq!(
        j,
        "{\"addr\":\"10.0.0.1:443\",\"peer\":{\"kind\":\"keep\",\"workload\":\"myapp\",\"digest\":\"AbCd/12+\"}}"
    );
    // The record parses back as JSON with the same fields.
    let v: serde_json::Value = serde_json::from_str(&j).unwrap();
    assert_eq!(v["addr"], "10.0.0.1:443");
    assert_eq!(v["peer"]["kind"], "keep");
    assert_eq!(v["peer"]["workload"], "myapp");
    assert_eq!(v["peer"]["digest"], "AbCd/12+");
}

#[test]
fn connect_json_wire_format() {
    let j = encode_connect(&ConnectMetadata {
        host: "example.com".to_string(),
        port: 8443,
        peer: Peer::Local { digest: "XYZ".to_string() },
    });
    assert_eq!(
        j,
        "{\"host\":\"example.com\",\"port\":8443,\"peer\":{\"kind\":\"local\",\"digest\":\"XYZ\"}}"
    );
    let v: serde_json::Value = serde_json::from_str(&j).unwrap();
    assert_eq!(v["port"], 8443);
    assert_eq!(v["peer"]["kind"], "local");
}

#[test]
fn connect_json_port_extremes() {
    let j = encode_connect(&ConnectMetadata {
        host: "h".to_string(),
        port: 0,
        peer: Peer::Anonymous,
    });
    assert!(j.contains("\"port\":0,"));
    let j = encode_connect(&ConnectMetadata {
        host: "h".to_string(),
        port: 65535,
        peer: Peer::Anonymous,
    });
    assert!(j.contains("\"port\":65535,"));
}

#[test]
fn json_escaping_matches_serde() {
    let j = encode_accept(&accept(
        "x",
        Peer::Local { digest: "a\"b\\c\nd\te".to_string() },
    ));
    let v: serde_json::Value = serde_json::from_str(&j).unwrap();
    assert_eq!(v["peer"]["digest"], "a\"b\\c\nd\te");
}

#[test]
fn reads_in_order_exactly_once() {
    // N accept events pushed in order; N sequential reads return them in
    // the same order, each exactly once.
    let (mut fs, l) = Runtime::build_fs(
        &Vec::new(),
        ListenFile::Tls,
        Vec::new(),
        ConnectFile::Tcp,
    )
    .unwrap();
    let events: Vec<AcceptMetadata> = (0..5)
        .map(|i| accept(&format!("10.0.0.{i}:80"), Peer::Anonymous))
        .collect();
    match &mut fs.nodes[l.peer].payload {
        Payload::PeerDir { queues } => {
            for e in events.iter() {
                queues.push_accept(e.clone());
            }
        }
        _ => panic!("expected the peer directory"),
    }
    for e in events.iter() {
        match fs.open_file_at(l.root, "net/peer/lis", 0, true, false, 0).unwrap() {
            Outcome::ReadAccept(j) => assert_eq!(j, encode_accept(e)),
            _ => panic!("expected an accept record"),
        }
    }
    // The sixth read finds nothing left: no replay, no duplicate.
    match fs.open_file_at(l.root, "net/peer/lis", 0, true, false, 0).unwrap() {
        Outcome::PendingAccept => {}
        _ => panic!("expected a pending read"),
    }
}

#[test]
fn lis_and_con_are_independent_queues() {
    let (mut fs, l) = Runtime::build_fs(
        &Vec::new(),
        ListenFile::Tls,
        Vec::new(),
        ConnectFile::Tcp,
    )
    .unwrap();
    match &mut fs.nodes[l.peer].payload {
        Payload::PeerDir { queues } => {
            queues.push_connect(ConnectMetadata {
                host: "h".to_string(),
                port: 1,
                peer: Peer::Anonymous,
            });
        }
        _ => panic!("expected the peer directory"),
    }
    // The accept queue is empty even though a connect event is waiting.
    match fs.open_file_at(l.root, "net/peer/lis", 0, true, false, 0).unwrap() {
        Outcome::PendingAccept => {}
        _ => panic!("expected a pending read"),
    }
    match fs.open_file_at(l.root, "net/peer/con", 0, true, false, 0).unwrap() {
        Outcome::ReadConnect(j) => assert!(j.contains("\"port\":1")),
        _ => panic!("expected a connect record"),
    }
}

#[test]
fn peer_unknown_leaf_not_supported() {
    let (mut fs, l) = Runtime::build_fs(
        &Vec::new(),
        ListenFile::Tls,
        Vec::new(),
        ConnectFile::Tcp,
    )
    .unwrap();
    assert!(matches!(
        fs.open_file_at(l.root, "net/peer/other", 0, true, false, 0),
        Err(enarx::error::VfsError::NotSupported)
    ));
}

#[test]
fn queue_fifo_primitives() {
    let mut q = PeerQueues::new();
    q.push_accept(accept("a:1", Peer::Anonymous));
    q.push_accept(accept("b:2", Peer::Anonymous));
    let first = q.take_accept().unwrap();
    assert_eq!(first.addr, "a:1");
    let second = q.take_accept().unwrap();
    assert_eq!(second.addr, "b:2");
    assert!(q.take_accept().is_none());
    assert!(q.take_connect().is_none());
}

#[test]
fn blob_reads_advance() {
    let mut b = Blob::from(vec![1u8, 2, 3, 4, 5]);
    assert_eq!(b.read(2), vec![1, 2]);
    assert_eq!(b.read(2), vec![3, 4]);
    assert_eq!(b.read(2), vec![5]);
    assert_eq!(b.read(2), Vec::<u8>::new());
}
