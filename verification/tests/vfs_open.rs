//! Opening paths against the keep filesystem: socket minting, policy
//! resolution, traversal and error behavior.

use enarx::addr::{BindHost, ConnectHost};
use enarx::config::{ConnectFile, ListenFile};
use enarx::error::VfsError;
use enarx::node::FileKind;
use enarx::runtime::Runtime;
use enarx::vfs::{unsupported_dir_op, DirOp, Outcome, OFLAG_CREATE, OFLAG_EXCLUSIVE, OFLAG_TRUNCATE};

const NONBLOCK: u16 = 4;

fn keep(
    listen: Vec<(String, ListenFile)>,
    incoming: ListenFile,
    connect: Vec<(String, ConnectFile)>,
    outgoing: ConnectFile,
) -> (enarx::node::Fs, enarx::runtime::KeepLayout) {
    Runtime::build_fs(&listen, incoming, connect, outgoing).unwrap()
}

#[test]
fn listen_static_entry_protocols() {
    let (mut fs, l) = keep(
        vec![("9000".to_string(), ListenFile::Tcp), ("tls0".to_string(), ListenFile::Tls)],
        ListenFile::Tls,
        Vec::new(),
        ConnectFile::Tcp,
    );
    // An entry declared Tcp never asks for a TLS handshake.
    match fs.open_file_at(l.root, "net/lis/9000", 0, true, true, 0).unwrap() {
        Outcome::Listen(a) => {
            assert!(!a.tls);
            assert_eq!(a.addr.port, 9000);
            assert!(matches!(a.addr.host, BindHost::Any));
            assert!(!a.nonblocking);
        }
        _ => panic!("expected a listen action"),
    }
    // An entry declared Tls always completes a handshake before returning.
    match fs.open_file_at(l.root, "net/lis/tls0:8443", 0, true, true, NONBLOCK).unwrap() {
        Outcome::Listen(a) => {
            assert!(a.tls);
            assert_eq!(a.addr.port, 8443);
            assert!(a.nonblocking);
        }
        _ => panic!("expected a listen action"),
    }
}

#[test]
fn listen_minted_entry_uses_default() {
    let (mut fs, l) = keep(Vec::new(), ListenFile::Tcp, Vec::new(), ConnectFile::Tcp);
    let before = fs.nodes.len();
    match fs.open_file_at(l.root, "net/lis/8080", 0, true, true, 0).unwrap() {
        Outcome::Listen(a) => {
            assert!(!a.tls);
            assert_eq!(a.addr.port, 8080);
        }
        _ => panic!("expected a listen action"),
    }
    // The first open of an unmapped name minted one node.
    assert_eq!(fs.nodes.len(), before + 1);
    // A second open of the same name reuses the node but binds afresh:
    // exactly one action per open, no socket cached anywhere.
    match fs.open_file_at(l.root, "net/lis/8080", 0, true, true, 0).unwrap() {
        Outcome::Listen(a) => assert_eq!(a.addr.port, 8080),
        _ => panic!("expected a listen action"),
    }
    assert_eq!(fs.nodes.len(), before + 1);
}

#[test]
fn listen_socket_errors() {
    let (mut fs, l) = keep(
        vec![("9000".to_string(), ListenFile::Tcp)],
        ListenFile::Tls,
        Vec::new(),
        ConnectFile::Tcp,
    );
    // Both read and write are required.
    assert_eq!(
        fs.open_file_at(l.root, "net/lis/9000", 0, true, false, 0).unwrap_err(),
        VfsError::Permission
    );
    assert_eq!(
        fs.open_file_at(l.root, "net/lis/9000", 0, false, true, 0).unwrap_err(),
        VfsError::Permission
    );
    // Only NONBLOCK or no flags are accepted.
    assert_eq!(
        fs.open_file_at(l.root, "net/lis/9000", 0, true, true, 1).unwrap_err(),
        VfsError::InvalidArgument
    );
    // A malformed port is an invalid argument.
    assert_eq!(
        fs.open_file_at(l.root, "net/lis/nonsense", 0, true, true, 0).unwrap_err(),
        VfsError::InvalidArgument
    );
}

#[test]
fn connect_policy_scenario() {
    // policy: exact entry example.com -> Tls, directory default Tcp.
    let (mut fs, l) = keep(
        Vec::new(),
        ListenFile::Tls,
        vec![("example.com".to_string(), ConnectFile::Tls)],
        ConnectFile::Tcp,
    );
    // The exact match performs a TLS handshake, port defaulted to 443.
    match fs.open_file_at(l.root, "net/con/example.com", 0, true, true, 0).unwrap() {
        Outcome::Connect(a) => {
            assert!(a.tls);
            assert_eq!(a.port, 443);
            assert_eq!(a.server_name, "example.com");
            match &a.host {
                ConnectHost::Named(n) => assert_eq!(n, "example.com"),
                _ => panic!("expected a named host"),
            }
        }
        _ => panic!("expected a connect action"),
    }
    // Any other address follows the default: a plain TCP connect.
    match fs.open_file_at(l.root, "net/con/other.com:8080", 0, true, true, 0).unwrap() {
        Outcome::Connect(a) => {
            assert!(!a.tls);
            assert_eq!(a.port, 8080);
        }
        _ => panic!("expected a connect action"),
    }
}

#[test]
fn connect_port_defaults() {
    // Omitted port resolves to 443 under TLS policy and 80 under TCP.
    let (mut fs, l) = keep(Vec::new(), ListenFile::Tls, Vec::new(), ConnectFile::Tls);
    match fs.open_file_at(l.root, "net/con/host.example", 0, true, true, 0).unwrap() {
        Outcome::Connect(a) => assert_eq!(a.port, 443),
        _ => panic!("expected a connect action"),
    }
    let (mut fs, l) = keep(Vec::new(), ListenFile::Tls, Vec::new(), ConnectFile::Tcp);
    match fs.open_file_at(l.root, "net/con/host.example", 0, true, true, 0).unwrap() {
        Outcome::Connect(a) => assert_eq!(a.port, 80),
        _ => panic!("expected a connect action"),
    }
    // An explicit port is kept as given.
    match fs.open_file_at(l.root, "net/con/host.example:8443", 0, true, true, 0).unwrap() {
        Outcome::Connect(a) => assert_eq!(a.port, 8443),
        _ => panic!("expected a connect action"),
    }
}

#[test]
fn connect_localhost_and_flags() {
    let (mut fs, l) = keep(Vec::new(), ListenFile::Tls, Vec::new(), ConnectFile::Tcp);
    match fs.open_file_at(l.root, "net/con/localhost:99", 0, true, true, NONBLOCK).unwrap() {
        Outcome::Connect(a) => {
            assert!(matches!(a.host, ConnectHost::Loopback));
            assert!(a.nonblocking);
            assert_eq!(a.server_name, "localhost");
        }
        _ => panic!("expected a connect action"),
    }
    assert_eq!(
        fs.open_file_at(l.root, "net/con/host:1", 0, true, true, 3).unwrap_err(),
        VfsError::InvalidArgument
    );
    assert_eq!(
        fs.open_file_at(l.root, "net/con/:80", 0, true, true, 0).unwrap_err(),
        VfsError::InvalidArgument
    );
}

#[test]
fn connect_dir_flag_gate() {
    let (mut fs, l) = keep(Vec::new(), ListenFile::Tls, Vec::new(), ConnectFile::Tcp);
    // An unknown flag combination is refused outright.
    assert_eq!(
        fs.open_file_at(l.con, "x", 16, true, true, 0).unwrap_err(),
        VfsError::InvalidArgument
    );
    // Truncate needs write.
    assert_eq!(
        fs.open_file_at(l.con, "x", OFLAG_TRUNCATE, true, false, 0).unwrap_err(),
        VfsError::InvalidArgument
    );
    // Exclusive creation of `.` finds it existing.
    assert_eq!(
        fs.open_file_at(l.con, ".", OFLAG_CREATE + OFLAG_EXCLUSIVE, true, true, 0).unwrap_err(),
        VfsError::Exist
    );
    // Truncating `.` is an i/o error.
    assert_eq!(
        fs.open_file_at(l.con, ".", OFLAG_TRUNCATE, true, true, 0).unwrap_err(),
        VfsError::Io
    );
}

#[test]
fn dot_and_dotdot_identity() {
    let (mut fs, l) = keep(Vec::new(), ListenFile::Tls, Vec::new(), ConnectFile::Tcp);
    // Reading `.` of an open directory returns an identity equal to the
    // directory's own.
    match fs.open_file_at(l.net, ".", 0, false, false, 0).unwrap() {
        Outcome::Dir(h) => assert_eq!(fs.node_id(h), fs.node_id(l.net)),
        _ => panic!("expected a directory handle"),
    }
    // Reading `..` from the root returns the root's own identity.
    match fs.open_file_at(l.root, "..", 0, false, false, 0).unwrap() {
        Outcome::Dir(h) => assert_eq!(fs.node_id(h), fs.node_id(l.root)),
        _ => panic!("expected a directory handle"),
    }
    // `..` of a child is its parent.
    match fs.open_file_at(l.net, "..", 0, false, false, 0).unwrap() {
        Outcome::Dir(h) => assert_eq!(fs.node_id(h), fs.node_id(l.root)),
        _ => panic!("expected a directory handle"),
    }
    // Path descent through `.` and `..`.
    match fs.open_file_at(l.root, "net/../net/./lis/.", 0, false, false, 0).unwrap() {
        Outcome::Dir(h) => assert_eq!(fs.node_id(h), fs.node_id(l.lis)),
        _ => panic!("expected a directory handle"),
    }
}

#[test]
fn traversal_errors() {
    let (mut fs, l) = keep(Vec::new(), ListenFile::Tls, Vec::new(), ConnectFile::Tcp);
    assert_eq!(
        fs.open_file_at(l.root, "nosuch/x", 0, true, true, 0).unwrap_err(),
        VfsError::NotFound
    );
    assert_eq!(
        fs.open_file_at(l.root, "nosuch", 0, true, true, 0).unwrap_err(),
        VfsError::NotFound
    );
    // Named descent through the connect directory is not supported.
    assert_eq!(
        fs.open_file_at(l.root, "net/con/a/b", 0, true, true, 0).unwrap_err(),
        VfsError::NotSupported
    );
    // An empty segment is an invalid argument.
    assert_eq!(
        fs.open_file_at(l.root, "//x", 0, true, true, 0).unwrap_err(),
        VfsError::InvalidArgument
    );
}

#[test]
fn mutation_ops_not_supported() {
    let (fs, l) = keep(Vec::new(), ListenFile::Tls, Vec::new(), ConnectFile::Tcp);
    // Creation and removal of `.`/`..`/the empty name are invalid
    // arguments; named targets are simply not supported.
    for op in [DirOp::CreateDir, DirOp::RemoveDir, DirOp::UnlinkFile] {
        assert_eq!(
            unsupported_dir_op(&fs, l.con, ".", op).unwrap_err(),
            VfsError::InvalidArgument
        );
        assert_eq!(
            unsupported_dir_op(&fs, l.con, "..", op).unwrap_err(),
            VfsError::InvalidArgument
        );
        assert_eq!(
            unsupported_dir_op(&fs, l.con, "somewhere", op).unwrap_err(),
            VfsError::NotSupported
        );
    }
    for op in [
        DirOp::Symlink,
        DirOp::Rename,
        DirOp::HardLink,
        DirOp::ReadLink,
        DirOp::Readdir,
    ] {
        assert_eq!(
            unsupported_dir_op(&fs, l.peer, "anything", op).unwrap_err(),
            VfsError::NotSupported
        );
    }
    // A path that does not resolve reports its own error first.
    assert_eq!(
        unsupported_dir_op(&fs, l.root, "nosuch/x", DirOp::CreateDir).unwrap_err(),
        VfsError::NotFound
    );
}

#[test]
fn path_based_times_and_stat() {
    let (mut fs, l) = keep(Vec::new(), ListenFile::Tls, Vec::new(), ConnectFile::Tcp);
    fs.set_times_at(l.root, "net/.", Some(5), Some(6)).unwrap();
    let st = fs.filestat_at(l.root, "net/.").unwrap();
    assert_eq!((st.atim, st.mtim), (5, 6));
    // `..` reaches the parent.
    fs.set_times_at(l.root, "net/..", Some(8), None).unwrap();
    let st = fs.filestat_at(l.root, ".").unwrap();
    assert_eq!(st.atim, 8);
    assert_eq!(
        fs.set_times_at(l.root, "net/lis", None, None).unwrap_err(),
        VfsError::NotSupported
    );
    assert_eq!(
        fs.filestat_at(l.root, "net/peer").unwrap_err(),
        VfsError::NotSupported
    );
}

#[test]
fn build_rejects_duplicate_listen_names() {
    let listen = vec![
        ("9000".to_string(), ListenFile::Tcp),
        ("9000".to_string(), ListenFile::Tls),
    ];
    let r = Runtime::build_fs(&listen, ListenFile::Tls, Vec::new(), ConnectFile::Tcp);
    assert!(matches!(r, Err(VfsError::Exist)));
}

#[test]
fn filestat_and_times() {
    let (mut fs, l) = keep(Vec::new(), ListenFile::Tls, Vec::new(), ConnectFile::Tcp);
    fs.set_times(l.net, Some(7), None);
    let st = fs.filestat(l.net);
    assert_eq!(st.atim, 7);
    assert_eq!(st.mtim, 0);
    assert_eq!(st.filetype, FileKind::Directory);
    assert_eq!(st.size, 0);
    fs.set_times(l.net, None, Some(9));
    let st = fs.filestat(l.net);
    assert_eq!(st.atim, 7);
    assert_eq!(st.mtim, 9);
    // The listen directory owns a device of its own; its inode is unique
    // within it.
    let lis_id = fs.node_id(l.lis);
    let net_id = fs.node_id(l.net);
    assert_ne!(lis_id.device, net_id.device);
}
