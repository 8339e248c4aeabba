//! Address, port, slug and policy parsing behavior.

use enarx::addr::{parse_connect_addr, parse_listen_addr, BindHost, ConnectHost};
use enarx::backend::{Backend, Datum};
use enarx::cli::{deploy_kind, DeployError, DeployKind};
use enarx::config::{Config, ConnectFile, IncomingNetwork, ListenFile, Network, StdioFile};
use enarx::error::VfsError;
use enarx::policy::resolve;
use enarx::sgx::{
    attestation_kind, check_error_code, frame_request, response_len, select_key_id, set_request,
    AesmError, AesmRequest, AttestationKind, ReqKind,
};
use enarx::strutil::parse_port;
use enarx::workload::{
    accept_tag_signature, check_meta, check_wasm_media, check_wasm_size, classify_top, find_entry,
    parse_repo, parse_slug, parse_tag, parse_user, plan_package, plan_tag_entry, Meta, TagPlan,
    TopKind, WorkloadError,
};

#[test]
fn port_parsing() {
    assert_eq!(parse_port("0"), Some(0));
    assert_eq!(parse_port("80"), Some(80));
    assert_eq!(parse_port("65535"), Some(65535));
    assert_eq!(parse_port("65536"), None);
    assert_eq!(parse_port(""), None);
    assert_eq!(parse_port("007"), Some(7));
    assert_eq!(parse_port("8a"), None);
    assert_eq!(parse_port("99999999999999999999"), None);
}

#[test]
fn listen_addr_forms() {
    let a = parse_listen_addr("8080").unwrap();
    assert!(matches!(a.host, BindHost::Any));
    assert_eq!(a.port, 8080);

    let a = parse_listen_addr("localhost:443").unwrap();
    assert!(matches!(a.host, BindHost::Loopback));
    assert_eq!(a.port, 443);

    let a = parse_listen_addr("127.0.0.1:25").unwrap();
    assert!(matches!(a.host, BindHost::Loopback));

    let a = parse_listen_addr("0.0.0.0:25").unwrap();
    assert!(matches!(a.host, BindHost::Any));

    let a = parse_listen_addr(":25").unwrap();
    assert!(matches!(a.host, BindHost::Any));

    let a = parse_listen_addr("example.com:25").unwrap();
    match &a.host {
        BindHost::Named(n) => assert_eq!(n, "example.com"),
        _ => panic!("expected a named host"),
    }

    assert_eq!(parse_listen_addr("nonsense").unwrap_err(), VfsError::InvalidArgument);
    assert_eq!(parse_listen_addr("example.com:port").unwrap_err(), VfsError::InvalidArgument);
}

#[test]
fn connect_addr_forms() {
    let a = parse_connect_addr("example.com:8080").unwrap();
    match &a.host {
        ConnectHost::Named(n) => assert_eq!(n, "example.com"),
        _ => panic!("expected a named host"),
    }
    assert_eq!(a.port, Some(8080));

    let a = parse_connect_addr("example.com").unwrap();
    assert_eq!(a.port, None);

    let a = parse_connect_addr("localhost:99").unwrap();
    assert!(matches!(a.host, ConnectHost::Loopback));

    assert_eq!(parse_connect_addr("").unwrap_err(), VfsError::InvalidArgument);
    assert_eq!(parse_connect_addr(":80").unwrap_err(), VfsError::InvalidArgument);
    assert_eq!(parse_connect_addr("host:").unwrap_err(), VfsError::InvalidArgument);
}

#[test]
fn policy_exact_match_overrides_default() {
    let table = vec![
        ("example.com".to_string(), ConnectFile::Tls),
        ("other.com".to_string(), ConnectFile::Tcp),
    ];
    assert_eq!(resolve(&table, ConnectFile::Tcp, "example.com"), ConnectFile::Tls);
    assert_eq!(resolve(&table, ConnectFile::Tls, "example.com"), ConnectFile::Tls);
    assert_eq!(resolve(&table, ConnectFile::Tls, "other.com"), ConnectFile::Tcp);
    assert_eq!(resolve(&table, ConnectFile::Tcp, "absent.com"), ConnectFile::Tcp);
    assert_eq!(resolve(&table, ConnectFile::Tls, "absent.com"), ConnectFile::Tls);
}

#[test]
fn config_defaults() {
    let c = Config::default();
    assert!(c.steward.is_none());
    assert!(c.args.is_empty());
    assert!(c.env.is_empty());
    assert_eq!(c.stdin, StdioFile::Null);
    assert_eq!(c.stdout, StdioFile::Null);
    assert_eq!(c.stderr, StdioFile::Null);
    assert!(c.listen.is_empty());
    assert!(c.connect.is_empty());
    assert_eq!(c.network.incoming.default, ListenFile::Tls);
    assert_eq!(c.network.outgoing.default, ConnectFile::Tls);
    assert_eq!(ListenFile::default(), ListenFile::Tls);
    assert_eq!(ConnectFile::default(), ConnectFile::Tls);
    assert_eq!(StdioFile::default(), StdioFile::Null);
    assert_eq!(Network::default().incoming, IncomingNetwork::default());
}

#[test]
fn slug_parsing() {
    let (host, user) = parse_user("example.com/alice");
    assert_eq!(host, "example.com");
    assert_eq!(user, "alice");
    let (host, user) = parse_user("alice");
    assert_eq!(host, "store.profian.com");
    assert_eq!(user, "alice");

    let (host, user, repo) = parse_repo("alice/app").unwrap();
    assert_eq!((host.as_str(), user, repo), ("store.profian.com", "alice", "app"));
    assert_eq!(parse_repo("app").unwrap_err(), WorkloadError::MissingRepoSlash);

    let (host, user, repo, tag) = parse_tag("example.com/alice/app:1.0").unwrap();
    assert_eq!(
        (host.as_str(), user, repo, tag),
        ("example.com", "alice", "app", "1.0")
    );
    assert_eq!(parse_tag("alice/app").unwrap_err(), WorkloadError::MissingTagColon);

    let url = parse_slug("alice/app:1.0").unwrap();
    assert_eq!(url, "https://store.profian.com/api/v0.1.0/alice/app/_tag/1.0");
    let url = parse_slug("example.com/alice/app:2").unwrap();
    assert_eq!(url, "https://example.com/api/v0.1.0/alice/app/_tag/2");
}

#[test]
fn workload_validation() {
    assert!(check_wasm_media("application/wasm").is_ok());
    assert_eq!(check_wasm_media("text/plain").unwrap_err(), WorkloadError::BadMediaType);
    assert!(check_wasm_size(100_000_000).is_ok());
    assert_eq!(check_wasm_size(100_000_001).unwrap_err(), WorkloadError::TooLarge);
    assert_eq!(classify_top("application/wasm"), TopKind::Wasm);
    assert_eq!(
        classify_top("application/vnd.drawbridge.directory.v1+json"),
        TopKind::Directory
    );
    assert_eq!(classify_top("application/json"), TopKind::Tag);
}

#[test]
fn tag_dispatch() {
    assert!(accept_tag_signature(false).is_ok());
    assert_eq!(accept_tag_signature(true).unwrap_err(), WorkloadError::SignedTag);
    assert_eq!(plan_tag_entry("application/wasm").unwrap(), TagPlan::FetchWasm);
    assert_eq!(
        plan_tag_entry("application/vnd.drawbridge.directory.v1+json").unwrap(),
        TagPlan::FetchDirectory
    );
    assert_eq!(
        plan_tag_entry("text/plain").unwrap_err(),
        WorkloadError::UnsupportedRootType
    );
}

#[test]
fn meta_comparison() {
    let a = Meta { size: 5, mime: "application/wasm".to_string(), hash: "h".to_string() };
    let b = Meta { size: 5, mime: "application/wasm".to_string(), hash: "h".to_string() };
    assert!(check_meta(&a, &b).is_ok());
    let c = Meta { size: 6, ..b };
    assert_eq!(check_meta(&a, &c).unwrap_err(), WorkloadError::MetaMismatch);
}

#[test]
fn package_planning() {
    let wasm = Meta { size: 4, mime: "application/wasm".to_string(), hash: "w".to_string() };
    let conf = Meta { size: 2, mime: "application/toml".to_string(), hash: "c".to_string() };
    let dir = vec![
        ("main.wasm".to_string(), wasm.clone()),
        ("Enarx.toml".to_string(), conf.clone()),
    ];
    let p = plan_package(&dir).unwrap();
    assert!(check_meta(&p.wasm_entry, &wasm).is_ok());
    assert!(check_meta(&p.conf_entry.unwrap(), &conf).is_ok());

    // Without a configuration entry the plan carries none.
    let dir = vec![("main.wasm".to_string(), wasm.clone())];
    let p = plan_package(&dir).unwrap();
    assert!(p.conf_entry.is_none());

    // A directory without the entrypoint is refused.
    let dir = vec![("other".to_string(), conf.clone())];
    assert_eq!(plan_package(&dir).unwrap_err(), WorkloadError::MissingEntrypoint);

    // A mistyped entrypoint is refused.
    let bad = Meta { size: 4, mime: "text/plain".to_string(), hash: "w".to_string() };
    let dir = vec![("main.wasm".to_string(), bad)];
    assert_eq!(plan_package(&dir).unwrap_err(), WorkloadError::BadMediaType);

    assert!(find_entry(&Vec::new(), "main.wasm").is_none());
}

#[test]
fn deploy_kinds() {
    assert_eq!(deploy_kind(None, false, false).unwrap(), DeployKind::Slug);
    assert_eq!(deploy_kind(Some("file"), true, false).unwrap(), DeployKind::LocalModule);
    assert_eq!(deploy_kind(Some("file"), false, true).unwrap(), DeployKind::LocalPackageDir);
    assert_eq!(deploy_kind(Some("file"), false, false).unwrap_err(), DeployError::NoPackage);
    assert_eq!(deploy_kind(Some("http"), false, false).unwrap(), DeployKind::RemoteUrl);
    assert_eq!(deploy_kind(Some("https"), false, false).unwrap(), DeployKind::RemoteUrl);
    assert_eq!(
        deploy_kind(Some("ftp"), false, false).unwrap_err(),
        DeployError::UnsupportedScheme
    );
}

#[test]
fn sev_backend() {
    let b = Backend;
    assert_eq!(b.name(), "sev");
    let all = vec![
        Datum { name: "a".to_string(), pass: true },
        Datum { name: "b".to_string(), pass: true },
    ];
    assert!(b.have(&all));
    let one_bad = vec![
        Datum { name: "a".to_string(), pass: true },
        Datum { name: "b".to_string(), pass: false },
    ];
    assert!(!b.have(&one_bad));
    assert!(b.have(&Vec::new()));
}

#[test]
fn aesm_framing() {
    let msg = vec![1u8, 2, 3];
    let framed = frame_request(&msg);
    assert_eq!(framed, vec![3, 0, 0, 0, 1, 2, 3]);
    assert_eq!(response_len(0x01, 0x02, 0x00, 0x00), 0x0201);
    assert_eq!(response_len(0xff, 0xff, 0xff, 0xff), u32::MAX);
}

#[test]
fn aesm_requests() {
    let r = set_request(ReqKind::TInfo, None, Some(vec![9u8; 256]), Some(512), 8192).unwrap();
    match r {
        AesmRequest::TInfo { akid, size, b_pub_key_id, timeout } => {
            assert_eq!(akid.len(), 256);
            assert_eq!(size, 512);
            assert!(b_pub_key_id);
            assert_eq!(timeout, 1_000_000);
        }
        _ => panic!("expected a target-info request"),
    }
    assert_eq!(
        set_request(ReqKind::TInfo, None, None, Some(512), 8192).unwrap_err(),
        AesmError::MissingKeyId
    );
    assert_eq!(
        set_request(ReqKind::TInfo, None, Some(vec![]), None, 8192).unwrap_err(),
        AesmError::MissingKeySize
    );
    let r = set_request(ReqKind::KeySize, None, Some(vec![1u8]), None, 8192).unwrap();
    match r {
        AesmRequest::KeySize { b_pub_key_id, .. } => assert!(!b_pub_key_id),
        _ => panic!("expected a key-size request"),
    }
    assert_eq!(
        set_request(ReqKind::Quote, None, Some(vec![1u8]), None, 8192).unwrap_err(),
        AesmError::MissingReport
    );
    let r = set_request(ReqKind::Quote, Some(vec![7u8; 432]), Some(vec![1u8]), None, 8192)
        .unwrap();
    match r {
        AesmRequest::Quote { report, buf_size, .. } => {
            assert_eq!(report.len(), 432);
            assert_eq!(buf_size, 8192);
        }
        _ => panic!("expected a quote request"),
    }
}

#[test]
fn aesm_key_ids_and_codes() {
    assert!(check_error_code(0).is_ok());
    assert_eq!(check_error_code(13).unwrap_err(), AesmError::ErrorCode);
    let blob: Vec<u8> = (0..=255u8).collect();
    let key = select_key_id(1, blob.clone()).unwrap();
    assert_eq!(key, blob);
    assert_eq!(select_key_id(2, blob.clone()).unwrap_err(), AesmError::KeyIdCount);
    assert_eq!(select_key_id(1, vec![0u8; 600]).unwrap_err(), AesmError::KeyIdCount);
    assert_eq!(attestation_kind(0), AttestationKind::TargetInfo);
    assert_eq!(attestation_kind(7), AttestationKind::Quote);
}

#[test]
fn error_messages() {
    assert_eq!(VfsError::NotSupported.msg(), "not supported");
    assert_eq!(VfsError::InvalidArgument.msg(), "invalid argument");
    assert_eq!(VfsError::NotDir.msg(), "not a directory");
    assert_eq!(VfsError::Permission.msg(), "permission denied");
    assert_eq!(VfsError::Exist.msg(), "entry exists");
    assert_eq!(VfsError::Io.msg(), "i/o error");
    assert_eq!(VfsError::NotFound.msg(), "not found");
}
