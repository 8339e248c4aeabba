//! Identity derivation and certificate planning: peer identity from a
//! certificate subject, digest re-encoding, self-signed planning, and the
//! signing service checks.

use enarx::identity::{
    certificate_chain, csr_params, curve_for, digest_urlsafe, hash_for, key_hash, selfsigned,
    steward_check_url, steward_response, subject_cn, unurlsafe, Curve, HashAlg, IdentityError,
    Peer, Technology,
};
use enarx::workload::{workload_ref, Package, PackageSpec};

/// One DER TLV with a single-byte tag.
fn tlv(tag: u8, content: &[u8]) -> Vec<u8> {
    let mut out = vec![tag];
    let n = content.len();
    if n < 128 {
        out.push(n as u8);
    } else {
        assert!(n < 256);
        out.push(0x81);
        out.push(n as u8);
    }
    out.extend_from_slice(content);
    out
}

/// AlgorithmIdentifier for ecdsa-with-SHA256, no parameters.
fn algorithm() -> Vec<u8> {
    tlv(0x30, &tlv(0x06, &[0x2a, 0x86, 0x48, 0xce, 0x3d, 0x04, 0x03, 0x02]))
}

/// A minimal DER certificate whose subject carries one common name.
fn cert_with_cn(cn: &str) -> Vec<u8> {
    let serial = tlv(0x02, &[1]);
    let issuer = tlv(0x30, &[]);
    let utc: Vec<u8> = [
        tlv(0x17, b"250101000000Z"),
        tlv(0x17, b"260101000000Z"),
    ]
    .concat();
    let validity = tlv(0x30, &utc);
    let atv: Vec<u8> = [tlv(0x06, &[0x55, 0x04, 0x03]), tlv(0x0c, cn.as_bytes())].concat();
    let subject = tlv(0x30, &tlv(0x31, &tlv(0x30, &atv)));
    let spki_body: Vec<u8> = [algorithm(), tlv(0x03, &[0x00, 0x01])].concat();
    let spki = tlv(0x30, &spki_body);
    let tbs_body: Vec<u8> = [serial, algorithm(), issuer, validity, subject, spki].concat();
    let tbs = tlv(0x30, &tbs_body);
    let cert_body: Vec<u8> = [tbs, algorithm(), tlv(0x03, &[0x00, 0x01])].concat();
    tlv(0x30, &cert_body)
}

#[test]
fn from_certs_empty_chain_is_anonymous() {
    assert_eq!(Peer::from_certs(&Vec::new()).unwrap(), Peer::Anonymous);
}

#[test]
fn from_certs_keep_identity() {
    // CN "myapp@AbCd_12-" yields Keep with the URL-safe substitution
    // reversed on the digest.
    let certs = vec![cert_with_cn("myapp@AbCd_12-")];
    let p = Peer::from_certs(&certs).unwrap();
    assert_eq!(
        p,
        Peer::Keep { workload: "myapp".to_string(), digest: "AbCd/12+".to_string() }
    );
}

#[test]
fn from_certs_localhost_is_local() {
    let certs = vec![cert_with_cn("localhost@XYZ")];
    let p = Peer::from_certs(&certs).unwrap();
    assert_eq!(p, Peer::Local { digest: "XYZ".to_string() });
}

#[test]
fn from_certs_splits_at_last_at_sign() {
    let certs = vec![cert_with_cn("user@host@DiG_-")];
    let p = Peer::from_certs(&certs).unwrap();
    assert_eq!(
        p,
        Peer::Keep { workload: "user@host".to_string(), digest: "DiG/+".to_string() }
    );
}

#[test]
fn from_certs_error_cases() {
    // Not a certificate at all.
    let r = Peer::from_certs(&vec![vec![0u8, 1, 2]]);
    assert_eq!(r.unwrap_err(), IdentityError::InvalidCertificate);
    // A common name without the separator.
    let r = Peer::from_certs(&vec![cert_with_cn("nodigest")]);
    assert_eq!(r.unwrap_err(), IdentityError::MalformedSubject);
    // A certificate whose subject has no common name is anonymous.
    let serial = tlv(0x02, &[1]);
    let issuer = tlv(0x30, &[]);
    let utc: Vec<u8> = [
        tlv(0x17, b"250101000000Z"),
        tlv(0x17, b"260101000000Z"),
    ]
    .concat();
    let validity = tlv(0x30, &utc);
    let subject = tlv(0x30, &[]);
    let spki_body: Vec<u8> = [algorithm(), tlv(0x03, &[0x00, 0x01])].concat();
    let spki = tlv(0x30, &spki_body);
    let tbs_body: Vec<u8> = [serial, algorithm(), issuer, validity, subject, spki].concat();
    let tbs = tlv(0x30, &tbs_body);
    let cert_body: Vec<u8> = [tbs, algorithm(), tlv(0x03, &[0x00, 0x01])].concat();
    let cert = tlv(0x30, &cert_body);
    assert_eq!(Peer::from_certs(&vec![cert]).unwrap(), Peer::Anonymous);
}

#[test]
fn digest_substitutions() {
    assert_eq!(digest_urlsafe("AbCd/12+=="), "AbCd_12-");
    assert_eq!(digest_urlsafe("plain"), "plain");
    assert_eq!(unurlsafe("AbCd_12-"), "AbCd/12+");
    assert_eq!(unurlsafe("XYZ"), "XYZ");
}

#[test]
fn technology_parameters() {
    assert_eq!(curve_for(Technology::Snp), Curve::P384);
    assert_eq!(curve_for(Technology::Sgx), Curve::P256);
    assert_eq!(curve_for(Technology::Kvm), Curve::P256);
    assert_eq!(hash_for(Technology::Snp), HashAlg::Sha384);
    assert_eq!(hash_for(Technology::Sgx), HashAlg::Sha256);
}

#[test]
fn key_hash_layout() {
    // SHA-256 of the empty input, then zeroes up to 64 bytes.
    let h = key_hash(Technology::Kvm, &[]);
    assert_eq!(h.len(), 64);
    let expected_prefix = [
        0xe3u8, 0xb0, 0xc4, 0x42, 0x98, 0xfc, 0x1c, 0x14, 0x9a, 0xfb, 0xf4, 0xc8, 0x99, 0x6f,
        0xb9, 0x24, 0x27, 0xae, 0x41, 0xe4, 0x64, 0x9b, 0x93, 0x4c, 0xa4, 0x95, 0x99, 0x1b,
        0x78, 0x52, 0xb8, 0x55,
    ];
    assert_eq!(&h[..32], &expected_prefix);
    assert!(h[32..].iter().all(|b| *b == 0));
    // SHA-384 under SNP fills 48 bytes.
    let h = key_hash(Technology::Snp, b"abc");
    assert_eq!(h.len(), 64);
    assert!(h[..48].iter().any(|b| *b != 0));
    assert!(h[48..].iter().all(|b| *b == 0));
}

#[test]
fn subject_lines() {
    assert_eq!(subject_cn("myapp", "AbCd/12+=="), "CN=myapp@AbCd_12-");
    let pkg = Package::Remote(PackageSpec::Slug("alice/app:1".to_string()));
    assert_eq!(workload_ref(&pkg), "alice/app:1");
    let pkg = Package::Remote(PackageSpec::Url("https://x/y".to_string()));
    assert_eq!(workload_ref(&pkg), "https://x/y");
    let pkg = Package::Local { wasm: 3, conf: None };
    assert_eq!(workload_ref(&pkg), "localhost");
    let p = csr_params("myapp", "AbCd/12+", Technology::Sgx, vec![9, 9]);
    assert_eq!(p.subject, "CN=myapp@AbCd_12-");
    assert!(!p.critical);
    assert_eq!(p.evidence, vec![9, 9]);
}

#[test]
fn selfsigned_plans_one_certificate() {
    // With no remote signing URL configured, exactly one certificate is
    // produced: CA false, valid one year, 16-byte random serial.
    let chain = selfsigned("myapp", "AbCd/12+").unwrap();
    assert_eq!(chain.len(), 1);
    let c = &chain[0];
    assert!(!c.ca);
    assert_eq!(c.validity_secs, 60 * 60 * 24 * 365);
    assert_eq!(c.serial.len(), 16);
    assert_eq!(c.subject, "CN=myapp@AbCd_12-");
    assert!(c.usage_digital_signature && c.usage_key_encipherment);
    assert!(c.eku_server_auth && c.eku_client_auth);
}

#[test]
fn steward_url_policy() {
    assert!(steward_check_url("https://attest.example").is_ok());
    assert!(steward_check_url("HTTPS://attest.example").is_ok());
    assert_eq!(
        steward_check_url("http://attest.example").unwrap_err(),
        IdentityError::Trust
    );
    assert_eq!(steward_check_url("not a url").unwrap_err(), IdentityError::Trust);
}

#[test]
fn steward_chain_is_reversed_leaf_first() {
    let a = cert_with_cn("a@1");
    let b = cert_with_cn("b@2");
    let path: Vec<u8> = tlv(0x30, &[a.clone(), b.clone()].concat());
    let chain = steward_response(&path).unwrap();
    assert_eq!(chain, vec![b, a]);
    assert_eq!(
        steward_response(&[1, 2, 3]).unwrap_err(),
        IdentityError::InvalidChain
    );
}

#[test]
fn chain_choice() {
    let s = vec![vec![1u8]];
    let own = vec![vec![2u8]];
    assert_eq!(certificate_chain(Some(s.clone()), own.clone()), s);
    assert_eq!(certificate_chain(None, own.clone()), own);
}
