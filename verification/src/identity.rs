//! Keep identity: key parameters, certificate requests, self-signed
//! certificates, the remote signing service, and the structured peer
//! identity derived from a certificate subject.
//!
//! The identity read from a peer's certificate is taken from the subject
//! fields of the first certificate as presented.  No verification of the
//! chain's signatures happens at this layer; this is a known trust-boundary
//! limitation of the design, kept as an explicit open question rather than
//! silently corrected here.

use crate::strutil::{lower_seq, push_char, str_eq, str_eq_ignore_ascii_case};
use sha2::Digest;
use vstd::prelude::*;
use x509_cert::der::{Decode, Encode};

verus! {

/// Identity attributed to a socket's remote party.
///
/// Derived from the common name `"<label>@<digest>"` of the first
/// certificate of the peer's chain; `digest` is carried in a URL-safe
/// base64 spelling that is reversed on extraction.
#[derive(Clone, Debug, PartialEq, Eq)]
pub enum Peer {
    /// No certificate was presented.
    Anonymous,
    /// The subject label is the literal `localhost`.
    Local {
        /// Workload content digest, standard base64 alphabet.
        digest: String,
    },
    /// Any other subject label: a remote keep.
    Keep {
        /// Workload reference from the subject label.
        workload: String,
        /// Workload content digest, standard base64 alphabet.
        digest: String,
    },
}

/// Failures of the identity subsystem.
#[derive(Clone, Copy, Debug, PartialEq, Eq, Structural)]
pub enum IdentityError {
    /// A presented certificate could not be parsed.
    InvalidCertificate,
    /// The subject common name lacks the `@` separator.
    MalformedSubject,
    /// The remote signing service URL is not encrypted.
    Trust,
    /// Randomness acquisition failed.
    Random,
    /// The signing service response is not a certificate path.
    InvalidChain,
}

/// Reverses the URL-safe base64 substitution on one character.
pub open spec fn unurlsafe_char(c: char) -> char {
    if c == '-' {
        '+'
    } else if c == '_' {
        '/'
    } else {
        c
    }
}

/// Reverses the URL-safe base64 substitution.
pub open spec fn unurlsafe_seq(s: Seq<char>) -> Seq<char> {
    s.map_values(|c: char| unurlsafe_char(c))
}

/// Applies the URL-safe base64 substitution to one character.
pub open spec fn urlsafe_char(c: char) -> char {
    if c == '+' {
        '-'
    } else if c == '/' {
        '_'
    } else {
        c
    }
}

/// Applies the URL-safe base64 substitution.
pub open spec fn urlsafe_seq(s: Seq<char>) -> Seq<char> {
    s.map_values(|c: char| urlsafe_char(c))
}

/// The string with its trailing base64 padding removed.
pub open spec fn strip_padding(s: Seq<char>) -> Seq<char>
    decreases s.len(),
{
    if s.len() > 0 && s.last() == '=' {
        strip_padding(s.drop_last())
    } else {
        s
    }
}

/// The digest spelling embedded in subjects: padding stripped, then the
/// URL-safe substitution applied.
pub open spec fn digest_urlsafe_spec(s: Seq<char>) -> Seq<char> {
    urlsafe_seq(strip_padding(s))
}

/// Reverses the URL-safe substitution on a digest read from a subject.
pub fn unurlsafe(s: &str) -> (r: String)
    ensures
        r@ == unurlsafe_seq(s@),
{
    let n = s.unicode_len();
    let mut out = String::new();
    let mut i: usize = 0;
    while i < n
        invariant
            n == s@.len(),
            i <= n,
            out@ == unurlsafe_seq(s@.take(i as int)),
        decreases n - i,
    {
        let c = s.get_char(i);
        let m = if c == '-' {
            '+'
        } else if c == '_' {
            '/'
        } else {
            c
        };
        push_char(&mut out, m);
        proof {
            assert(unurlsafe_seq(s@.take(i + 1)) =~= unurlsafe_seq(s@.take(i as int)) + seq![
                unurlsafe_char(s@[i as int]),
            ]);
        }
        i += 1;
    }
    proof {
        assert(s@.take(n as int) =~= s@);
    }
    out
}

/// Re-encodes a standard-base64 digest for embedding in a subject:
/// strips the trailing padding and applies the URL-safe substitution.
pub fn digest_urlsafe(s: &str) -> (r: String)
    ensures
        r@ == digest_urlsafe_spec(s@),
{
    let n = s.unicode_len();
    proof {
        assert(s@.take(n as int) =~= s@);
    }
    let mut end: usize = n;
    while end > 0 && s.get_char(end - 1) == '='
        invariant
            n == s@.len(),
            end <= n,
            strip_padding(s@) == strip_padding(s@.take(end as int)),
        decreases end,
    {
        proof {
            assert(s@.take(end as int).drop_last() =~= s@.take(end - 1));
        }
        end -= 1;
    }
    proof {
        assert(s@.take(n as int) =~= s@);
        assert(strip_padding(s@) == s@.take(end as int));
    }
    let mut out = String::new();
    let mut i: usize = 0;
    while i < end
        invariant
            end <= n,
            n == s@.len(),
            i <= end,
            strip_padding(s@) == s@.take(end as int),
            out@ == urlsafe_seq(s@.take(end as int).take(i as int)),
        decreases end - i,
    {
        let c = s.get_char(i);
        let m = if c == '+' {
            '-'
        } else if c == '/' {
            '_'
        } else {
            c
        };
        push_char(&mut out, m);
        proof {
            assert(s@.take(end as int).take(i + 1).drop_last() =~= s@.take(end as int).take(
                i as int,
            ));
            assert(s@.take(end as int).take(i + 1).last() == s@[i as int]);
            assert(urlsafe_seq(s@.take(end as int).take(i + 1)) =~= urlsafe_seq(
                s@.take(end as int).take(i as int),
            ) + seq![urlsafe_char(s@[i as int])]);
        }
        i += 1;
    }
    proof {
        assert(s@.take(end as int).take(end as int) =~= s@.take(end as int));
    }
    out
}

/// The subject attributes of a DER-encoded certificate, in order: each
/// attribute's dotted object identifier and, when the value is a UTF-8
/// string, that string.
pub uninterp spec fn subject_attrs_of(der: Seq<u8>) -> Option<
    Seq<(Seq<char>, Option<Seq<char>>)>,
>;

/// View of an extracted attribute list.
pub open spec fn attrs_view(v: Seq<(String, Option<String>)>) -> Seq<
    (Seq<char>, Option<Seq<char>>),
> {
    v.map_values(
        |p: (String, Option<String>)|
            (
                p.0@,
                match p.1 {
                    Some(s) => Some(s@),
                    None => None,
                },
            ),
    )
}

/// Relies on `x509_cert::Certificate::from_der` and the subject accessors:
/// parses the certificate and hands out each subject attribute as its
/// dotted OID text and its UTF-8 string value, in subject order.  `None`
/// when the bytes are not a DER certificate.
#[verifier::external_body]
fn subject_attrs(der: &[u8]) -> (r: Option<Vec<(String, Option<String>)>>)
    ensures
        match (r, subject_attrs_of(der@)) {
            (Some(v), Some(s)) => attrs_view(v@) == s,
            (None, None) => true,
            _ => false,
        },
{
    let cert = x509_cert::Certificate::from_der(der).ok()?;
    let mut out: Vec<(String, Option<String>)> = Vec::new();
    for atv in cert.tbs_certificate().subject().iter() {
        let value = atv.value.decode_as::<x509_cert::der::asn1::Utf8StringRef<'_>>().ok();
        out.push((atv.oid.to_string(), value.map(|s| s.as_str().to_owned())));
    }
    Some(out)
}

/// The common-name values among the subject attributes, in order.
pub open spec fn cn_values(attrs: Seq<(Seq<char>, Option<Seq<char>>)>) -> Seq<Seq<char>>
    decreases attrs.len(),
{
    if attrs.len() == 0 {
        Seq::empty()
    } else {
        let rest = cn_values(attrs.drop_last());
        if attrs.last().0 == "2.5.4.3"@ && attrs.last().1 is Some {
            rest.push(attrs.last().1.unwrap())
        } else {
            rest
        }
    }
}

/// Whether a peer identity is the one a subject common name denotes:
/// split at the last `@`, the left side is the label, the right side the
/// digest after reversing the URL-safe substitution; the literal label
/// `localhost` denotes a local peer.
pub open spec fn peer_matches_cn(p: Peer, cn: Seq<char>) -> bool {
    match cn.index_of_last('@') {
        None => false,
        Some(i) => {
            let label = cn.take(i);
            let digest = cn.skip(i + 1);
            if label == "localhost"@ {
                p matches Peer::Local { digest: d } && d@ == unurlsafe_seq(digest)
            } else {
                p matches Peer::Keep { workload: w, digest: d } && w@ == label && d@
                    == unurlsafe_seq(digest)
            }
        },
    }
}

impl Peer {
    /// Derives the peer identity from a certificate chain: an empty chain
    /// is anonymous; otherwise the first certificate's subject common
    /// name `"<label>@<digest>"` decides, with no cryptographic
    /// verification of the chain performed here.
    pub fn from_certs(certs: &Vec<Vec<u8>>) -> (r: Result<Peer, IdentityError>)
        ensures
            certs@.len() == 0 ==> r == Ok::<Peer, IdentityError>(Peer::Anonymous),
            certs@.len() > 0 ==> match subject_attrs_of(certs@[0]@) {
                None => r == Err::<Peer, IdentityError>(IdentityError::InvalidCertificate),
                Some(attrs) => {
                    if cn_values(attrs).len() == 0 {
                        r == Ok::<Peer, IdentityError>(Peer::Anonymous)
                    } else if cn_values(attrs)[0].index_of_last('@') is None {
                        r == Err::<Peer, IdentityError>(IdentityError::MalformedSubject)
                    } else {
                        r matches Ok(p) && peer_matches_cn(p, cn_values(attrs)[0])
                    }
                },
            },
    {
        if certs.len() == 0 {
            return Ok(Peer::Anonymous);
        }
        let attrs = match subject_attrs(certs[0].as_slice()) {
            Some(a) => a,
            None => {
                return Err(IdentityError::InvalidCertificate);
            },
        };
        let ghost av = attrs_view(attrs@);
        let mut names: Vec<String> = Vec::new();
        let n = attrs.len();
        let mut i: usize = 0;
        while i < n
            invariant
                n == attrs@.len(),
                i <= n,
                av == attrs_view(attrs@),
                av.len() == n,
                names@.map_values(|s: String| s@) == cn_values(av.take(i as int)),
            decreases n - i,
        {
            proof {
                assert(av[i as int] == attrs_view(attrs@)[i as int]);
                assert(av.take(i + 1).drop_last() =~= av.take(i as int));
            }
            let keep = match &attrs[i].1 {
                Some(_) => str_eq(attrs[i].0.as_str(), "2.5.4.3"),
                None => false,
            };
            if keep {
                let value = match &attrs[i].1 {
                    Some(v) => v.clone(),
                    None => String::new(),
                };
                names.push(value);
            }
            proof {
                assert(names@.map_values(|s: String| s@) =~= cn_values(av.take(i + 1)));
            }
            i += 1;
        }
        proof {
            assert(av.take(n as int) =~= av);
        }
        if names.len() == 0 {
            return Ok(Peer::Anonymous);
        }
        let cn: &String = &names[0];
        proof {
            assert(cn@ == names@.map_values(|s: String| s@)[0]);
            cn@.index_of_last_ensures('@');
        }
        let cs = cn.as_str();
        let cl = cs.unicode_len();
        match crate::strutil::find_last(cs, '@') {
            None => {
                proof {
                    if cn@.contains('@') {
                        let j = choose|j: int| 0 <= j < cn@.len() && cn@[j] == '@';
                        assert(cn@[j] == '@');
                    }
                }
                Err(IdentityError::MalformedSubject)
            },
            Some(at) => {
                proof {
                    assert(cn@.index_of_last('@') == Some(at as int));
                }
                let label = cs.substring_char(0, at);
                let digest_raw = cs.substring_char(at + 1, cl);
                let digest = unurlsafe(digest_raw);
                if str_eq(label, "localhost") {
                    Ok(Peer::Local { digest })
                } else {
                    Ok(Peer::Keep { workload: String::from_str(label), digest })
                }
            },
        }
    }
}

/// TEE technologies the platform can report.
#[derive(Clone, Copy, Debug, PartialEq, Eq, Structural)]
pub enum Technology {
    /// AMD SEV-SNP.
    Snp,
    /// Intel SGX.
    Sgx,
    /// Plain KVM.
    Kvm,
}

/// Elliptic curves the key pair can use.
#[derive(Clone, Copy, Debug, PartialEq, Eq, Structural)]
pub enum Curve {
    /// NIST P-384, used under the strongest technology.
    P384,
    /// NIST P-256, used otherwise.
    P256,
}

/// Digest algorithms used over the public key.
#[derive(Clone, Copy, Debug, PartialEq, Eq, Structural)]
pub enum HashAlg {
    /// SHA-384, matched with P-384.
    Sha384,
    /// SHA-256, matched with P-256.
    Sha256,
}

/// The curve the key pair is generated on: a stronger curve for SNP, the
/// standard curve otherwise.
pub fn curve_for(t: Technology) -> (r: Curve)
    ensures
        (r is P384) <==> (t is Snp),
{
    match t {
        Technology::Snp => Curve::P384,
        Technology::Sgx => Curve::P256,
        Technology::Kvm => Curve::P256,
    }
}

/// The digest algorithm matched to the technology.
pub fn hash_for(t: Technology) -> (r: HashAlg)
    ensures
        (r is Sha384) <==> (t is Snp),
{
    match t {
        Technology::Snp => HashAlg::Sha384,
        Technology::Sgx => HashAlg::Sha256,
        Technology::Kvm => HashAlg::Sha256,
    }
}

/// SHA-256 digest of the given bytes.
pub uninterp spec fn sha256_of(data: Seq<u8>) -> Seq<u8>;

/// SHA-384 digest of the given bytes.
pub uninterp spec fn sha384_of(data: Seq<u8>) -> Seq<u8>;

/// Relies on `sha2::Sha256`: the digest depends on the input alone and is
/// 32 bytes long.
#[verifier::external_body]
fn sha256(data: &[u8]) -> (r: Vec<u8>)
    ensures
        r@ == sha256_of(data@),
        r@.len() == 32,
{
    sha2::Sha256::digest(data).to_vec()
}

/// Relies on `sha2::Sha384`: the digest depends on the input alone and is
/// 48 bytes long.
#[verifier::external_body]
fn sha384(data: &[u8]) -> (r: Vec<u8>)
    ensures
        r@ == sha384_of(data@),
        r@.len() == 48,
{
    sha2::Sha384::digest(data).to_vec()
}

/// The 64-byte buffer handed to the attestation primitive: the public
/// key's digest, chosen per technology, followed by zeroes.
pub open spec fn key_hash_spec(t: Technology, der: Seq<u8>) -> Seq<u8> {
    let h = if t is Snp {
        sha384_of(der)
    } else {
        sha256_of(der)
    };
    h + Seq::new((64 - h.len()) as nat, |i: int| 0u8)
}

/// Digests the public key per the technology and lays the digest at the
/// front of a 64-byte zero-filled buffer.
pub fn key_hash(t: Technology, der: &[u8]) -> (r: Vec<u8>)
    ensures
        r@ == key_hash_spec(t, der@),
        r@.len() == 64,
{
    let mut h = match t {
        Technology::Snp => sha384(der),
        Technology::Sgx => sha256(der),
        Technology::Kvm => sha256(der),
    };
    let ghost digest = h@;
    let hl = h.len();
    let mut i: usize = hl;
    while i < 64
        invariant
            hl == digest.len(),
            hl <= 64,
            hl <= i <= 64,
            h@ == digest + Seq::new((i - hl) as nat, |j: int| 0u8),
        decreases 64 - i,
    {
        h.push(0u8);
        proof {
            assert(h@ =~= digest + Seq::new((i + 1 - hl) as nat, |j: int| 0u8));
        }
        i += 1;
    }
    proof {
        assert(h@ =~= key_hash_spec(t, der@));
    }
    h
}

/// The subject line of the keep's certificates:
/// `CN=<workload-reference>@<digest>`, the digest re-encoded URL-safe
/// with padding stripped.
pub open spec fn subject_line(workload_ref: Seq<char>, digest_b64: Seq<char>) -> Seq<char> {
    "CN="@ + workload_ref + "@"@ + digest_urlsafe_spec(digest_b64)
}

/// Builds the subject line for a workload reference and its content
/// digest in standard base64.
pub fn subject_cn(workload_ref: &str, digest_b64: &str) -> (r: String)
    ensures
        r@ == subject_line(workload_ref@, digest_b64@),
{
    let mut out = String::new();
    out.append("CN=");
    out.append(workload_ref);
    out.append("@");
    let d = digest_urlsafe(digest_b64);
    out.append(d.as_str());
    proof {
        assert(out@ =~= subject_line(workload_ref@, digest_b64@));
    }
    out
}

/// What a certificate signing request carries besides the key: the
/// subject line and one non-critical extension whose identifier encodes
/// the technology and whose value is the raw attestation evidence.
#[derive(Debug)]
pub struct CsrParams {
    /// Subject line, `CN=<ref>@<digest>`.
    pub subject: String,
    /// Technology whose identifier tags the evidence extension.
    pub technology: Technology,
    /// Raw attestation evidence bytes.
    pub evidence: Vec<u8>,
    /// The evidence extension is never critical.
    pub critical: bool,
}

/// Assembles the request parameters: the subject line built from the
/// workload reference and digest, and the attestation evidence as one
/// non-critical extension tagged with the technology.
pub fn csr_params(workload_ref: &str, digest_b64: &str, t: Technology, evidence: Vec<u8>) -> (r:
    CsrParams)
    ensures
        r.subject@ == subject_line(workload_ref@, digest_b64@),
        r.technology == t,
        r.evidence@ == evidence@,
        r.critical == false,
{
    CsrParams { subject: subject_cn(workload_ref, digest_b64), technology: t, evidence, critical: false }
}

/// One self-signed certificate to issue: subject and issuer are the same
/// line; usages and validity are fixed by this layer.
#[derive(Debug)]
pub struct CertPlan {
    /// Subject line, also the issuer line.
    pub subject: String,
    /// 16-byte random serial number.
    pub serial: Vec<u8>,
    /// Validity in seconds from issuance.
    pub validity_secs: u64,
    /// Never a certificate authority.
    pub ca: bool,
    /// Key usage: digital signature.
    pub usage_digital_signature: bool,
    /// Key usage: key encipherment.
    pub usage_key_encipherment: bool,
    /// Extended usage: server authentication.
    pub eku_server_auth: bool,
    /// Extended usage: client authentication.
    pub eku_client_auth: bool,
}

/// Relies on `getrandom::fill`: fills the buffer with random bytes, or
/// reports failure of the randomness source.
#[verifier::external_body]
fn random_serial() -> (r: Result<Vec<u8>, IdentityError>)
    ensures
        r matches Ok(v) ==> v@.len() == 16,
{
    let mut buf = [0u8; 16];
    match getrandom::fill(&mut buf) {
        Ok(()) => Ok(buf.to_vec()),
        Err(_) => Err(IdentityError::Random),
    }
}

/// Number of seconds in the one-year validity window.
pub const YEAR_SECS: u64 = 31536000;

/// Plans the keep's self-signed chain: exactly one certificate, subject
/// equal to issuer, valid one year, `CA:false`, key usages limited to
/// digital signature and key encipherment, extended usages for server and
/// client authentication, and a 128-bit random serial.  Fails only when
/// randomness acquisition fails.
pub fn selfsigned(workload_ref: &str, digest_b64: &str) -> (r: Result<Vec<CertPlan>, IdentityError>)
    ensures
        match r {
            Ok(v) => {
                &&& v@.len() == 1
                &&& v@[0].subject@ == subject_line(workload_ref@, digest_b64@)
                &&& v@[0].serial@.len() == 16
                &&& v@[0].validity_secs == YEAR_SECS
                &&& v@[0].ca == false
                &&& v@[0].usage_digital_signature && v@[0].usage_key_encipherment
                &&& v@[0].eku_server_auth && v@[0].eku_client_auth
            },
            Err(e) => e is Random,
        },
{
    let serial = match random_serial() {
        Ok(s) => s,
        Err(_) => {
            return Err(IdentityError::Random);
        },
    };
    let plan = CertPlan {
        subject: subject_cn(workload_ref, digest_b64),
        serial,
        validity_secs: YEAR_SECS,
        ca: false,
        usage_digital_signature: true,
        usage_key_encipherment: true,
        eku_server_auth: true,
        eku_client_auth: true,
    };
    let mut v = Vec::new();
    v.push(plan);
    Ok(v)
}

/// The scheme of a URL string: what stands before the first `:`.
pub open spec fn scheme_of(url: Seq<char>) -> Option<Seq<char>> {
    match url.index_of_first(':') {
        Some(i) => Some(url.take(i)),
        None => None,
    }
}

/// Refuses an unencrypted remote signing service URL: only a URL whose
/// scheme is `https` (compared without case) may carry a signing request.
pub fn steward_check_url(url: &str) -> (r: Result<(), IdentityError>)
    ensures
        match r {
            Ok(()) => scheme_of(url@) matches Some(s) && lower_seq(s) == "https"@,
            Err(e) => e is Trust && !(scheme_of(url@) matches Some(s) && lower_seq(s)
                == "https"@),
        },
{
    proof {
        url@.index_of_first_ensures(':');
        reveal_strlit("https");
    }
    match crate::strutil::find_first(url, ':') {
        None => {
            proof {
                if url@.contains(':') {
                    let j = choose|j: int| 0 <= j < url@.len() && url@[j] == ':';
                    assert(url@[j] == ':');
                }
            }
            Err(IdentityError::Trust)
        },
        Some(i) => {
            proof {
                assert(url@.index_of_first(':') == Some(i as int));
            }
            let scheme = url.substring_char(0, i);
            if str_eq_ignore_ascii_case(scheme, "https") {
                proof {
                    assert(lower_seq("https"@) =~= "https"@);
                }
                Ok(())
            } else {
                proof {
                    assert(lower_seq("https"@) =~= "https"@);
                }
                Err(IdentityError::Trust)
            }
        },
    }
}

/// The certificate path a DER body decodes to: each certificate's bytes,
/// in transport order.  `None` when the body is not a certificate path.
pub uninterp spec fn pki_path_of(der: Seq<u8>) -> Option<Seq<Seq<u8>>>;

/// Relies on `x509_cert::PkiPath` decoding: splits a DER `SEQUENCE OF
/// Certificate` into the individual certificates' bytes, in order.
#[verifier::external_body]
fn split_pki_path(body: &[u8]) -> (r: Option<Vec<Vec<u8>>>)
    ensures
        match (r, pki_path_of(body@)) {
            (Some(v), Some(s)) => v.deep_view() == s,
            (None, None) => true,
            _ => false,
        },
{
    let path = x509_cert::PkiPath::from_der(body).ok()?;
    let mut out: Vec<Vec<u8>> = Vec::new();
    for cert in path.iter() {
        out.push(cert.to_der().ok()?);
    }
    Some(out)
}

/// Decodes the signing service's response as an ordered certificate path
/// and returns it leaf-first, reversing the transport order.
pub fn steward_response(body: &[u8]) -> (r: Result<Vec<Vec<u8>>, IdentityError>)
    ensures
        match pki_path_of(body@) {
            Some(s) => r matches Ok(v) && v.deep_view() == s.reverse(),
            None => r == Err::<Vec<Vec<u8>>, IdentityError>(IdentityError::InvalidChain),
        },
{
    let mut parts = match split_pki_path(body) {
        Some(p) => p,
        None => {
            return Err(IdentityError::InvalidChain);
        },
    };
    let ghost orig = parts.deep_view();
    let mut out: Vec<Vec<u8>> = Vec::new();
    proof {
        assert(parts.deep_view() =~= orig.take(parts@.len() as int));
        assert(out.deep_view() =~= orig.skip(parts@.len() as int).reverse());
    }
    while parts.len() > 0
        invariant
            parts@.len() <= orig.len(),
            parts.deep_view() =~= orig.take(parts@.len() as int),
            out.deep_view() =~= orig.skip(parts@.len() as int).reverse(),
        decreases parts@.len(),
    {
        let ghost k = parts@.len() as int;
        proof {
            assert(parts.deep_view()[k - 1] == parts@[k - 1].deep_view());
            assert(orig.take(k)[k - 1] == orig[k - 1]);
        }
        if let Some(item) = parts.pop() {
            proof {
                assert(item.deep_view() == orig[k - 1]);
                assert(parts.deep_view() =~= orig.take(k - 1));
            }
            let ghost prev = out.deep_view();
            out.push(item);
            proof {
                let cur = out.deep_view();
                let tgt = orig.skip(k - 1).reverse();
                assert(prev =~= orig.skip(k).reverse());
                assert(0 <= k - 1 <= orig.len());
                assert(orig.skip(k - 1).len() == orig.len() - k + 1);
                assert(orig.skip(k - 1).reverse().len() == orig.len() - k + 1);
                assert(prev.len() == orig.len() - k);
                assert(cur.len() == prev.len() + 1);
                assert(cur.len() == tgt.len());
                assert forall|j: int| 0 <= j < cur.len() implies cur[j] == tgt[j] by {
                    assert(tgt[j] == orig.skip(k - 1)[orig.len() - k + 1 - 1 - j]);
                    if j < cur.len() - 1 {
                        assert(cur[j] == prev[j]);
                        assert(prev[j] == orig.skip(k)[orig.len() - k - 1 - j]);
                        assert(orig.skip(k)[orig.len() - k - 1 - j] == orig[orig.len() - 1 - j]);
                        assert(orig.skip(k - 1)[orig.len() - k - j] == orig[orig.len() - 1 - j]);
                    } else {
                        assert(cur[j] == item.deep_view());
                        assert(orig.skip(k - 1)[0] == orig[k - 1]);
                    }
                }
                assert(cur =~= tgt);
            }
        }
    }
    proof {
        assert(out.deep_view() =~= orig.reverse());
    }
    Ok(out)
}

/// The chain the keep uses: the signing service's when one was consulted,
/// the self-signed chain otherwise.
pub fn certificate_chain(steward_chain: Option<Vec<Vec<u8>>>, selfsigned_chain: Vec<Vec<u8>>) -> (r:
    Vec<Vec<u8>>)
    ensures
        match steward_chain {
            Some(c) => r == c,
            None => r == selfsigned_chain,
        },
{
    match steward_chain {
        Some(c) => c,
        None => selfsigned_chain,
    }
}

} // verus!
