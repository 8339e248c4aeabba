//! Workload definitions: package references, slug parsing, and the
//! validation rules applied to fetched content.
//!
//! Fetching itself is an external collaborator's job; this module decides
//! what a slug denotes, which media types are acceptable, and when sizes
//! and metadata agree.

use crate::config::Config;
use crate::strutil::{find_last, str_eq};
use vstd::prelude::*;

verus! {

/// Host used when a slug does not name one.
pub const DEFAULT_HOST: &'static str = "store.profian.com";

/// Version segment of the package API paths.
pub const API_VERSION: &'static str = "0.1.0";

/// Maximum size of a WASM module in bytes.
pub const MAX_WASM_SIZE: u64 = 100000000;

/// Maximum size of a configuration file in bytes.
pub const MAX_CONF_SIZE: u64 = 1000000;

/// Maximum size of a package directory document in bytes.
pub const MAX_DIR_SIZE: u64 = 1000000;

/// Media type of a WASM module.
pub const WASM_MEDIA_TYPE: &'static str = "application/wasm";

/// Media type of a configuration file.
pub const TOML_MEDIA_TYPE: &'static str = "application/toml";

/// Media type of a package directory document.
pub const DIRECTORY_MEDIA_TYPE: &'static str = "application/vnd.drawbridge.directory.v1+json";

/// How a remote package is named.
#[derive(Clone, Debug, PartialEq, Eq)]
pub enum PackageSpec {
    /// A full URL.
    Url(String),
    /// A slug, `[host/]user/repo:tag`.
    Slug(String),
}

/// The package to execute.
#[derive(Clone, Debug, PartialEq, Eq)]
pub enum Package {
    /// Fetched from a remote by its specifier.
    Remote(PackageSpec),
    /// Local package handed over as open file descriptors.
    Local {
        /// Descriptor of the open WASM module.
        wasm: i32,
        /// Descriptor of the open configuration file, if any.
        conf: Option<i32>,
    },
}

/// Content of an acquired workload.
pub struct WorkloadContent {
    /// The WASM module bytes.
    pub webasm: Vec<u8>,
    /// The keep configuration, when the package carries one.
    pub config: Option<Config>,
}

/// An acquired workload: its content digest and its content.
pub struct Workload {
    /// Workload content digest, standard base64.
    pub digest: String,
    /// Workload content.
    pub content: WorkloadContent,
}

/// Validation failures of workload acquisition.
#[derive(Clone, Copy, Debug, PartialEq, Eq, Structural)]
pub enum WorkloadError {
    /// A repository specification lacks its `/`.
    MissingRepoSlash,
    /// A tag specification lacks its `:`.
    MissingTagColon,
    /// A size exceeds its limit.
    TooLarge,
    /// A media type is not the expected one.
    BadMediaType,
    /// Fetched metadata does not match the directory entry.
    MetaMismatch,
    /// The fetched byte count does not match the announced size.
    SizeMismatch,
    /// Signed tags are not supported.
    SignedTag,
    /// The tag's root entry has an unsupported media type.
    UnsupportedRootType,
    /// The package directory does not contain the entrypoint.
    MissingEntrypoint,
}

/// The `(host, user)` split of a user specification: the part after the
/// last `/` is the user; without one, the default host is used.
pub open spec fn user_split(s: Seq<char>) -> (Seq<char>, Seq<char>) {
    match s.index_of_last('/') {
        Some(i) => (s.take(i), s.skip(i + 1)),
        None => ("store.profian.com"@, s),
    }
}

/// Splits a user specification into host and user, defaulting the host.
pub fn parse_user<'a>(slug: &'a str) -> (r: (String, &'a str))
    ensures
        r.0@ == user_split(slug@).0,
        r.1@ == user_split(slug@).1,
{
    proof {
        slug@.index_of_last_ensures('/');
        assert(slug@.subrange(0, slug@.len() as int) =~= slug@);
    }
    let n = slug.unicode_len();
    match find_last(slug, '/') {
        Some(i) => {
            proof {
                assert(slug@.index_of_last('/') == Some(i as int));
            }
            (String::from_str(slug.substring_char(0, i)), slug.substring_char(i + 1, n))
        },
        None => {
            proof {
                if slug@.contains('/') {
                    let j = choose|j: int| 0 <= j < slug@.len() && slug@[j] == '/';
                    assert(slug@[j] == '/');
                }
            }
            (String::from_str(DEFAULT_HOST), slug)
        },
    }
}

/// Splits a repository specification `[host/]user/repo`.
pub fn parse_repo<'a>(slug: &'a str) -> (r: Result<(String, &'a str, &'a str), WorkloadError>)
    ensures
        match slug@.index_of_last('/') {
            None => r == Err::<(String, &'a str, &'a str), WorkloadError>(
                WorkloadError::MissingRepoSlash,
            ),
            Some(i) => r matches Ok((host, user, repo)) && host@ == user_split(slug@.take(i)).0
                && user@ == user_split(slug@.take(i)).1 && repo@ == slug@.skip(i + 1),
        },
{
    proof {
        slug@.index_of_last_ensures('/');
        assert(slug@.subrange(0, slug@.len() as int) =~= slug@);
    }
    let n = slug.unicode_len();
    match find_last(slug, '/') {
        None => {
            proof {
                if slug@.contains('/') {
                    let j = choose|j: int| 0 <= j < slug@.len() && slug@[j] == '/';
                    assert(slug@[j] == '/');
                }
            }
            Err(WorkloadError::MissingRepoSlash)
        },
        Some(i) => {
            proof {
                assert(slug@.index_of_last('/') == Some(i as int));
            }
            let head = slug.substring_char(0, i);
            let repo = slug.substring_char(i + 1, n);
            let (host, user) = parse_user(head);
            Ok((host, user, repo))
        },
    }
}

/// Splits a tag specification `[host/]user/repo:tag`.
pub fn parse_tag<'a>(slug: &'a str) -> (r: Result<
    (String, &'a str, &'a str, &'a str),
    WorkloadError,
>)
    ensures
        match slug@.index_of_last(':') {
            None => r == Err::<(String, &'a str, &'a str, &'a str), WorkloadError>(
                WorkloadError::MissingTagColon,
            ),
            Some(i) => {
                let head = slug@.take(i);
                match head.index_of_last('/') {
                    None => r == Err::<(String, &'a str, &'a str, &'a str), WorkloadError>(
                        WorkloadError::MissingRepoSlash,
                    ),
                    Some(j) => r matches Ok((host, user, repo, tag)) && host@ == user_split(
                        head.take(j),
                    ).0 && user@ == user_split(head.take(j)).1 && repo@ == head.skip(j + 1) && tag@
                        == slug@.skip(i + 1),
                }
            },
        },
{
    proof {
        slug@.index_of_last_ensures(':');
        assert(slug@.subrange(0, slug@.len() as int) =~= slug@);
    }
    let n = slug.unicode_len();
    match find_last(slug, ':') {
        None => {
            proof {
                if slug@.contains(':') {
                    let j = choose|j: int| 0 <= j < slug@.len() && slug@[j] == ':';
                    assert(slug@[j] == ':');
                }
            }
            Err(WorkloadError::MissingTagColon)
        },
        Some(i) => {
            proof {
                assert(slug@.index_of_last(':') == Some(i as int));
            }
            let head = slug.substring_char(0, i);
            let tag = slug.substring_char(i + 1, n);
            match parse_repo(head) {
                Ok((host, user, repo)) => Ok((host, user, repo, tag)),
                Err(e) => Err(e),
            }
        },
    }
}

/// The URL a slug denotes:
/// `https://<host>/api/v<version>/<user>/<repo>/_tag/<tag>`.
pub open spec fn slug_url(
    host: Seq<char>,
    user: Seq<char>,
    repo: Seq<char>,
    tag: Seq<char>,
) -> Seq<char> {
    "https://"@ + host + "/api/v"@ + "0.1.0"@ + "/"@ + user + "/"@ + repo + "/_tag/"@ + tag
}

/// Builds the package URL a slug denotes; URL parsing itself is left to
/// the caller.
pub fn parse_slug(slug: &str) -> (r: Result<String, WorkloadError>)
    ensures
        match r {
            Ok(url) => match slug@.index_of_last(':') {
                Some(i) => match slug@.take(i).index_of_last('/') {
                    Some(j) => {
                        let us = user_split(slug@.take(i).take(j));
                        url@ == slug_url(us.0, us.1, slug@.take(i).skip(j + 1), slug@.skip(i + 1))
                    },
                    None => false,
                },
                None => false,
            },
            Err(e) => (e is MissingTagColon && slug@.index_of_last(':') is None) || (e
                is MissingRepoSlash && (slug@.index_of_last(':') matches Some(i) && slug@.take(
                i,
            ).index_of_last('/') is None)),
        },
{
    let (host, user, repo, tag) = match parse_tag(slug) {
        Ok(t) => t,
        Err(e) => {
            return Err(e);
        },
    };
    let mut url = String::new();
    url.append("https://");
    url.append(host.as_str());
    url.append("/api/v");
    url.append(API_VERSION);
    url.append("/");
    url.append(user);
    url.append("/");
    url.append(repo);
    url.append("/_tag/");
    url.append(tag);
    proof {
        assert(url@ =~= slug_url(host@, user@, repo@, tag@));
    }
    Ok(url)
}

/// The workload reference embedded in certificate subjects: the slug or
/// URL of a remote package, the literal `localhost` for a local one.
pub fn workload_ref(pkg: &Package) -> (r: String)
    ensures
        match pkg {
            Package::Remote(PackageSpec::Slug(s)) => r@ == s@,
            Package::Remote(PackageSpec::Url(u)) => r@ == u@,
            Package::Local { .. } => r@ == "localhost"@,
        },
{
    match pkg {
        Package::Remote(PackageSpec::Slug(s)) => s.clone(),
        Package::Remote(PackageSpec::Url(u)) => u.clone(),
        Package::Local { .. } => String::from_str("localhost"),
    }
}

/// Metadata of a fetched entity.
#[derive(Clone, Debug)]
pub struct Meta {
    /// Announced size in bytes.
    pub size: u64,
    /// Essence of the media type.
    pub mime: String,
    /// Content digest, standard base64.
    pub hash: String,
}

/// Whether two metadata records agree field by field.
pub open spec fn meta_agrees(a: Meta, b: Meta) -> bool {
    a.size == b.size && a.mime@ == b.mime@ && a.hash@ == b.hash@
}

/// Compares fetched metadata against the directory entry's.
pub fn check_meta(fetched: &Meta, entry: &Meta) -> (r: Result<(), WorkloadError>)
    ensures
        r is Ok <==> meta_agrees(*fetched, *entry),
        r is Err ==> r == Err::<(), WorkloadError>(WorkloadError::MetaMismatch),
{
    if fetched.size == entry.size && str_eq(fetched.mime.as_str(), entry.mime.as_str()) && str_eq(
        fetched.hash.as_str(),
        entry.hash.as_str(),
    ) {
        Ok(())
    } else {
        Err(WorkloadError::MetaMismatch)
    }
}

/// Requires the media type of a WASM entry.
pub fn check_wasm_media(essence: &str) -> (r: Result<(), WorkloadError>)
    ensures
        r is Ok <==> essence@ == "application/wasm"@,
        r is Err ==> r == Err::<(), WorkloadError>(WorkloadError::BadMediaType),
{
    if str_eq(essence, WASM_MEDIA_TYPE) {
        Ok(())
    } else {
        Err(WorkloadError::BadMediaType)
    }
}

/// Requires the media type of a configuration entry.
pub fn check_toml_media(essence: &str) -> (r: Result<(), WorkloadError>)
    ensures
        r is Ok <==> essence@ == "application/toml"@,
        r is Err ==> r == Err::<(), WorkloadError>(WorkloadError::BadMediaType),
{
    if str_eq(essence, TOML_MEDIA_TYPE) {
        Ok(())
    } else {
        Err(WorkloadError::BadMediaType)
    }
}

/// What a top-level fetched entity is, by its media type.
#[derive(Clone, Copy, Debug, PartialEq, Eq, Structural)]
pub enum TopKind {
    /// A bare WASM module.
    Wasm,
    /// A package directory document.
    Directory,
    /// Anything else: a tag document.
    Tag,
}

/// Classifies a top-level entity by its media type essence.
pub fn classify_top(essence: &str) -> (r: TopKind)
    ensures
        (r is Wasm) <==> essence@ == "application/wasm"@,
        (r is Directory) <==> (essence@ != "application/wasm"@ && essence@
            == "application/vnd.drawbridge.directory.v1+json"@),
{
    if str_eq(essence, WASM_MEDIA_TYPE) {
        TopKind::Wasm
    } else if str_eq(essence, DIRECTORY_MEDIA_TYPE) {
        TopKind::Directory
    } else {
        TopKind::Tag
    }
}

/// Name of the package entrypoint file.
pub const PACKAGE_ENTRYPOINT: &'static str = "main.wasm";

/// Name of the package configuration file.
pub const PACKAGE_CONFIG: &'static str = "Enarx.toml";

/// Whether a found metadata record is the first entry under that name.
pub open spec fn entry_matches(dir: Seq<(String, Meta)>, name: Seq<char>, m: Meta) -> bool {
    match crate::policy::spec_lookup(crate::policy::table_view(dir), name) {
        Some(e) => meta_agrees(m, e),
        None => false,
    }
}

/// Looks a name up in a package directory listing.
pub fn find_entry(dir: &Vec<(String, Meta)>, name: &str) -> (r: Option<Meta>)
    ensures
        match r {
            Some(m) => entry_matches(dir@, name@, m),
            None => crate::policy::spec_lookup(crate::policy::table_view(dir@), name@) is None,
        },
{
    let ghost full = crate::policy::table_view(dir@);
    proof {
        assert(full.skip(0) =~= full);
    }
    let n = dir.len();
    let mut i: usize = 0;
    while i < n
        invariant
            n == dir@.len(),
            i <= n,
            full == crate::policy::table_view(dir@),
            full.len() == n,
            crate::policy::spec_lookup(full, name@) == crate::policy::spec_lookup(
                full.skip(i as int),
                name@,
            ),
        decreases n - i,
    {
        proof {
            assert(full.skip(i as int)[0] == full[i as int]);
        }
        if str_eq(dir[i].0.as_str(), name) {
            let m = Meta {
                size: dir[i].1.size,
                mime: dir[i].1.mime.clone(),
                hash: dir[i].1.hash.clone(),
            };
            return Some(m);
        }
        proof {
            assert(full.skip(i as int).drop_first() =~= full.skip(i + 1));
        }
        i += 1;
    }
    proof {
        assert(full.skip(n as int) =~= Seq::<(Seq<char>, Meta)>::empty());
    }
    None
}

/// What a package directory demands of the fetcher: the entrypoint's
/// entry, and the configuration's when the package carries one.
#[derive(Debug)]
pub struct PackagePlan {
    /// Directory entry of the entrypoint WASM module.
    pub wasm_entry: Meta,
    /// Directory entry of the configuration file, if present.
    pub conf_entry: Option<Meta>,
}

/// Reads a package directory listing: the entrypoint must be present and
/// a WASM module; a configuration entry, when present, must be TOML.
pub fn plan_package(dir: &Vec<(String, Meta)>) -> (r: Result<PackagePlan, WorkloadError>)
    ensures
        match r {
            Ok(p) => {
                &&& entry_matches(dir@, "main.wasm"@, p.wasm_entry)
                &&& p.wasm_entry.mime@ == "application/wasm"@
                &&& match p.conf_entry {
                    Some(c) => entry_matches(dir@, "Enarx.toml"@, c) && c.mime@
                        == "application/toml"@,
                    None => crate::policy::spec_lookup(
                        crate::policy::table_view(dir@),
                        "Enarx.toml"@,
                    ) is None,
                }
            },
            Err(e) => {
                ||| (e is MissingEntrypoint && crate::policy::spec_lookup(
                    crate::policy::table_view(dir@),
                    "main.wasm"@,
                ) is None)
                ||| e is BadMediaType
            },
        },
{
    let wasm_entry = match find_entry(dir, PACKAGE_ENTRYPOINT) {
        Some(m) => m,
        None => {
            return Err(WorkloadError::MissingEntrypoint);
        },
    };
    match check_wasm_media(wasm_entry.mime.as_str()) {
        Ok(()) => (),
        Err(e) => {
            return Err(e);
        },
    }
    let conf_entry = match find_entry(dir, PACKAGE_CONFIG) {
        Some(m) => {
            match check_toml_media(m.mime.as_str()) {
                Ok(()) => (),
                Err(e) => {
                    return Err(e);
                },
            }
            Some(m)
        },
        None => None,
    };
    Ok(PackagePlan { wasm_entry, conf_entry })
}

/// What a tag's root entry tells the fetcher to do next.
#[derive(Clone, Copy, Debug, PartialEq, Eq, Structural)]
pub enum TagPlan {
    /// The entry is a bare WASM module: fetch it.
    FetchWasm,
    /// The entry is a package directory: fetch and walk it.
    FetchDirectory,
}

/// Refuses signed tags; only unsigned tag entries are followed.
pub fn accept_tag_signature(signed: bool) -> (r: Result<(), WorkloadError>)
    ensures
        r is Ok <==> !signed,
        r is Err ==> r == Err::<(), WorkloadError>(WorkloadError::SignedTag),
{
    if signed {
        Err(WorkloadError::SignedTag)
    } else {
        Ok(())
    }
}

/// Dispatches on a tag entry's media type: a WASM module or a package
/// directory is followed; anything else is refused.
pub fn plan_tag_entry(essence: &str) -> (r: Result<TagPlan, WorkloadError>)
    ensures
        match r {
            Ok(TagPlan::FetchWasm) => essence@ == "application/wasm"@,
            Ok(TagPlan::FetchDirectory) => essence@ != "application/wasm"@ && essence@
                == "application/vnd.drawbridge.directory.v1+json"@,
            Err(e) => e is UnsupportedRootType && essence@ != "application/wasm"@ && essence@
                != "application/vnd.drawbridge.directory.v1+json"@,
        },
{
    if str_eq(essence, WASM_MEDIA_TYPE) {
        Ok(TagPlan::FetchWasm)
    } else if str_eq(essence, DIRECTORY_MEDIA_TYPE) {
        Ok(TagPlan::FetchDirectory)
    } else {
        Err(WorkloadError::UnsupportedRootType)
    }
}

/// Enforces the WASM size limit.
pub fn check_wasm_size(size: u64) -> (r: Result<(), WorkloadError>)
    ensures
        r is Ok <==> size <= MAX_WASM_SIZE,
        r is Err ==> r == Err::<(), WorkloadError>(WorkloadError::TooLarge),
{
    if size <= MAX_WASM_SIZE {
        Ok(())
    } else {
        Err(WorkloadError::TooLarge)
    }
}

/// Requires the fetched byte count to match the announced size.
pub fn check_fetched_len(fetched: usize, size: u64) -> (r: Result<(), WorkloadError>)
    ensures
        r is Ok <==> fetched as u64 == size,
        r is Err ==> r == Err::<(), WorkloadError>(WorkloadError::SizeMismatch),
{
    if fetched as u64 == size {
        Ok(())
    } else {
        Err(WorkloadError::SizeMismatch)
    }
}

} // verus!
