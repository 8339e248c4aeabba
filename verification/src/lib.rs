//! I/O mediation layer of a confidential-computing keep.
//!
//! A keep is an isolated, attested execution environment running one
//! untrusted workload.  This crate models the synthetic virtual
//! filesystem that exposes network sockets and cryptographic identity to
//! that workload as files, together with the identity and attestation
//! subsystem that backs every socket's TLS material.  Every decision the
//! mediation layer takes — address grammar, protocol policy, open-flag
//! validation, identity derivation, record encoding — is verified here;
//! the host process around it only performs the I/O the library hands
//! back.
//!
//! The pieces:
//!
//! - [`node`] and [`vfs`]: the node graph — directories, lazily minted
//!   socket nodes, inode identity — and the open machinery over it.
//! - [`listen`], [`connect`], [`addr`], [`policy`]: socket mediation;
//!   each successful open describes exactly one bind or connect.
//! - [`identity`]: key parameters, certificate planning, the remote
//!   signing service, and the peer identity read from a certificate
//!   subject.
//! - [`net`], [`json`], [`blob`]: accept/connect provenance records,
//!   their one-shot FIFO delivery, and their JSON wire format.
//! - [`config`], [`runtime`]: the keep configuration and the startup
//!   assembly of the filesystem.
//! - [`workload`], [`sgx`], [`backend`], [`cli`]: workload acquisition
//!   rules, SGX attestation exchanges, backend readiness, deployment
//!   dispatch.

pub mod addr;
pub mod backend;
pub mod blob;
pub mod cli;
pub mod config;
pub mod connect;
pub mod error;
pub mod identity;
pub mod listen;
pub mod json;
pub mod net;
pub mod node;
pub mod policy;
pub mod runtime;
pub mod sgx;
pub mod strutil;
pub mod vfs;
pub mod workload;

use vstd::prelude::*;

verus! {

} // verus!
