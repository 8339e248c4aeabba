//! SGX attestation over the AESM daemon: request framing and the
//! validation rules around each exchange.
//!
//! The daemon is reached over a local socket and speaks length-prefixed
//! protobuf messages; socket I/O and protobuf encoding happen outside
//! this crate.  The framing, the buffer-size checks and the response
//! validations are decided here.  The expected target-info and quote
//! sizes are protocol constants supplied by the caller.

use vstd::prelude::*;

verus! {

/// Timeout, in microseconds, set on every AESM request.
pub const AESM_REQUEST_TIMEOUT: u32 = 1000000;

/// Size of one attestation key identifier in bytes.
pub const SGX_KEY_ID_SIZE: u32 = 256;

/// Failures of the AESM exchanges.
#[derive(Clone, Copy, Debug, PartialEq, Eq, Structural)]
pub enum AesmError {
    /// The attestation key identifier was not supplied.
    MissingKeyId,
    /// The key size was not supplied.
    MissingKeySize,
    /// The report was not supplied.
    MissingReport,
    /// The daemon reported a non-zero error code.
    ErrorCode,
    /// An unexpected number of key identifiers.
    KeyIdCount,
    /// A buffer size does not match the protocol constant.
    BadBufferSize,
}

/// The AESM requests this layer prepares.
#[derive(Debug)]
pub enum AesmRequest {
    /// Request the quoting enclave's target info.
    TInfo {
        /// Attestation key identifier.
        akid: Vec<u8>,
        /// Announced buffer size.
        size: u64,
        /// The public key identifier is requested.
        b_pub_key_id: bool,
        /// Request timeout in microseconds.
        timeout: u32,
    },
    /// Request the public key identifier size.
    KeySize {
        /// Attestation key identifier.
        akid: Vec<u8>,
        /// The public key identifier is not requested.
        b_pub_key_id: bool,
        /// Request timeout in microseconds.
        timeout: u32,
    },
    /// Request a quote over a report.
    Quote {
        /// The report to quote.
        report: Vec<u8>,
        /// Attestation key identifier.
        akid: Vec<u8>,
        /// Size of the quote buffer.
        buf_size: u32,
        /// Request timeout in microseconds.
        timeout: u32,
    },
}

/// Which exchange a request prepares.
#[derive(Clone, Copy, Debug, PartialEq, Eq, Structural)]
pub enum ReqKind {
    /// Target info.
    TInfo,
    /// Key size.
    KeySize,
    /// Quote.
    Quote,
}

/// Prepares an AESM request, refusing requests whose inputs were not
/// supplied; the timeout is always set, and the public key identifier is
/// requested exactly for the target-info exchange.
pub fn set_request(
    kind: ReqKind,
    report: Option<Vec<u8>>,
    akid: Option<Vec<u8>>,
    size: Option<u64>,
    quote_size: u32,
) -> (r: Result<AesmRequest, AesmError>)
    ensures
        match kind {
            ReqKind::TInfo => match (akid, size) {
                (None, _) => r == Err::<AesmRequest, AesmError>(AesmError::MissingKeyId),
                (Some(_), None) => r == Err::<AesmRequest, AesmError>(AesmError::MissingKeySize),
                (Some(a), Some(s)) => r matches Ok(AesmRequest::TInfo {
                    akid: ra,
                    size: rs,
                    b_pub_key_id,
                    timeout,
                }) && ra@ == a@ && rs == s && b_pub_key_id && timeout == AESM_REQUEST_TIMEOUT,
            },
            ReqKind::KeySize => match akid {
                None => r == Err::<AesmRequest, AesmError>(AesmError::MissingKeyId),
                Some(a) => r matches Ok(AesmRequest::KeySize { akid: ra, b_pub_key_id, timeout })
                    && ra@ == a@ && !b_pub_key_id && timeout == AESM_REQUEST_TIMEOUT,
            },
            ReqKind::Quote => match (akid, report) {
                (None, _) => r == Err::<AesmRequest, AesmError>(AesmError::MissingKeyId),
                (Some(_), None) => r == Err::<AesmRequest, AesmError>(AesmError::MissingReport),
                (Some(a), Some(rep)) => r matches Ok(AesmRequest::Quote {
                    report: rr,
                    akid: ra,
                    buf_size,
                    timeout,
                }) && rr@ == rep@ && ra@ == a@ && buf_size == quote_size && timeout
                    == AESM_REQUEST_TIMEOUT,
            },
        },
{
    match kind {
        ReqKind::TInfo => {
            let a = match akid {
                Some(a) => a,
                None => {
                    return Err(AesmError::MissingKeyId);
                },
            };
            let s = match size {
                Some(s) => s,
                None => {
                    return Err(AesmError::MissingKeySize);
                },
            };
            Ok(
                AesmRequest::TInfo {
                    akid: a,
                    size: s,
                    b_pub_key_id: true,
                    timeout: AESM_REQUEST_TIMEOUT,
                },
            )
        },
        ReqKind::KeySize => {
            let a = match akid {
                Some(a) => a,
                None => {
                    return Err(AesmError::MissingKeyId);
                },
            };
            Ok(AesmRequest::KeySize { akid: a, b_pub_key_id: false, timeout: AESM_REQUEST_TIMEOUT })
        },
        ReqKind::Quote => {
            let a = match akid {
                Some(a) => a,
                None => {
                    return Err(AesmError::MissingKeyId);
                },
            };
            let rep = match report {
                Some(rp) => rp,
                None => {
                    return Err(AesmError::MissingReport);
                },
            };
            Ok(
                AesmRequest::Quote {
                    report: rep,
                    akid: a,
                    buf_size: quote_size,
                    timeout: AESM_REQUEST_TIMEOUT,
                },
            )
        },
    }
}

/// Little-endian bytes of a 32-bit value.
pub open spec fn le32(v: int) -> Seq<u8> {
    seq![
        (v % 256) as u8,
        ((v / 256) % 256) as u8,
        ((v / 65536) % 256) as u8,
        ((v / 16777216) % 256) as u8,
    ]
}

/// Frames an encoded request for the daemon: a 4-byte little-endian
/// length prefix, then the message bytes.
pub fn frame_request(msg: &Vec<u8>) -> (r: Vec<u8>)
    requires
        msg@.len() <= u32::MAX,
    ensures
        r@.len() == 4 + msg@.len(),
        r@.take(4) == le32(msg@.len() as int),
        r@.skip(4) == msg@,
{
    let len: u32 = msg.len() as u32;
    let mut out: Vec<u8> = Vec::new();
    out.push((len % 256) as u8);
    out.push(((len / 256) % 256) as u8);
    out.push(((len / 65536) % 256) as u8);
    out.push(((len / 16777216) % 256) as u8);
    let n = msg.len();
    let mut i: usize = 0;
    while i < n
        invariant
            n == msg@.len(),
            i <= n,
            out@.len() == 4 + i,
            out@.take(4) =~= le32(n as int),
            out@.skip(4) =~= msg@.take(i as int),
        decreases n - i,
    {
        out.push(msg[i]);
        proof {
            assert(out@.take(4) =~= le32(n as int));
            assert(out@.skip(4) =~= msg@.take(i + 1));
        }
        i += 1;
    }
    proof {
        assert(msg@.take(n as int) =~= msg@);
    }
    out
}

/// Reads the 4-byte little-endian response length prefix.
pub fn response_len(b0: u8, b1: u8, b2: u8, b3: u8) -> (r: u32)
    ensures
        r as int == b0 + 256 * (b1 as int) + 65536 * (b2 as int) + 16777216 * (b3 as int),
{
    (b0 as u32) + 256 * (b1 as u32) + 65536 * (b2 as u32) + 16777216 * (b3 as u32)
}

/// Requires the daemon's error code to be zero.
pub fn check_error_code(code: u32) -> (r: Result<(), AesmError>)
    ensures
        r is Ok <==> code == 0,
        r is Err ==> r == Err::<(), AesmError>(AesmError::ErrorCode),
{
    if code == 0 {
        Ok(())
    } else {
        Err(AesmError::ErrorCode)
    }
}

/// Selects the single supported attestation key identifier: the daemon
/// must report exactly one, and the returned blob must hold exactly one
/// 256-byte identifier, which is returned.
pub fn select_key_id(num_key_ids: u32, blob: Vec<u8>) -> (r: Result<Vec<u8>, AesmError>)
    ensures
        match r {
            Ok(k) => num_key_ids == 1 && blob@.len() / 256 == 1 && k@ == blob@.take(256),
            Err(e) => e is KeyIdCount && (num_key_ids != 1 || blob@.len() / 256 != 1),
        },
{
    if num_key_ids != 1 {
        return Err(AesmError::KeyIdCount);
    }
    if blob.len() / 256 != 1 {
        return Err(AesmError::KeyIdCount);
    }
    let mut out: Vec<u8> = Vec::new();
    let mut i: usize = 0;
    while i < 256
        invariant
            blob@.len() >= 256,
            i <= 256,
            out@ == blob@.take(i as int),
        decreases 256 - i,
    {
        out.push(blob[i]);
        proof {
            assert(out@ =~= blob@.take(i + 1));
        }
        i += 1;
    }
    Ok(out)
}

/// Accepts a target info of exactly the expected size, for an output
/// buffer of exactly the expected size.
pub fn accept_target_info(out_len: usize, ti: Vec<u8>, ti_size: usize) -> (r: Result<
    Vec<u8>,
    AesmError,
>)
    ensures
        match r {
            Ok(v) => out_len == ti_size && ti@.len() == ti_size && v@ == ti@,
            Err(e) => e is BadBufferSize && (out_len != ti_size || ti@.len() != ti_size),
        },
{
    if out_len != ti_size {
        return Err(AesmError::BadBufferSize);
    }
    if ti.len() != ti_size {
        return Err(AesmError::BadBufferSize);
    }
    Ok(ti)
}

/// Accepts a quote of exactly the expected size, for an output buffer of
/// exactly the expected size.
pub fn accept_quote(out_len: usize, quote: Vec<u8>, quote_size: usize) -> (r: Result<
    Vec<u8>,
    AesmError,
>)
    ensures
        match r {
            Ok(v) => out_len == quote_size && quote@.len() == quote_size && v@ == quote@,
            Err(e) => e is BadBufferSize && (out_len != quote_size || quote@.len() != quote_size),
        },
{
    if out_len != quote_size {
        return Err(AesmError::BadBufferSize);
    }
    if quote.len() != quote_size {
        return Err(AesmError::BadBufferSize);
    }
    Ok(quote)
}

/// What an attestation call asks for, by its nonce: without one, the
/// target info; with one, a quote over the report it points at.
#[derive(Clone, Copy, Debug, PartialEq, Eq, Structural)]
pub enum AttestationKind {
    /// Fill the buffer with the quoting enclave's target info.
    TargetInfo,
    /// Fill the buffer with a quote over the report.
    Quote,
}

/// Dispatches an attestation call on its nonce.
pub fn attestation_kind(nonce: usize) -> (r: AttestationKind)
    ensures
        (r is TargetInfo) <==> nonce == 0,
{
    if nonce == 0 {
        AttestationKind::TargetInfo
    } else {
        AttestationKind::Quote
    }
}

} // verus!
