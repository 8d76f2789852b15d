//! The computations of the download coordinator: progress clamping,
//! throughput sampling, and the completion reports.
//!
//! The coordinator streams an HTTP response to disk in chunks; a sample
//! is emitted at most roughly twice a second, and a final completion
//! event carries the total transferred (or a partial count plus error
//! detail). The network and file work is the caller's; the numbers are
//! computed here.

use vstd::prelude::*;

use crate::error::BeansError;

verus! {

/// A progress report of one transfer.
#[derive(Debug, Clone)]
pub struct DownloadProgressArgs {
    /// identifier of the transfer, so parallel operations never collide
    pub unique_id: String,
    pub max: u64,
    pub current: u64,
    pub speed: String,
}

/// The completion report of one transfer.
#[derive(Debug, Clone)]
pub struct DownloadCompleteArgs {
    /// identifier of the transfer
    pub unique_id: String,
    /// bytes transferred: the total on success, the partial count on
    /// failure
    pub dl_size: u64,
    /// error detail, `None` on success
    pub error_content: Option<String>,
}

/// A response without a length header cannot drive this coordinator's
/// progress reporting: that is an unrecoverable precondition failure,
/// not a downgraded transfer.
pub fn check_content_length(len: Option<u64>) -> (r: Result<u64, BeansError>)
    ensures
        match r {
            Ok(v) => len == Some(v),
            Err(_) => len is None,
        },
{
    match len {
        Some(v) => Ok(v),
        None => Err(
            BeansError::DownloadFailure {
                reason: crate::error::DownloadFailureReason::Reqwest {
                    url: String::new(),
                    error: "response carries no content length".to_owned(),
                },
            },
        ),
    }
}

/// Advance the transferred-byte count by one chunk, clamped to the
/// response's total length.
pub fn clamp_progress(downloaded: u64, chunk_len: usize, total: u64) -> (r: u64)
    ensures
        r as int == if downloaded + chunk_len <= total {
            downloaded + chunk_len
        } else {
            total as int
        },
{
    let sum: u128 = downloaded as u128 + chunk_len as u128;
    if sum <= total as u128 {
        sum as u64
    } else {
        total
    }
}

/// Is it time for another throughput sample? Samples are taken no more
/// often than roughly twice per second.
pub fn should_emit_sample(elapsed_ms: u64) -> (r: bool)
    ensures
        r == (elapsed_ms > 500),
{
    elapsed_ms > 500
}

/// Bytes per second over the sampling window, in integer arithmetic,
/// saturating at the machine limit.
pub fn throughput_bps(delta_bytes: u64, elapsed_ms: u64) -> (r: u64)
    requires
        elapsed_ms > 0,
    ensures
        r as int == if (delta_bytes as int) * 1000 / (elapsed_ms as int) <= u64::MAX as int {
            (delta_bytes as int) * 1000 / (elapsed_ms as int)
        } else {
            u64::MAX as int
        },
{
    let scaled: u128 = delta_bytes as u128 * 1000;
    let bps: u128 = scaled / (elapsed_ms as u128);
    if bps <= u64::MAX as u128 {
        bps as u64
    } else {
        u64::MAX
    }
}

} // verus!
