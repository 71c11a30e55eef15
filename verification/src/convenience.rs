use vstd::prelude::*;

pub mod json;

verus! {

use crate::RetryType;

/// The verdict the status-code classifier owes for a response status, given
/// the caller's allow-list of retryable client-error statuses: a success
/// status yields no verdict (the caller proceeds to decode); a client error
/// is permanent (`Stop`) unless the allow-list opts it in; every other
/// status — server error, unhandled redirect — is worth another try.
pub open spec fn status_verdict(status_code: u16, retryable: Seq<u16>) -> Option<RetryType> {
    if 200 <= status_code && status_code <= 299 {
        None
    } else if 400 <= status_code && status_code <= 499 && !retryable.contains(status_code) {
        Some(RetryType::Stop)
    } else {
        Some(RetryType::Retry)
    }
}

/// Whether the slice holds the given status code.
fn contains_status(codes: &[u16], status_code: u16) -> (r: bool)
    ensures
        r == codes@.contains(status_code),
{
    let mut i: usize = 0;
    while i < codes.len()
        invariant
            i <= codes.len(),
            forall|j: int| 0 <= j < i ==> codes@[j] != status_code,
        decreases codes.len() - i,
    {
        if codes[i] == status_code {
            return true;
        }
        i = i + 1;
    }
    false
}

/// Classifies a response status against the caller-supplied allow-list of
/// retryable client-error statuses, exactly as `status_verdict` says.
pub fn check_status_code(status_code: u16, retryable_status_codes: &[u16]) -> (r: Option<
    RetryType,
>)
    ensures
        r == status_verdict(status_code, retryable_status_codes@),
{
    if 200 <= status_code && status_code <= 299 {
        return None;
    }
    let is_client_error = 400 <= status_code && status_code <= 499;
    if is_client_error && !contains_status(retryable_status_codes, status_code) {
        Some(RetryType::Stop)
    } else {
        Some(RetryType::Retry)
    }
}

} // verus!
