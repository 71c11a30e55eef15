use vstd::prelude::*;

verus! {

/// Terminal outcome of the retry protocol when no success value was obtained.
///
/// The executor raises `NoTry` itself; the other two variants carry the last
/// classifier-supplied error payload through unmodified.
#[derive(Debug)]
pub enum Error<ErrorResponse> {
    /// Zero attempts were configured; no request was ever sent.
    NoTry,
    /// The attempt budget was consumed while the outcome was still retryable.
    TryOver(ErrorResponse),
    /// The classifier declared the outcome permanent; retrying was abandoned at once.
    Stop(ErrorResponse),
}

} // verus!
