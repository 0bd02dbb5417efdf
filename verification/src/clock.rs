use vstd::prelude::*;

verus! {

/// Calls `SystemTime::elapsed` on `UNIX_EPOCH` and reads the result in whole
/// milliseconds (`Duration::as_millis`).
///
/// Nothing is claimed of the value: it is the machine's clock. `None` stands for
/// a clock set before the epoch.
#[verifier::external_body]
fn epoch_elapsed_millis() -> (millis: Option<u128>) {
    std::time::UNIX_EPOCH.elapsed().ok().map(|d| d.as_millis())
}

/// A clock reading in milliseconds since the Unix epoch, cut to `usize` as `as`
/// does; `None` (a clock before the epoch) stays `None`.
pub fn millis_as_timestamp(millis: Option<u128>) -> (stamp: Option<usize>)
    ensures
        stamp == (match millis {
            Some(m) => Some(m as usize),
            None => None,
        }),
{
    match millis {
        Some(m) => Some(m as usize),
        None => None,
    }
}

/// The current time in milliseconds since the Unix epoch, cut to `usize` as `as`
/// does; `None` when the clock reads a time before the epoch.
pub fn timestamp() -> (millis: Option<usize>) {
    millis_as_timestamp(epoch_elapsed_millis())
}

} // verus!
