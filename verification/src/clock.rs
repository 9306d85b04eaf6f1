//! Wall-clock reading for packet send timestamps.

use vstd::prelude::*;

verus! {

/// Relies on `std::time::SystemTime::now` and
/// `SystemTime::duration_since(UNIX_EPOCH)`: the wall clock read as whole
/// seconds plus a microsecond remainder since the Unix epoch. The
/// remainder is the documented `Duration::subsec_micros`, always below one
/// million. A clock set before the epoch reads as zero. The reading
/// depends on the machine's clock, so nothing relates two calls.
#[verifier::external_body]
pub fn now_micros() -> (r: (u64, u32))
    ensures
        r.1 < 1_000_000,
{
    match std::time::SystemTime::now().duration_since(std::time::UNIX_EPOCH) {
        Ok(d) => (d.as_secs(), d.subsec_micros()),
        Err(_) => (0, 0),
    }
}

} // verus!
