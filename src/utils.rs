//! The wall clock.
use vstd::prelude::*;

verus! {

/// Relies on `SystemTime::now`: milliseconds since the Unix epoch, zero if
/// the clock is set before it. Nothing is known of the value.
#[verifier::external_body]
fn millis_since_epoch() -> (r: u128) {
    std::time::SystemTime::now().duration_since(std::time::UNIX_EPOCH).unwrap_or_default().as_millis()
}

/// A millisecond count cut to 32 bits, as mail timestamps carry it.
pub fn truncate_millis(ms: u128) -> (r: u32)
    ensures
        r as int == ms as int % 0x1_0000_0000,
{
    (ms % 0x1_0000_0000) as u32
}

/// The wall clock in milliseconds since the Unix epoch, cut to 32 bits.
pub fn get_now_mils() -> u32 {
    truncate_millis(millis_since_epoch())
}

} // verus!
