use vstd::arithmetic::div_mod::{lemma_div_is_ordered, lemma_mod_bound, lemma_mod_multiples_vanish};
use vstd::prelude::*;

verus! {

/// Minutes after local midnight at the instant `now + dur`, where `now` and
/// `dur` are in seconds and the local clock runs `off` seconds east of UTC.
pub open spec fn spec_local_minutes(now: int, off: int, dur: int) -> int {
    ((now + off + dur) % 86400) / 60
}

/// Relies on chrono::Utc::now and chrono::DateTime::timestamp: the current wall
/// clock as whole seconds since the Unix epoch. chrono aborts when the system
/// clock lies before the epoch, so a value that is returned is never negative.
#[verifier::external_body]
pub(crate) fn now_utc_seconds() -> (r: i64)
    ensures
        r >= 0,
{
    chrono::Utc::now().timestamp()
}

/// Minutes after local midnight reached `dur_secs` seconds from `now` (seconds
/// since the Unix epoch), under a fixed offset `off` seconds east of UTC.
pub fn local_minutes_of_day(now: i64, off: i32, dur_secs: i128) -> (m: u16)
    requires
        now >= 0,
        -86400 < off < 86400,
        -3600 * 0x8000_0000_0000_0000 <= dur_secs <= 3600 * 0x8000_0000_0000_0000,
    ensures
        m < 1440,
        m == spec_local_minutes(now as int, off as int, dur_secs as int),
{
    let total: i128 = now as i128 + off as i128 + dur_secs;
    // A positive multiple of one day larger than any |total| the bounds allow,
    // so that the remainder is taken of a non-negative number.
    let shift: i128 = 86400 * 10_000_000_000_000_000_000;
    let r: i128 = (total + shift) % 86400;
    proof {
        lemma_mod_multiples_vanish(10_000_000_000_000_000_000, total as int, 86400);
        lemma_mod_bound(total as int + shift as int, 86400);
        lemma_div_is_ordered(r as int, 86399, 60);
    }
    let m: i128 = r / 60;
    m as u16
}

} // verus!
