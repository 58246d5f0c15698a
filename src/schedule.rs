use vstd::prelude::*;

use rand::Rng;

verus! {

/// Milliseconds in one second.
pub const MS_PER_SECOND: u64 = 1000;

/// The sweep delay is the base interval plus a jitter drawn from
/// `0..SWEEP_JITTER_MS_END`.
pub const SWEEP_JITTER_MS_END: u64 = 250;

/// The pause between probing two nodes is drawn from
/// `NODE_GAP_MS_START..NODE_GAP_MS_END`.
pub const NODE_GAP_MS_START: u64 = 2;

pub const NODE_GAP_MS_END: u64 = 6;

/// Relies on rand's `Rng::gen_range` on the thread-local generator: the value
/// lies in `lo..hi`, which must not be empty.
#[verifier::external_body]
fn random_in(lo: u64, hi: u64) -> (r: u64)
    requires
        lo < hi,
    ensures
        lo <= r < hi,
{
    rand::thread_rng().gen_range(lo..hi)
}

/// The base interval in milliseconds for an interval in seconds; an interval
/// too long to count in milliseconds is held at the largest count.
pub open spec fn base_delay_ms(interval_s: u64) -> int {
    if interval_s * MS_PER_SECOND <= u64::MAX {
        interval_s * MS_PER_SECOND
    } else {
        u64::MAX as int
    }
}

/// The base delay moved by `jitter`, or the base delay itself where the sum
/// would be negative or too large.
pub open spec fn jittered(base: int, jitter: int) -> int {
    if 0 <= base + jitter <= u64::MAX {
        base + jitter
    } else {
        base
    }
}

/// The pause after a sweep, in milliseconds, for a poll interval in seconds
/// and a jitter in milliseconds.
pub fn sweep_delay_ms(interval_s: u64, jitter: i64) -> (r: u64)
    ensures
        r == jittered(base_delay_ms(interval_s), jitter as int),
{
    let base = match interval_s.checked_mul(MS_PER_SECOND) {
        Some(b) => b,
        None => u64::MAX,
    };
    match base.checked_add_signed(jitter) {
        Some(d) => d,
        None => base,
    }
}

/// Draws the pause after a sweep: the base interval plus a random jitter
/// below `SWEEP_JITTER_MS_END` milliseconds.
pub fn next_sweep_delay_ms(interval_s: u64) -> (r: u64)
    ensures
        exists|j: int|
            0 <= j < SWEEP_JITTER_MS_END && r == #[trigger] jittered(base_delay_ms(interval_s), j),
{
    let j = random_in(0, SWEEP_JITTER_MS_END);
    sweep_delay_ms(interval_s, j as i64)
}

/// Draws the short pause between probing two successive nodes.
pub fn node_gap_ms() -> (r: u64)
    ensures
        NODE_GAP_MS_START <= r < NODE_GAP_MS_END,
{
    random_in(NODE_GAP_MS_START, NODE_GAP_MS_END)
}

} // verus!
