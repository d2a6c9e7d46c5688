use vstd::prelude::*;

use crate::poll::Poll;
use fugit::ExtU64;

verus! {

/// A count of ticks since boot, at 32768 ticks per second.
pub type TickInstant = u64;

/// A count of ticks between two instants.
pub type TickDuration = u64;

/// Number of distinct values of the 24-bit hardware counter register.
pub const COUNTER_MODULUS: u64 = 0x100_0000;

/// Largest instant the tick source can produce: a 32-bit overflow count
/// above a 24-bit counter.
pub const TICKS_LIMIT: u64 = 0x00FF_FFFF_FFFF_FFFF;

/// The instant denoted by an overflow count and a raw counter value.
pub open spec fn ticks_of(overflows: nat, counter: nat) -> nat {
    overflows * (COUNTER_MODULUS as nat) + counter
}

/// Combines an overflow count with a raw counter value into a wide instant.
pub fn compose_ticks(overflows: u32, counter: u32) -> (r: TickInstant)
    requires
        counter < COUNTER_MODULUS,
    ensures
        r as nat == ticks_of(overflows as nat, counter as nat),
        r <= TICKS_LIMIT,
{
    let o: u64 = overflows as u64;
    let c: u64 = counter as u64;
    assert((o << 24u64) | c == o * 0x100_0000 + c && o * 0x100_0000 + c <= 0x00FF_FFFF_FFFF_FFFF)
        by (bit_vector)
        requires
            o <= 0xFFFF_FFFF,
            c < 0x100_0000,
    ;
    (o << 24u64) | c
}

/// The tick source: the software overflow count that extends the hardware
/// counter. The overflow interrupt calls `record_overflow`; readers combine
/// the count with the register value through `now`.
#[derive(Clone, Copy, Debug, PartialEq, Eq, Structural)]
pub struct Ticker {
    pub overflows: u32,
}

impl Ticker {
    /// A tick source that has seen no overflow yet.
    pub fn new() -> (r: Ticker)
        ensures
            r.overflows == 0,
    {
        Ticker { overflows: 0 }
    }

    /// Counts one hardware overflow event, exactly once.
    pub fn record_overflow(&mut self)
        requires
            old(self).overflows < u32::MAX,
        ensures
            final(self).overflows == old(self).overflows + 1,
    {
        self.overflows = self.overflows + 1;
    }

    /// The current instant, given the value read from the counter register.
    pub fn now(&self, counter: u32) -> (r: TickInstant)
        requires
            counter < COUNTER_MODULUS,
        ensures
            r as nat == ticks_of(self.overflows as nat, counter as nat),
            r <= TICKS_LIMIT,
    {
        compose_ticks(self.overflows, counter)
    }
}

/// Decides one attempt of a non-atomic read: the overflow count read before
/// the register, the register, whether the hardware still flags an overflow
/// that the interrupt has not yet counted (read after the register), and the
/// overflow count read last. The instant is returned only when the two counts
/// agree and no overflow is waiting to be counted: the register then belongs
/// to the window the count names. Otherwise the caller reads again.
pub fn now_from_reads(
    overflows_before: u32,
    counter: u32,
    overflow_pending: bool,
    overflows_after: u32,
) -> (r: Option<TickInstant>)
    requires
        counter < COUNTER_MODULUS,
    ensures
        r is Some <==> overflows_before == overflows_after && !overflow_pending,
        r matches Some(t) ==> t as nat == ticks_of(overflows_before as nat, counter as nat),
{
    if overflows_before == overflows_after && !overflow_pending {
        Some(compose_ticks(overflows_before, counter))
    } else {
        None
    }
}

/// An instant read later — at a higher overflow count, or at the same count
/// with a higher register value — is strictly later; in particular the instant
/// just after a register wrap exceeds the one just before it.
pub proof fn lemma_ticks_strictly_increase(o1: nat, c1: nat, o2: nat, c2: nat)
    requires
        c1 < COUNTER_MODULUS,
        c2 < COUNTER_MODULUS,
        o1 < o2 || (o1 == o2 && c1 < c2),
    ensures
        ticks_of(o1, c1) < ticks_of(o2, c2),
{
    if o1 < o2 {
        assert(o1 * (COUNTER_MODULUS as nat) + (COUNTER_MODULUS as nat) <= o2 * (COUNTER_MODULUS as nat))
            by (nonlinear_arith)
            requires
                o1 < o2,
        ;
    }
}

/// The number of whole ticks in a span of milliseconds (rounded down).
pub open spec fn ticks_in_millis(ms: nat) -> nat {
    ms * 4096 / 125
}

/// Relies on fugit's `ExtU64::millis` into a 32768 Hz duration, whose source
/// computes `4096 * ms / 125` in `u64` (the reduced ratio of 32768 to 1000).
#[verifier::external_body]
pub(crate) fn millis_to_ticks(ms: u64) -> (r: TickDuration)
    requires
        ms <= u64::MAX / 4096,
    ensures
        r as nat == ticks_in_millis(ms as nat),
{
    let d: fugit::Duration<u64, 1, 32768> = ms.millis();
    d.ticks()
}

/// A one-shot deadline: elapsed once the tick count reaches `end_time`, and
/// elapsed for good from then on.
#[derive(Clone, Copy, Debug, PartialEq, Eq, Structural)]
pub struct Timer {
    pub end_time: TickInstant,
}

impl Timer {
    /// Whether the deadline has elapsed at instant `now`.
    pub open spec fn ready_at(self, now: TickInstant) -> bool {
        now >= self.end_time
    }

    /// A deadline `duration` ticks after the instant `now`.
    pub fn new(duration: TickDuration, now: TickInstant) -> (r: Timer)
        requires
            now + duration <= u64::MAX,
        ensures
            r.end_time == now + duration,
    {
        Timer { end_time: now + duration }
    }

    /// Whether the deadline has elapsed at instant `now`.
    pub fn is_ready(&self, now: TickInstant) -> (r: bool)
        ensures
            r == self.ready_at(now),
    {
        now >= self.end_time
    }

    /// `Ready` once the deadline has elapsed, `Pending` before.
    pub fn poll(&self, task_id: usize, now: TickInstant) -> (r: Poll<()>)
        ensures
            r is Ready <==> self.ready_at(now),
    {
        if self.is_ready(now) {
            Poll::Ready(())
        } else {
            Poll::Pending
        }
    }
}

/// A deadline made at `start` for `d` ticks is pending at every instant before
/// `start + d`, ready at every instant from `start + d` on, and stays ready:
/// once ready at some instant it is ready at every later one.
pub proof fn lemma_deadline_elapses_once(d: TickDuration, start: TickInstant, t1: TickInstant, t2: TickInstant)
    requires
        start + d <= u64::MAX,
    ensures
        (Timer { end_time: (start + d) as u64 }).ready_at(t1) <==> t1 >= start + d,
        (Timer { end_time: (start + d) as u64 }).ready_at(t1) && t1 <= t2
            ==> (Timer { end_time: (start + d) as u64 }).ready_at(t2),
{
}

} // verus!
