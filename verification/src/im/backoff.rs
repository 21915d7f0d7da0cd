//! The delay between reconnect attempts: it starts at an initial value,
//! doubles with every unplanned disconnect and never passes a maximum.

use vstd::prelude::*;
use vstd::arithmetic::power2::pow2;
use vstd::arithmetic::power2::lemma_pow2_unfold;

verus! {

/// The first delay, in milliseconds.
pub const INITIAL_RECONNECT_DELAY_MS: u64 = 3000;

/// The longest delay, in milliseconds.
pub const MAX_RECONNECT_DELAY_MS: u64 = 60000;

/// Smaller of two natural numbers.
pub open spec fn min_nat(a: nat, b: nat) -> nat {
    if a <= b {
        a
    } else {
        b
    }
}

/// The delay that is scheduled at the disconnect that follows `earlier`
/// consecutive ones.
pub open spec fn delay_after(initial: nat, max: nat, earlier: nat) -> nat
    decreases earlier,
{
    if earlier == 0 {
        min_nat(initial, max)
    } else {
        min_nat(2 * delay_after(initial, max, (earlier - 1) as nat), max)
    }
}

/// Reconnect delays of one adapter.
#[derive(Debug, Clone, Copy)]
pub struct Backoff {
    initial_ms: u64,
    max_ms: u64,
    next_ms: u64,
}

impl Backoff {
    /// The delay of the first reconnect after a planned start.
    pub closed spec fn initial_ms(self) -> nat {
        self.initial_ms as nat
    }

    /// The bound on every delay.
    pub closed spec fn max_ms(self) -> nat {
        self.max_ms as nat
    }

    /// The delay that the next unplanned disconnect will schedule.
    pub closed spec fn next_ms(self) -> nat {
        self.next_ms as nat
    }

    /// Whether no disconnect has happened since the last reset.
    pub open spec fn is_reset(self) -> bool {
        self.next_ms() == min_nat(self.initial_ms(), self.max_ms())
    }

    /// Delays from `initial_ms` up to `max_ms`.
    pub fn new(initial_ms: u64, max_ms: u64) -> (b: Backoff)
        ensures
            b.initial_ms() == initial_ms,
            b.max_ms() == max_ms,
            b.is_reset(),
    {
        let next_ms = if initial_ms <= max_ms {
            initial_ms
        } else {
            max_ms
        };
        Backoff { initial_ms, max_ms, next_ms }
    }

    /// Takes the delay for the reconnect that follows an unplanned
    /// disconnect, and doubles the one after it up to the maximum.
    pub fn next_delay(&mut self) -> (delay_ms: u64)
        ensures
            delay_ms == old(self).next_ms(),
            final(self).next_ms() == min_nat(2 * old(self).next_ms(), old(self).max_ms()),
            final(self).initial_ms() == old(self).initial_ms(),
            final(self).max_ms() == old(self).max_ms(),
    {
        let delay_ms = self.next_ms;
        if self.next_ms > self.max_ms / 2 {
            self.next_ms = self.max_ms;
        } else {
            self.next_ms = 2 * self.next_ms;
        }
        delay_ms
    }

    /// Goes back to the initial delay.
    pub fn reset(&mut self)
        ensures
            final(self).is_reset(),
            final(self).initial_ms() == old(self).initial_ms(),
            final(self).max_ms() == old(self).max_ms(),
    {
        self.next_ms = if self.initial_ms <= self.max_ms {
            self.initial_ms
        } else {
            self.max_ms
        };
    }

    /// The delay that will be scheduled next.
    pub fn peek(&self) -> (delay_ms: u64)
        ensures
            delay_ms == self.next_ms(),
    {
        self.next_ms
    }

    /// Where the delays stand after `disconnects` unplanned disconnects.
    pub open spec fn after(self, disconnects: nat) -> nat {
        delay_after(self.initial_ms(), self.max_ms(), disconnects)
    }
}

impl Default for Backoff {
    fn default() -> (b: Backoff)
        ensures
            b.initial_ms() == INITIAL_RECONNECT_DELAY_MS,
            b.max_ms() == MAX_RECONNECT_DELAY_MS,
            b.is_reset(),
    {
        Backoff::new(INITIAL_RECONNECT_DELAY_MS, MAX_RECONNECT_DELAY_MS)
    }
}

/// The delay after `earlier` consecutive disconnects is the initial delay
/// doubled `earlier` times, or the maximum where that is smaller.
pub proof fn lemma_delay_doubles_up_to_max(initial: nat, max: nat, earlier: nat)
    ensures
        delay_after(initial, max, earlier) == min_nat(initial * pow2(earlier), max),
    decreases earlier,
{
    if earlier == 0 {
        assert(pow2(0) == 1) by {
            lemma_pow2_unfold(1);
            vstd::arithmetic::power2::lemma2_to64();
        }
        assert(initial * 1 == initial);
    } else {
        let before = (earlier - 1) as nat;
        lemma_delay_doubles_up_to_max(initial, max, before);
        lemma_pow2_unfold(earlier);
        assert(initial * pow2(earlier) == 2 * (initial * pow2(before))) by (nonlinear_arith)
            requires
                pow2(earlier) == 2 * pow2(before),
        ;
    }
}

/// Three unplanned disconnects in a row, counted from a reset, schedule the
/// initial delay, twice it and four times it, each cut at the maximum.
pub proof fn lemma_three_disconnects(initial: nat, max: nat)
    ensures
        delay_after(initial, max, 0) == min_nat(initial, max),
        delay_after(initial, max, 1) == min_nat(2 * initial, max),
        delay_after(initial, max, 2) == min_nat(4 * initial, max),
{
    reveal_with_fuel(delay_after, 3);
}

/// No delay passes the maximum, and the delays never shrink.
pub proof fn lemma_delay_bounded_and_monotone(initial: nat, max: nat, earlier: nat)
    ensures
        delay_after(initial, max, earlier) <= max,
        delay_after(initial, max, earlier) <= delay_after(initial, max, earlier + 1),
    decreases earlier,
{
    if earlier > 0 {
        lemma_delay_bounded_and_monotone(initial, max, (earlier - 1) as nat);
    }
    reveal_with_fuel(delay_after, 2);
}

/// After a reset the delay that comes next is the first of the delays.
pub proof fn lemma_reset_is_first_delay(backoff: Backoff)
    requires
        backoff.is_reset(),
    ensures
        backoff.next_ms() == delay_after(backoff.initial_ms(), backoff.max_ms(), 0),
{
}

/// Each unplanned disconnect moves the delays on by one: where `before`
/// stands at the delay for `earlier` disconnects and `after` is what
/// `next_delay` made of it, `after` stands at the delay for one more.
pub proof fn lemma_loss_moves_delay_on(before: Backoff, after: Backoff, earlier: nat)
    requires
        after.initial_ms() == before.initial_ms(),
        after.max_ms() == before.max_ms(),
        after.next_ms() == min_nat(2 * before.next_ms(), before.max_ms()),
        before.next_ms() == delay_after(before.initial_ms(), before.max_ms(), earlier),
    ensures
        after.next_ms() == delay_after(before.initial_ms(), before.max_ms(), earlier + 1),
{
    reveal_with_fuel(delay_after, 2);
}

/// What an adapter with a standing connection remembers about reconnects:
/// the delays, and whether a stop was asked for.
#[derive(Debug, Clone, Copy)]
pub struct ReconnectPolicy {
    backoff: Backoff,
    stopping: bool,
}

impl ReconnectPolicy {
    /// The delays.
    pub closed spec fn backoff(self) -> Backoff {
        self.backoff
    }

    /// Whether a stop was asked for since the last planned start.
    pub closed spec fn stopping(self) -> bool {
        self.stopping
    }

    /// The policy of an adapter that was never started.
    pub fn new() -> (p: ReconnectPolicy)
        ensures
            !p.stopping(),
            p.backoff().is_reset(),
            p.backoff().initial_ms() == INITIAL_RECONNECT_DELAY_MS,
            p.backoff().max_ms() == MAX_RECONNECT_DELAY_MS,
    {
        ReconnectPolicy { backoff: Backoff::default(), stopping: false }
    }

    /// Whether a stop was asked for since the last planned start.
    pub fn is_stopping(&self) -> (b: bool)
        ensures
            b == self.stopping(),
    {
        self.stopping
    }

    /// A planned start: the delay goes back to its initial value and
    /// reconnects are allowed again.
    pub fn planned_start(&mut self)
        ensures
            !final(self).stopping(),
            final(self).backoff().is_reset(),
            final(self).backoff().initial_ms() == old(self).backoff().initial_ms(),
            final(self).backoff().max_ms() == old(self).backoff().max_ms(),
    {
        self.backoff.reset();
        self.stopping = false;
    }

    /// A stop was asked for: no reconnect follows until the next planned
    /// start.
    pub fn stop(&mut self)
        ensures
            final(self).stopping(),
            final(self).backoff() == old(self).backoff(),
    {
        self.stopping = true;
    }

    /// The connection was lost. After a stop nothing follows; otherwise a
    /// reconnect is due after the delay handed out, and the next delay is
    /// twice as long, up to the maximum.
    pub fn connection_lost(&mut self) -> (delay_ms: Option<u64>)
        ensures
            final(self).stopping() == old(self).stopping(),
            final(self).backoff().initial_ms() == old(self).backoff().initial_ms(),
            final(self).backoff().max_ms() == old(self).backoff().max_ms(),
            old(self).stopping() ==> delay_ms is None && *final(self) == *old(self),
            !old(self).stopping() ==> delay_ms is Some && delay_ms->0 == old(self).backoff().next_ms() && final(self).backoff().next_ms() == min_nat(2 * old(self).backoff().next_ms(), old(self).backoff().max_ms()),
    {
        if self.stopping {
            None
        } else {
            Some(self.backoff.next_delay())
        }
    }
}

} // verus!
