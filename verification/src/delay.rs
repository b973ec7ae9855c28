//! Blocking waits on a countdown timer whose counter is narrower than the
//! waits asked of it.
//!
//! A wait is counted in ticks of the timer's clock and cut into runs of at
//! most [`MAX_COUNTER_VALUE`] ticks. [`Wait`] is the progress of one wait: it
//! is advanced by [`Wait::step`], which takes what the timer last reported and
//! answers with the next thing to do on the timer.

use vstd::prelude::*;

verus! {

/// The most ticks one run of the counter is programmed with.
pub const MAX_COUNTER_VALUE: u32 = 16_777_216;

/// Microseconds in a second: the clock frequency is divided by it.
pub const MICROS_PER_SECOND: u32 = 1_000_000;

/// Microseconds in a millisecond.
pub const MICROS_PER_MILLI: u32 = 1_000;

/// Ticks of a clock of `clock_freq` Hz in one microsecond, rounded down.
pub open spec fn ticks_per_micro(clock_freq: u32) -> nat {
    (clock_freq / MICROS_PER_SECOND) as nat
}

/// Ticks that a wait of `us` microseconds takes on a clock of `clock_freq` Hz.
pub open spec fn total_ticks(clock_freq: u32, us: nat) -> nat {
    us * ticks_per_micro(clock_freq)
}

/// The length of the next run when `total` ticks are still to be counted.
pub open spec fn chunk_of(total: nat) -> nat {
    if total < MAX_COUNTER_VALUE as nat {
        total
    } else {
        MAX_COUNTER_VALUE as nat
    }
}

/// The reload values that a wait of `total` ticks programs, in order.
pub open spec fn chunks(total: nat) -> Seq<u32>
    decreases total,
{
    if total == 0 {
        Seq::empty()
    } else {
        seq![chunk_of(total) as u32] + chunks((total - chunk_of(total)) as nat)
    }
}

/// The sum of a sequence of reload values.
pub open spec fn sum_of(s: Seq<u32>) -> nat
    decreases s.len(),
{
    if s.len() == 0 {
        0
    } else {
        s[0] as nat + sum_of(s.subrange(1, s.len() as int))
    }
}

/// The runs of a wait add up to the wait: no tick is lost or counted twice.
pub proof fn lemma_chunks_sum(total: nat)
    ensures
        sum_of(chunks(total)) == total,
    decreases total,
{
    if total != 0 {
        let rest = (total - chunk_of(total)) as nat;
        lemma_chunks_sum(rest);
        let s = chunks(total);
        assert(s.subrange(1, s.len() as int) =~= chunks(rest));
    }
}

/// A wait takes as many runs as full counters fit into it, rounded up; so a
/// wait of nothing programs nothing, and one longer than a full counter
/// programs the timer more than once.
pub proof fn lemma_chunks_len(total: nat)
    ensures
        chunks(total).len() == (total + MAX_COUNTER_VALUE - 1) / (MAX_COUNTER_VALUE as int),
        total == 0 <==> chunks(total).len() == 0,
        total > MAX_COUNTER_VALUE ==> chunks(total).len() > 1,
    decreases total,
{
    if total != 0 {
        let rest = (total - chunk_of(total)) as nat;
        lemma_chunks_len(rest);
    }
}

/// Every run but the last is a full counter; the last is what is left, and
/// none is empty.
pub proof fn lemma_chunks_shape(total: nat, i: int)
    requires
        0 <= i < chunks(total).len(),
    ensures
        0 < chunks(total)[i] <= MAX_COUNTER_VALUE,
        i + 1 < chunks(total).len() ==> chunks(total)[i] == MAX_COUNTER_VALUE,
        i + 1 == chunks(total).len() ==> chunks(total)[i] == total - i * MAX_COUNTER_VALUE,
    decreases total,
{
    let rest = (total - chunk_of(total)) as nat;
    lemma_chunks_len(total);
    lemma_chunks_len(rest);
    if i > 0 {
        lemma_chunks_shape(rest, i - 1);
        assert(chunks(total)[i] == chunks(rest)[i - 1]);
        assert(total - i * MAX_COUNTER_VALUE == rest - (i - 1) * MAX_COUNTER_VALUE)
            by (nonlinear_arith)
            requires
                rest == total - MAX_COUNTER_VALUE,
        ;
    }
}

/// What the timer hands back to a wait.
#[derive(Clone, Copy, Debug, PartialEq, Eq, Structural)]
pub enum TimerEvent {
    /// The last command was carried out; the flag has not been read since.
    Ready,
    /// The flag was read: `wrapped` says whether the counter has run out
    /// since it was last cleared.
    Flag { wrapped: bool },
}

/// What a wait wants done on the timer next.
#[derive(Clone, Copy, Debug, PartialEq, Eq, Structural)]
pub enum TimerCommand {
    /// Program the reload register with `reload`, reset the current count to
    /// zero and enable the counter.
    Start { reload: u32 },
    /// Read the flag that says whether the counter has run out.
    Poll,
    /// Disable the counter.
    Stop,
    /// Nothing is left to do: the wait is over.
    Return,
}

impl TimerCommand {
    /// The reload value that the command programs, if it programs one.
    pub open spec fn programs(self) -> Seq<u32> {
        match self {
            TimerCommand::Start { reload } => seq![reload],
            _ => Seq::empty(),
        }
    }
}

/// The progress of one blocking wait.
#[derive(Clone, Copy, Debug, PartialEq, Eq, Structural)]
pub enum Wait {
    /// The counter stands still, and `remaining` ticks are yet to be counted.
    Idle { remaining: u64 },
    /// The counter runs; `remaining` ticks are left for the runs after this one.
    Counting { remaining: u64 },
}

impl Wait {
    /// The ticks that no run has been started for yet.
    pub open spec fn remaining(self) -> nat {
        match self {
            Wait::Idle { remaining } => remaining as nat,
            Wait::Counting { remaining } => remaining as nat,
        }
    }

    /// The reload values that the wait will still program, in order.
    pub open spec fn reloads(self) -> Seq<u32> {
        chunks(self.remaining())
    }

    /// The wait is over: nothing runs and nothing is left.
    pub open spec fn is_over(self) -> bool {
        self == (Wait::Idle { remaining: 0 })
    }

    /// The command that the wait answers `event` with.
    pub open spec fn command(self, event: TimerEvent) -> TimerCommand {
        match self {
            Wait::Idle { remaining } => if remaining == 0 {
                TimerCommand::Return
            } else {
                TimerCommand::Start { reload: chunk_of(remaining as nat) as u32 }
            },
            Wait::Counting { remaining } => if event == (TimerEvent::Flag { wrapped: true }) {
                TimerCommand::Stop
            } else {
                TimerCommand::Poll
            },
        }
    }

    /// The state that the wait is in after it has answered `event`.
    pub open spec fn next(self, event: TimerEvent) -> Wait {
        match self {
            Wait::Idle { remaining } => if remaining == 0 {
                self
            } else {
                Wait::Counting { remaining: (remaining - chunk_of(remaining as nat)) as u64 }
            },
            Wait::Counting { remaining } => if event == (TimerEvent::Flag { wrapped: true }) {
                Wait::Idle { remaining }
            } else {
                self
            },
        }
    }

    /// The state of the wait after it has answered `events` one after another.
    pub open spec fn after(self, events: Seq<TimerEvent>) -> Wait
        decreases events.len(),
    {
        if events.len() == 0 {
            self
        } else {
            self.next(events[0]).after(events.drop_first())
        }
    }

    /// The reload values that the wait programs while it answers `events`
    /// one after another, in order.
    pub open spec fn programmed(self, events: Seq<TimerEvent>) -> Seq<u32>
        decreases events.len(),
    {
        if events.len() == 0 {
            Seq::empty()
        } else {
            self.command(events[0]).programs() + self.next(events[0]).programmed(
                events.drop_first(),
            )
        }
    }

    /// Answers what the timer handed back with the next command, and moves on.
    ///
    /// With the counter still: if nothing is left the wait is over, else the
    /// next run is started with as many of the remaining ticks as one counter
    /// holds, and those ticks are taken off at once. With the counter running:
    /// the flag is polled until it has been read as set, then the counter is
    /// stopped. What is programmed here and what is left to program make up
    /// what was left to program before.
    pub fn step(self, event: TimerEvent) -> (r: (Wait, TimerCommand))
        ensures
            r.0 == self.next(event),
            r.1 == self.command(event),
            r.1.programs() + r.0.reloads() == self.reloads(),
            r.1 == TimerCommand::Return <==> self.is_over(),
    {
        match self {
            Wait::Idle { remaining } => {
                if remaining == 0 {
                    (self, TimerCommand::Return)
                } else {
                    let reload: u32 = next_chunk(remaining);
                    let rest: u64 = remaining - reload as u64;
                    (Wait::Counting { remaining: rest }, TimerCommand::Start { reload })
                }
            },
            Wait::Counting { remaining } => {
                match event {
                    TimerEvent::Flag { wrapped: true } => (
                        Wait::Idle { remaining },
                        TimerCommand::Stop,
                    ),
                    _ => (self, TimerCommand::Poll),
                }
            },
        }
    }
}

/// Whatever the timer hands back, what a wait programs in answer and what
/// it then has left to program make up what it had left before.
pub proof fn lemma_step_keeps_reloads(wait: Wait, event: TimerEvent)
    ensures
        wait.command(event).programs() + wait.next(event).reloads() == wait.reloads(),
{
    assert(wait.command(event).programs() + wait.next(event).reloads() =~= wait.reloads());
}

/// However the timer behaves, what a wait has programmed after any number of
/// events, followed by what it has left to program, is what it set out to
/// program. Once it is over it has programmed exactly the runs of its ticks,
/// and they add up to the ticks.
pub proof fn lemma_run_programs_reloads(wait: Wait, events: Seq<TimerEvent>)
    ensures
        wait.programmed(events) + wait.after(events).reloads() == wait.reloads(),
        wait.after(events).is_over() ==> wait.programmed(events) == wait.reloads(),
        wait.after(events).is_over() ==> sum_of(wait.programmed(events)) == wait.remaining(),
    decreases events.len(),
{
    if events.len() == 0 {
        assert(wait.programmed(events) + wait.after(events).reloads() =~= wait.reloads());
    } else {
        let first = wait.command(events[0]).programs();
        let then = wait.next(events[0]);
        let rest = events.drop_first();
        lemma_run_programs_reloads(then, rest);
        lemma_step_keeps_reloads(wait, events[0]);
        assert(wait.programmed(events) + wait.after(events).reloads() =~= first + (
            then.programmed(rest) + then.after(rest).reloads()
        ));
    }
    if wait.after(events).is_over() {
        assert(wait.programmed(events) + wait.after(events).reloads() =~= wait.programmed(events));
        lemma_chunks_sum(wait.remaining());
    }
}

/// A wait that is over stays over, and a wait never has more left than it had.
pub proof fn lemma_step_never_adds(wait: Wait, event: TimerEvent)
    ensures
        wait.next(event).remaining() <= wait.remaining(),
        wait.is_over() ==> wait.next(event).is_over(),
        wait.command(event) is Start ==> wait.next(event).remaining() < wait.remaining(),
{
}

/// The length of the next run of the counter when `total` ticks are left:
/// all of them, or a full counter if they are more than that.
pub fn next_chunk(total: u64) -> (chunk: u32)
    ensures
        chunk == chunk_of(total as nat),
{
    if total < MAX_COUNTER_VALUE as u64 {
        total as u32
    } else {
        MAX_COUNTER_VALUE
    }
}

/// The clock that a timer counts on.
#[derive(Clone, Copy, Debug, PartialEq, Eq, Structural)]
pub enum ClockSource {
    /// The core clock
    Core,
    /// The external reference clock
    External,
}

/// The widening of `cast::u32` from `u8`: a promotion, which
/// the crate implements as the plain conversion, so the result is the
/// argument's value.
#[verifier::external_body]
fn widen_u8(x: u8) -> (r: u32)
    ensures
        r == x,
{
    cast::u32(x)
}

/// The widening of `cast::u32` from `u16`: a promotion, which
/// the crate implements as the plain conversion, so the result is the
/// argument's value.
#[verifier::external_body]
fn widen_u16(x: u16) -> (r: u32)
    ensures
        r == x,
{
    cast::u32(x)
}

/// Countdown timer as a delay provider.
///
/// It owns the timer resource `timer` for as long as it lives, together
/// with the frequency of the clock that the timer counts on.
pub struct Delay<T> {
    clock_freq: u32,
    timer: T,
}

impl<T> Delay<T> {
    /// The provider that owns `timer` and is calibrated to `clock_freq` Hz.
    pub closed spec fn holding(timer: T, clock_freq: u32) -> Self {
        Delay { clock_freq, timer }
    }

    /// The timer resource that the provider owns.
    pub closed spec fn resource(self) -> T {
        self.timer
    }

    /// The clock frequency in Hz that the provider was made with.
    pub closed spec fn frequency(self) -> u32 {
        self.clock_freq
    }

    /// The wait that `delay_us` begins: all its ticks are still to count.
    pub open spec fn wait_for_micros(self, us: nat) -> Wait {
        Wait::Idle { remaining: total_ticks(self.frequency(), us) as u64 }
    }

    /// The wait that `delay_ms` begins.
    pub open spec fn wait_for_millis(self, ms: nat) -> Wait {
        self.wait_for_micros(ms * MICROS_PER_MILLI as nat)
    }

    /// Takes the timer as a delay provider. The timer is to count on
    /// [`Delay::clock_source`].
    pub fn new(timer: T, clock_freq: u32) -> (delay: Self)
        ensures
            delay == Self::holding(timer, clock_freq),
            delay.resource() == timer,
            delay.frequency() == clock_freq,
    {
        Delay { clock_freq, timer }
    }

    /// Releases the timer resource.
    pub fn free(self) -> (timer: T)
        ensures
            timer == self.resource(),
    {
        self.timer
    }

    /// The clock that the timer of a provider is set to count on: the core
    /// clock, whose frequency the provider is calibrated to.
    pub fn clock_source(&self) -> (source: ClockSource)
        ensures
            source == ClockSource::Core,
    {
        ClockSource::Core
    }

    /// The clock frequency in Hz that the provider was made with.
    pub fn clock_frequency(&self) -> (f: u32)
        ensures
            f == self.frequency(),
    {
        self.clock_freq
    }

    /// The timer, to carry out on it what a wait commands. The provider
    /// keeps its calibration.
    pub fn timer_mut(&mut self) -> (timer: &mut T)
        ensures
            *timer == old(self).resource(),
            *final(self) == Self::holding(*final(timer), old(self).frequency()),
            final(self).resource() == *final(timer),
            final(self).frequency() == old(self).frequency(),
    {
        &mut self.timer
    }

    /// Ticks for `us` microseconds on this provider's clock. The product is
    /// taken in 64 bits, which hold it for every wait that can be asked for.
    fn ticks(&self, us: u64) -> (t: u64)
        requires
            us <= u32::MAX * 1_000,
        ensures
            t == total_ticks(self.frequency(), us as nat),
    {
        let per_micro: u64 = (self.clock_freq / MICROS_PER_SECOND) as u64;
        assert(us * per_micro <= u64::MAX) by (nonlinear_arith)
            requires
                us <= 4_294_967_295_000,
                per_micro <= 4_294,
        ;
        us * per_micro
    }

    /// Begins a wait of `us` microseconds: `us` times the clock's ticks per
    /// microsecond are to be counted, and none has been yet.
    pub fn delay_us(&mut self, us: u32) -> (wait: Wait)
        ensures
            *final(self) == *old(self),
            wait == old(self).wait_for_micros(us as nat),
            wait.remaining() == total_ticks(old(self).frequency(), us as nat),
    {
        Wait::Idle { remaining: self.ticks(us as u64) }
    }

    /// Begins a wait of `ms` milliseconds, which is the wait of a thousand
    /// times as many microseconds. The microseconds are counted in 64 bits:
    /// no `ms` is too large.
    pub fn delay_ms(&mut self, ms: u32) -> (wait: Wait)
        ensures
            *final(self) == *old(self),
            wait == old(self).wait_for_millis(ms as nat),
            wait.remaining() == total_ticks(old(self).frequency(), ms as nat * 1_000),
    {
        assert(ms * MICROS_PER_MILLI == ms * 1_000 <= u32::MAX * 1_000) by (nonlinear_arith)
            requires
                MICROS_PER_MILLI == 1_000,
                ms <= u32::MAX,
        ;
        let us: u64 = ms as u64 * MICROS_PER_MILLI as u64;
        Wait::Idle { remaining: self.ticks(us) }
    }

    /// Begins a wait of `ms` milliseconds, given in 16 bits.
    pub fn delay_ms_u16(&mut self, ms: u16) -> (wait: Wait)
        ensures
            *final(self) == *old(self),
            wait == old(self).wait_for_millis(ms as nat),
    {
        self.delay_ms(widen_u16(ms))
    }

    /// Begins a wait of `ms` milliseconds, given in 8 bits.
    pub fn delay_ms_u8(&mut self, ms: u8) -> (wait: Wait)
        ensures
            *final(self) == *old(self),
            wait == old(self).wait_for_millis(ms as nat),
    {
        self.delay_ms(widen_u8(ms))
    }
}

/// The ticks of any wait that can be asked for fit in 64 bits.
pub proof fn lemma_ticks_fit(clock_freq: u32, us: nat)
    requires
        us <= u32::MAX * MICROS_PER_MILLI,
    ensures
        total_ticks(clock_freq, us) <= u64::MAX,
{
    let per_micro = ticks_per_micro(clock_freq);
    assert(us * per_micro <= u64::MAX) by (nonlinear_arith)
        requires
            us <= 4_294_967_295_000,
            per_micro <= 4_294,
    ;
}

/// A provider made from a timer gives that timer back when it is released,
/// whatever it was calibrated to.
pub proof fn lemma_release_returns_timer<T>(timer: T, clock_freq: u32)
    ensures
        Delay::holding(timer, clock_freq).resource() == timer,
        Delay::holding(timer, clock_freq).frequency() == clock_freq,
{
}

/// A wait of no time is over before it began: it commands a return at once
/// and programs nothing.
pub proof fn lemma_zero_wait<T>(delay: Delay<T>, event: TimerEvent)
    ensures
        delay.wait_for_micros(0).is_over(),
        delay.wait_for_micros(0).command(event) == TimerCommand::Return,
        delay.wait_for_micros(0).next(event) == delay.wait_for_micros(0),
        delay.wait_for_micros(0).reloads() == Seq::<u32>::empty(),
{
}

/// A wait in milliseconds is the wait in microseconds of a thousand times
/// the number, wherever that product is a number `delay_us` takes.
pub proof fn lemma_millis_as_micros<T>(delay: Delay<T>, ms: u32)
    requires
        ms * MICROS_PER_MILLI <= u32::MAX,
    ensures
        delay.wait_for_millis(ms as nat) == delay.wait_for_micros(
            ((ms * MICROS_PER_MILLI) as u32) as nat,
        ),
{
}

/// Over a whole wait of `us` microseconds the reload values programmed add
/// up to the ticks of the wait, and the timer is programmed more than once
/// where they are more than one counter holds.
pub proof fn lemma_wait_programs_all_ticks<T>(delay: Delay<T>, us: u32)
    ensures
        sum_of(delay.wait_for_micros(us as nat).reloads()) == total_ticks(
            delay.frequency(),
            us as nat,
        ),
        total_ticks(delay.frequency(), us as nat) > MAX_COUNTER_VALUE
            ==> delay.wait_for_micros(us as nat).reloads().len() > 1,
{
    let total = total_ticks(delay.frequency(), us as nat);
    lemma_ticks_fit(delay.frequency(), us as nat);
    lemma_chunks_sum(total);
    lemma_chunks_len(total);
}

} // verus!
