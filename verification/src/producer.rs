//! The producer: it watches the terminal and the clock and feeds the channel.
//!
//! The producer's loop polls the terminal for at most [`Producer::poll_timeout`],
//! reads the clock again and hands what the poll brought to
//! [`Producer::after_poll`], which says what to send and what to log.
//!
//! The clock is any monotonic counter.  Readings, the interval and timeouts
//! share its unit.  A reading that lies before the last tick counts as no
//! time elapsed.
use vstd::prelude::*;
use crate::event::{Event, EventView, Input, InputView};
use crate::text::with_text;

verus! {

/// The producer's state: the tick interval and the clock reading of the last tick.
#[derive(Clone, Copy, Debug, PartialEq, Eq, Structural)]
pub struct Producer {
    /// Time between two ticks.
    pub interval: u64,
    /// Clock reading at the last tick, or at the start.
    pub last_tick: u64,
}

/// One thing for the producer's loop to do.
#[derive(Debug, PartialEq, Eq)]
pub enum Outgoing {
    /// Put the event on the channel.
    Send(Event),
    /// Write the line to the producer's own diagnostic sink.
    Log(String),
}

/// An [`Outgoing`] with its text as a sequence of characters.
pub enum OutgoingView {
    Send(EventView),
    Log(Seq<char>),
}

impl View for Outgoing {
    type V = OutgoingView;

    open spec fn view(&self) -> OutgoingView {
        match *self {
            Outgoing::Send(event) => OutgoingView::Send(event@),
            Outgoing::Log(line) => OutgoingView::Log(line@),
        }
    }
}

/// The views of a list of outgoing items, in order.
pub open spec fn views(items: Seq<Outgoing>) -> Seq<OutgoingView> {
    items.map_values(|item: Outgoing| item@)
}

/// What becomes of a poll's result: a key press is sent on, pasted text is
/// logged where it arrived, anything else is dropped.
pub open spec fn routed(polled: Option<Input>) -> Seq<OutgoingView> {
    match polled {
        Some(Input::Key(key)) => seq![OutgoingView::Send(EventView::Input(InputView::Key(key)))],
        Some(Input::Paste(text)) => seq![OutgoingView::Log("Pasted: "@ + text@)],
        _ => seq![],
    }
}

impl Producer {
    /// Time elapsed between the last tick and the reading `now`.
    pub open spec fn elapsed(self, now: u64) -> int {
        if now >= self.last_tick {
            now - self.last_tick
        } else {
            0
        }
    }

    /// The reading at which the interval since the last tick has run out.
    pub open spec fn deadline(self) -> int {
        self.last_tick + self.interval
    }

    /// Time left at `now` until the deadline; zero once it has passed.
    pub open spec fn timeout(self, now: u64) -> int {
        if self.elapsed(now) <= self.interval {
            self.interval - self.elapsed(now)
        } else {
            0
        }
    }

    /// Whether more than the interval has elapsed at `now`.
    pub open spec fn tick_due(self, now: u64) -> bool {
        self.elapsed(now) > self.interval
    }

    /// The state after a poll that ended at `now`: a due tick restarts the clock.
    pub open spec fn after(self, now: u64) -> Producer {
        if self.tick_due(now) {
            Producer { interval: self.interval, last_tick: now }
        } else {
            self
        }
    }

    /// Everything a poll that ended at `now` gives rise to, in order: first
    /// what was polled, then the tick if one is due.
    pub open spec fn emitted(self, polled: Option<Input>, now: u64) -> Seq<OutgoingView> {
        if self.tick_due(now) {
            routed(polled).push(OutgoingView::Send(EventView::Tick))
        } else {
            routed(polled)
        }
    }

    /// The state after polls that ended at `readings`, one after the other.
    pub open spec fn after_all(self, readings: Seq<u64>) -> Producer
        decreases readings.len(),
    {
        if readings.len() == 0 {
            self
        } else {
            self.after_all(readings.drop_last()).after(readings.last())
        }
    }

    /// Whether the poll that ended at `readings[k]` gave rise to a tick.
    pub open spec fn ticks_at(self, readings: Seq<u64>, k: int) -> bool {
        self.after_all(readings.take(k)).tick_due(readings[k])
    }

    /// How many of the polls that ended at `readings` gave rise to a tick.
    pub open spec fn tick_count(self, readings: Seq<u64>) -> nat
        decreases readings.len(),
    {
        if readings.len() == 0 {
            0
        } else if self.after_all(readings.drop_last()).tick_due(readings.last()) {
            self.tick_count(readings.drop_last()) + 1
        } else {
            self.tick_count(readings.drop_last())
        }
    }

    /// The reading at which poll `k` of a run began: the first poll begins
    /// where the producer started, every other where the poll before ended.
    pub open spec fn began(self, readings: Seq<u64>, k: int) -> u64 {
        if k <= 0 {
            self.last_tick
        } else {
            readings[k - 1]
        }
    }

    /// Whether every poll of the run came back at most `slack` after the
    /// timeout that the producer gave it.  A poll that input cut short came
    /// back earlier still.
    pub open spec fn prompt(self, readings: Seq<u64>, slack: u64) -> bool {
        forall|k: int|
            0 <= k < readings.len() ==> #[trigger] readings[k] <= self.began(readings, k)
                + self.after_all(readings.take(k)).timeout(self.began(readings, k)) + slack
    }

    /// A producer that ticks every `interval`, started at the reading `now`.
    pub fn new(interval: u64, now: u64) -> (producer: Producer)
        ensures
            producer.interval == interval,
            producer.last_tick == now,
    {
        Producer { interval, last_tick: now }
    }

    /// How long the next poll may wait: the time left until the deadline,
    /// zero if it has passed.
    pub fn poll_timeout(&self, now: u64) -> (timeout: u64)
        ensures
            timeout == self.timeout(now),
            timeout <= self.interval,
    {
        let elapsed: u64 = now.saturating_sub(self.last_tick);
        self.interval.saturating_sub(elapsed)
    }

    /// Whether a tick is due at the reading `now`.
    pub fn is_tick_due(&self, now: u64) -> (due: bool)
        ensures
            due == self.tick_due(now),
    {
        now.saturating_sub(self.last_tick) > self.interval
    }

    /// Handles the end of one poll: `polled` is what the terminal reported, if
    /// anything, and `now` the clock reading after the poll.
    ///
    /// The result lists, in order, what to send and what to log.  A tick is
    /// sent whenever more than the interval has elapsed, whatever was polled,
    /// and restarts the clock at `now`.
    pub fn after_poll(&mut self, polled: Option<Input>, now: u64) -> (out: Vec<Outgoing>)
        ensures
            *final(self) == old(self).after(now),
            views(out@) == old(self).emitted(polled, now),
    {
        let mut out: Vec<Outgoing> = Vec::new();
        match polled {
            Some(Input::Key(key)) => {
                out.push(Outgoing::Send(Event::Input(Input::Key(key))));
            },
            Some(Input::Paste(text)) => {
                out.push(Outgoing::Log(with_text("Pasted: ", text.as_str())));
            },
            _ => {},
        }
        assert(views(out@) =~= routed(polled));
        if self.is_tick_due(now) {
            out.push(Outgoing::Send(Event::Tick));
            self.last_tick = now;
            assert(views(out@) =~= routed(polled).push(OutgoingView::Send(EventView::Tick)));
        }
        out
    }
}

/// The clock reading of the last tick never moves backwards, and the interval
/// never changes.
pub proof fn lemma_last_tick_grows(p: Producer, readings: Seq<u64>, k: int)
    requires
        0 <= k <= readings.len(),
    ensures
        p.after_all(readings).interval == p.interval,
        p.after_all(readings.take(k)).interval == p.interval,
        p.after_all(readings.take(k)).last_tick <= p.after_all(readings).last_tick,
    decreases readings.len() - k,
{
    if k == readings.len() {
        assert(readings.take(k) =~= readings);
        lemma_interval_kept(p, readings);
    } else {
        let shorter = readings.drop_last();
        assert(shorter.take(k) =~= readings.take(k));
        lemma_last_tick_grows(p, shorter, k);
    }
}

/// The interval never changes.
pub proof fn lemma_interval_kept(p: Producer, readings: Seq<u64>)
    ensures
        p.after_all(readings).interval == p.interval,
    decreases readings.len(),
{
    if readings.len() > 0 {
        lemma_interval_kept(p, readings.drop_last());
    }
}

/// Ticks are at most one per interval: between any two polls that gave rise
/// to a tick, more than the interval has passed on the clock.
pub proof fn law_ticks_spaced(p: Producer, readings: Seq<u64>, i: int, j: int)
    requires
        0 <= i < j < readings.len(),
        p.ticks_at(readings, i),
        p.ticks_at(readings, j),
    ensures
        readings[j] - readings[i] > p.interval,
{
    let upto_j = readings.take(j);
    assert(upto_j.take(i + 1) =~= readings.take(i + 1));
    assert(readings.take(i + 1).drop_last() =~= readings.take(i));
    assert(readings.take(i + 1).last() == readings[i]);
    lemma_last_tick_grows(p, upto_j, i + 1);
    assert(p.after_all(readings.take(i + 1)).last_tick == readings[i]);
}

/// No tick is dropped: a poll gives rise to a tick exactly when it ended
/// after the deadline, and the tick is the last thing that poll emits.
pub proof fn law_tick_when_due(p: Producer, polled: Option<Input>, now: u64)
    ensures
        p.tick_due(now) <==> now > p.deadline(),
        p.tick_due(now) ==> p.emitted(polled, now).last() == OutgoingView::Send(EventView::Tick),
        p.tick_due(now) ==> p.after(now).last_tick == now,
        !p.tick_due(now) ==> p.emitted(polled, now) == routed(polled) && p.after(now) == p,
{
}

/// Ticks are at least one per interval plus slack.  Take a poll that began
/// at `start` with the timeout the producer gave and came back at `back`, at
/// most `slack` after that timeout.  If it began by the deadline, it came back
/// no later than `slack` after the deadline; if it began after the deadline,
/// it came back within `slack` and gave rise to the tick.  A poll that ran its
/// timeout out came back at the deadline or after it, and any poll that comes
/// back after the deadline gives rise to the tick.
pub proof fn law_tick_within_slack(p: Producer, start: u64, back: u64, slack: u64)
    requires
        start <= back <= start + p.timeout(start) + slack,
    ensures
        start <= p.deadline() ==> back <= p.deadline() + slack,
        start > p.deadline() ==> back <= start + slack && p.tick_due(back),
        p.last_tick <= start && back >= start + p.timeout(start) ==> back >= p.deadline(),
        back > p.deadline() ==> p.tick_due(back),
{
}

/// Every poll begins no later than the deadline of the tick it waits for.
pub proof fn lemma_began_by_deadline(p: Producer, readings: Seq<u64>, k: int)
    requires
        0 <= k <= readings.len(),
    ensures
        p.began(readings, k) <= p.after_all(readings.take(k)).deadline(),
        p.after_all(readings.take(k)).interval == p.interval,
{
    lemma_interval_kept(p, readings.take(k));
    if k > 0 {
        let upto = readings.take(k);
        assert(upto.drop_last() =~= readings.take(k - 1));
        assert(upto.last() == readings[k - 1]);
        lemma_interval_kept(p, readings.take(k - 1));
    }
}

/// A run that is prompt stays prompt when its last poll is left out.
pub proof fn lemma_prompt_prefix(p: Producer, readings: Seq<u64>, slack: u64)
    requires
        readings.len() > 0,
        p.prompt(readings, slack),
    ensures
        p.prompt(readings.drop_last(), slack),
{
    let earlier = readings.drop_last();
    assert forall|k: int| 0 <= k < earlier.len() implies #[trigger] earlier[k] <= p.began(earlier, k)
        + p.after_all(earlier.take(k)).timeout(p.began(earlier, k)) + slack by {
        assert(earlier.take(k) =~= readings.take(k));
        assert(earlier[k] == readings[k]);
        assert(p.began(earlier, k) == p.began(readings, k));
    }
}

/// In a prompt run the clock of the last tick moves by at most the interval
/// plus the slack for each tick.
pub proof fn lemma_last_tick_bounded(p: Producer, readings: Seq<u64>, slack: u64)
    requires
        p.prompt(readings, slack),
    ensures
        p.after_all(readings).last_tick <= p.last_tick + p.tick_count(readings) * (p.interval
            + slack),
    decreases readings.len(),
{
    if readings.len() > 0 {
        let earlier = readings.drop_last();
        let k = readings.len() - 1;
        lemma_prompt_prefix(p, readings, slack);
        lemma_last_tick_bounded(p, earlier, slack);
        assert(readings.take(k) =~= earlier);
        lemma_began_by_deadline(p, readings, k);
        let count = p.tick_count(earlier) as int;
        let step = p.interval + slack;
        assert((count + 1) * step == count * step + step) by (nonlinear_arith);
        assert(readings[k] <= p.after_all(earlier).last_tick + step);
    }
}

/// Each tick moves the clock of the last tick by more than the interval, and
/// never past the latest reading.
pub proof fn lemma_last_tick_climbs(p: Producer, readings: Seq<u64>, latest: int)
    requires
        p.last_tick <= latest,
        forall|k: int| 0 <= k < readings.len() ==> readings[k] <= latest,
    ensures
        p.last_tick + p.tick_count(readings) * (p.interval + 1) <= p.after_all(readings).last_tick,
        p.after_all(readings).last_tick <= latest,
    decreases readings.len(),
{
    if readings.len() > 0 {
        let earlier = readings.drop_last();
        assert forall|k: int| 0 <= k < earlier.len() implies earlier[k] <= latest by {
            assert(earlier[k] == readings[k]);
        }
        lemma_last_tick_climbs(p, earlier, latest);
        lemma_interval_kept(p, earlier);
        let count = p.tick_count(earlier) as int;
        let step = p.interval + 1;
        assert((count + 1) * step == count * step + step) by (nonlinear_arith);
        assert(readings.last() == readings[readings.len() - 1]);
    }
}

/// Ticks in a window are at most one per interval: if every poll of a run
/// ended within `window` of the producer's start, the run gave rise to no
/// more ticks than intervals, each with one more unit of the clock, fit into
/// the window.
pub proof fn law_tick_count_at_most(p: Producer, readings: Seq<u64>, window: nat)
    requires
        forall|k: int| 0 <= k < readings.len() ==> readings[k] <= p.last_tick + window,
    ensures
        p.tick_count(readings) * (p.interval + 1) <= window,
{
    lemma_last_tick_climbs(p, readings, p.last_tick + window);
}

/// Ticks in a window are at least one per interval plus slack: in a prompt
/// run, a poll cannot end later after the producer's start than one interval
/// plus slack for each tick before it, and one more.
pub proof fn law_tick_count_at_least(p: Producer, readings: Seq<u64>, slack: u64)
    requires
        readings.len() > 0,
        p.prompt(readings, slack),
    ensures
        readings.last() <= p.last_tick + (p.tick_count(readings.drop_last()) + 1) * (p.interval
            + slack),
{
    let earlier = readings.drop_last();
    let k = readings.len() - 1;
    lemma_prompt_prefix(p, readings, slack);
    lemma_last_tick_bounded(p, earlier, slack);
    assert(readings.take(k) =~= earlier);
    lemma_began_by_deadline(p, readings, k);
    let count = p.tick_count(earlier) as int;
    let step = p.interval + slack;
    assert((count + 1) * step == count * step + step) by (nonlinear_arith);
    assert(readings[k] <= p.after_all(earlier).last_tick + step);
}

/// The number of ticks in a window.  Take a prompt run whose last poll is the
/// first to end after `window` has passed since the producer's start, and let
/// `n` be the number of ticks before that poll, which are those inside the
/// window.  Then `n` intervals, each with one more unit of the clock, fit
/// into the window, and `n + 1` intervals with slack do not.  So where `m`
/// intervals with slack fit into the window and `m + 1` intervals, each with
/// one more unit, do not, there are exactly `m` ticks: two for an interval of
/// 2000 and a window of 5000 with a slack of up to 500.
pub proof fn law_tick_count_in_window(
    p: Producer,
    readings: Seq<u64>,
    slack: u64,
    window: nat,
    m: nat,
)
    requires
        readings.len() > 0,
        p.prompt(readings, slack),
        forall|k: int| 0 <= k < readings.len() - 1 ==> readings[k] <= p.last_tick + window,
        readings.last() > p.last_tick + window,
    ensures
        p.tick_count(readings.drop_last()) * (p.interval + 1) <= window,
        window < (p.tick_count(readings.drop_last()) + 1) * (p.interval + slack),
        m * (p.interval + slack) <= window < (m + 1) * (p.interval + 1) ==> p.tick_count(
            readings.drop_last(),
        ) == m,
{
    let earlier = readings.drop_last();
    assert forall|k: int| 0 <= k < earlier.len() implies earlier[k] <= p.last_tick + window by {
        assert(earlier[k] == readings[k]);
    }
    law_tick_count_at_most(p, earlier, window);
    law_tick_count_at_least(p, readings, slack);
    let n = p.tick_count(earlier) as int;
    let tight = p.interval + 1;
    let loose = p.interval + slack;
    if m * loose <= window < (m + 1) * tight {
        assert(n <= m) by (nonlinear_arith)
            requires
                n * tight <= window,
                window < (m + 1) * tight,
                tight > 0,
                n >= 0,
        ;
        assert(m <= n) by (nonlinear_arith)
            requires
                m * loose <= window,
                window < (n + 1) * loose,
                loose >= 0,
                n >= 0,
        ;
    }
}

} // verus!
