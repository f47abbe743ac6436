//! The control send worker: it forwards log records and keeps the two timers
//! of the control channel, the keepalive and the battery report.
//!
//! Times are counted in milliseconds from a moment of the caller's choice.

use crate::hud::HudText;
use crate::workers::WorkerStep;
use vstd::prelude::*;

verus! {

/// The time between two battery reports, in milliseconds.
pub const BATTERY_INTERVAL_MS: u64 = 5000;

/// The three flags that every worker can read.
#[derive(Clone, Copy, Debug, PartialEq, Eq, Structural)]
pub struct Flags {
    /// The process runs.
    pub alive: bool,
    /// The device is not asleep.
    pub resumed: bool,
    /// A session is in its streaming phase.
    pub streaming: bool,
}

/// One look at the clock by the control send worker.
pub struct Poll {
    /// The time of the look.
    pub now: u64,
    /// Whether the control sender's slot holds a sender at that time.
    pub sender_live: bool,
}

/// What the worker sends after a look at the clock.
#[derive(Clone, Copy, Debug, PartialEq, Eq, Structural)]
pub struct TimerActions {
    /// Send a keepalive.
    pub keepalive: bool,
    /// Send the battery's gauge and plugged state.
    pub battery: bool,
}

/// A keepalive is sent once the deadline has passed, if there is a sender.
pub open spec fn keepalive_due(deadline: int, poll: Poll) -> bool {
    poll.now > deadline && poll.sender_live
}

/// The keepalive deadline after a look at the clock: a keepalive sent moves it
/// one interval past that look.
pub open spec fn keepalive_deadline_next(deadline: int, interval: int, poll: Poll) -> int {
    if keepalive_due(deadline, poll) {
        poll.now + interval
    } else {
        deadline
    }
}

/// The keepalive deadline after a run of looks at the clock by a worker that
/// started at `start`.
pub open spec fn keepalive_deadline_after(start: int, interval: int, polls: Seq<Poll>) -> int
    decreases polls.len(),
{
    if polls.len() == 0 {
        start
    } else {
        keepalive_deadline_next(
            keepalive_deadline_after(start, interval, polls.drop_last()),
            interval,
            polls.last(),
        )
    }
}

/// Whether look `i` of the run sends a keepalive.
pub open spec fn keepalive_sent_at(start: int, interval: int, polls: Seq<Poll>, i: int) -> bool
    recommends
        0 <= i < polls.len(),
{
    keepalive_due(keepalive_deadline_after(start, interval, polls.take(i)), polls[i])
}

/// The clock does not run backwards over the run.
pub open spec fn clock_monotonic(polls: Seq<Poll>) -> bool {
    forall|a: int, b: int| 0 <= a <= b < polls.len() ==> polls[a].now <= polls[b].now
}

/// The step before each round of the worker: it goes on while the session
/// streams, the device is awake and the process runs, and fires the
/// disconnect notifier when it leaves.
pub open spec fn round_step(flags: Flags) -> WorkerStep {
    if flags.streaming && flags.resumed && flags.alive {
        WorkerStep::Handle
    } else {
        WorkerStep::Stop { hud: None, notify: true }
    }
}

/// The step after a log record was handed to the control sender: a record
/// that could not be sent ends the worker.
pub open spec fn forward_step(sent: bool) -> WorkerStep {
    if sent {
        WorkerStep::Retry
    } else {
        WorkerStep::Stop { hud: Some(HudText::ServerDisconnected), notify: true }
    }
}

/// The timers of the control send worker.
pub struct ControlSendLoop {
    keepalive_deadline: u64,
    keepalive_interval: u64,
    battery_deadline: u64,
    reports_battery: bool,
}

impl ControlSendLoop {
    /// The time after which the next keepalive is sent.
    pub closed spec fn keepalive_deadline(&self) -> int {
        self.keepalive_deadline as int
    }

    /// The time between a keepalive and the next deadline.
    pub closed spec fn keepalive_interval(&self) -> int {
        self.keepalive_interval as int
    }

    /// The time after which the next battery report is made.
    pub closed spec fn battery_deadline(&self) -> int {
        self.battery_deadline as int
    }

    /// Whether the platform has a battery to report on.
    pub closed spec fn reports_battery(&self) -> bool {
        self.reports_battery
    }

    /// The timers of a worker that starts at `now`: both are due at once.
    pub fn new(now: u64, keepalive_interval: u64, reports_battery: bool) -> (timers: Self)
        ensures
            timers.keepalive_deadline() == now,
            timers.keepalive_interval() == keepalive_interval,
            timers.battery_deadline() == now,
            timers.reports_battery() == reports_battery,
    {
        ControlSendLoop {
            keepalive_deadline: now,
            keepalive_interval,
            battery_deadline: now,
            reports_battery,
        }
    }

    /// Says whether the worker starts another round.
    pub fn before_round(flags: Flags) -> (step: WorkerStep)
        ensures
            step == round_step(flags),
    {
        if flags.streaming && flags.resumed && flags.alive {
            WorkerStep::Handle
        } else {
            WorkerStep::Stop { hud: None, notify: true }
        }
    }

    /// Says how the worker goes on after it handed a log record to the
    /// control sender.
    pub fn after_log_forward(sent: bool) -> (step: WorkerStep)
        ensures
            step == forward_step(sent),
    {
        if sent {
            WorkerStep::Retry
        } else {
            WorkerStep::Stop { hud: Some(HudText::ServerDisconnected), notify: true }
        }
    }

    /// Looks at the clock and says what to send. A keepalive is sent when its
    /// deadline has passed and a sender is there; the deadline then moves one
    /// interval past `now`. A battery report is due when its deadline has
    /// passed on a platform with a battery; that deadline then moves, whether
    /// or not a sender is there to take the report.
    pub fn poll(&mut self, now: u64, sender_live: bool) -> (actions: TimerActions)
        requires
            now + old(self).keepalive_interval() <= u64::MAX,
            now + BATTERY_INTERVAL_MS <= u64::MAX,
        ensures
            final(self).keepalive_interval() == old(self).keepalive_interval(),
            final(self).reports_battery() == old(self).reports_battery(),
            actions.keepalive == keepalive_due(
                old(self).keepalive_deadline(),
                (Poll { now, sender_live }),
            ),
            final(self).keepalive_deadline() == keepalive_deadline_next(
                old(self).keepalive_deadline(),
                old(self).keepalive_interval(),
                (Poll { now, sender_live }),
            ),
            actions.battery == (old(self).reports_battery() && now > old(self).battery_deadline()
                && sender_live),
            final(self).battery_deadline() == (if old(self).reports_battery() && now > old(
                self,
            ).battery_deadline() {
                now + BATTERY_INTERVAL_MS
            } else {
                old(self).battery_deadline()
            }),
    {
        let keepalive = now > self.keepalive_deadline && sender_live;
        if keepalive {
            self.keepalive_deadline = now + self.keepalive_interval;
        }
        let battery_due = self.reports_battery && now > self.battery_deadline;
        if battery_due {
            self.battery_deadline = now + BATTERY_INTERVAL_MS;
        }
        TimerActions { keepalive, battery: battery_due && sender_live }
    }
}

/// Once a keepalive was sent at look `i`, the deadline never falls below one
/// interval past that look.
proof fn lemma_deadline_stays_late(start: int, interval: int, polls: Seq<Poll>, i: int, k: int)
    requires
        0 <= i < k <= polls.len(),
        0 <= interval,
        clock_monotonic(polls),
        keepalive_sent_at(start, interval, polls, i),
    ensures
        keepalive_deadline_after(start, interval, polls.take(k)) >= polls[i].now + interval,
    decreases k,
{
    assert(polls.take(k).drop_last() =~= polls.take(k - 1));
    assert(polls.take(k).last() == polls[k - 1]);
    if k > i + 1 {
        lemma_deadline_stays_late(start, interval, polls, i, k - 1);
    }
}

/// While no keepalive is sent after look `i`, the deadline stays one interval
/// past that look.
proof fn lemma_deadline_rests(start: int, interval: int, polls: Seq<Poll>, i: int, k: int)
    requires
        0 <= i < k <= polls.len(),
        keepalive_sent_at(start, interval, polls, i),
        forall|m: int| i < m < k ==> !keepalive_sent_at(start, interval, polls, m),
    ensures
        keepalive_deadline_after(start, interval, polls.take(k)) == polls[i].now + interval,
    decreases k,
{
    assert(polls.take(k).drop_last() =~= polls.take(k - 1));
    assert(polls.take(k).last() == polls[k - 1]);
    if k > i + 1 {
        lemma_deadline_rests(start, interval, polls, i, k - 1);
        assert(!keepalive_sent_at(start, interval, polls, k - 1));
    }
}

/// Two keepalives are more than one interval apart.
pub proof fn lemma_keepalives_not_early(
    start: int,
    interval: int,
    polls: Seq<Poll>,
    i: int,
    j: int,
)
    requires
        0 <= i < j < polls.len(),
        0 <= interval,
        clock_monotonic(polls),
        keepalive_sent_at(start, interval, polls, i),
        keepalive_sent_at(start, interval, polls, j),
    ensures
        polls[j].now - polls[i].now > interval,
{
    lemma_deadline_stays_late(start, interval, polls, i, j);
}

/// While the sender is live and the worker looks at the clock at least every
/// `gap`, a keepalive follows the one before it within one interval and one
/// such gap.
pub proof fn lemma_keepalives_not_late(
    start: int,
    interval: int,
    gap: int,
    polls: Seq<Poll>,
    i: int,
    j: int,
)
    requires
        0 <= i < j < polls.len(),
        0 <= interval,
        keepalive_sent_at(start, interval, polls, i),
        keepalive_sent_at(start, interval, polls, j),
        forall|m: int| i < m < j ==> !keepalive_sent_at(start, interval, polls, m),
        forall|m: int| i < m <= j ==> (#[trigger] polls[m]).sender_live,
        forall|m: int| i <= m < j ==> polls[m + 1].now - (#[trigger] polls[m]).now <= gap,
    ensures
        polls[j].now - polls[i].now <= interval + gap,
{
    if j > i + 1 {
        lemma_deadline_rests(start, interval, polls, i, j - 1);
        assert(!keepalive_sent_at(start, interval, polls, j - 1));
        assert(polls[j - 1].sender_live);
        assert(polls[j - 1].now <= polls[i].now + interval);
        assert(polls[(j - 1) + 1].now - polls[j - 1].now <= gap);
    } else {
        assert(polls[i + 1].now - polls[i].now <= gap);
    }
}

} // verus!
