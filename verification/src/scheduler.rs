//! When the page is drawn: once, or at the start of every minute.
//!
//! The scheduler decides and does nothing else. Its caller tells it what
//! happened, as an [`Event`], and carries out the [`Action`] it answers
//! with: arming a timer, drawing and sending a page, waiting, leaving.

use crate::timestamp::Timestamp;
use vstd::prelude::*;

verus! {

/// The seconds between one drawing and the next.
pub const PERIOD_SECONDS: u32 = 60;

/// What ends a run that cannot go on.
#[derive(Clone, Copy, Debug, PartialEq, Eq, Structural)]
pub enum Failure {
    /// The timer's signal was lost.
    TimerLost,
    /// A page could not be drawn or sent.
    DispatchFailed,
    /// The minute after the last one cannot be held in a [`Timestamp`].
    OutOfTime,
}

/// Where a run stands.
#[derive(Clone, Copy, Debug, PartialEq, Eq, Structural)]
pub enum Phase {
    /// Not started.
    Idle,
    /// Waiting for the timer, which is due at `next`.
    Waiting { next: Timestamp },
    /// A page is being drawn and sent. `after` is when the timer is due
    /// after that; there is none when the page is drawn once.
    Firing { after: Option<Timestamp> },
    /// The run is over; the page was drawn once.
    Finished,
    /// The run is over, because it could not go on.
    Failed { failure: Failure },
}

/// What the scheduler is told.
#[derive(Clone, Copy, Debug, PartialEq, Eq, Structural)]
pub enum Event {
    /// The run starts, at the reading `now`.
    Started { now: Timestamp },
    /// The timer is due.
    Triggered,
    /// The page was drawn and sent.
    Dispatched,
    /// The page could not be drawn or sent.
    DispatchFailed,
    /// The timer's signal was lost.
    TimerFailed,
}

/// What the caller is to do.
#[derive(Clone, Copy, Debug, PartialEq, Eq, Structural)]
pub enum Action {
    /// Arm a timer that is due at `first` and every `period_seconds`
    /// after it, then wait for it.
    Arm { first: Timestamp, period_seconds: u32 },
    /// Draw the page for the present reading and send it.
    Render,
    /// Wait for the timer.
    Wait,
    /// Leave: all is done.
    Exit,
    /// Leave with an error.
    Abort { failure: Failure },
    /// Nothing: the event has no meaning where the run stands.
    Ignore,
}

/// A run of the clock.
#[derive(Clone, Copy, Debug, PartialEq, Eq, Structural)]
pub struct Scheduler {
    /// Whether the page is drawn once, and not every minute.
    pub one_shot: bool,
    /// Where the run stands.
    pub phase: Phase,
}

/// The run after `event`, and what the caller is to do.
///
/// A run that draws once goes from `Idle` to `Firing` when it starts, and
/// to `Finished` when the page is sent. A run that draws every minute arms
/// the timer for the start of the minute in which it starts, which is not
/// in the future, so that the first page is drawn at once; each time the
/// timer is due it draws, and the timer is next due one period after it was
/// due, whatever the time has become. A lost signal or a page that could
/// not be sent ends the run.
pub open spec fn step_of(run: Scheduler, event: Event) -> (Scheduler, Action) {
    match (run.phase, event) {
        (Phase::Idle, Event::Started { now }) => if run.one_shot {
            (Scheduler { phase: Phase::Firing { after: None }, ..run }, Action::Render)
        } else {
            (
                Scheduler { phase: Phase::Waiting { next: now.minute_start() }, ..run },
                Action::Arm { first: now.minute_start(), period_seconds: PERIOD_SECONDS },
            )
        },
        (Phase::Waiting { next }, Event::Triggered) => match next.later_by(PERIOD_SECONDS as int) {
            Some(after) => (
                Scheduler { phase: Phase::Firing { after: Some(after) }, ..run },
                Action::Render,
            ),
            None => (
                Scheduler { phase: Phase::Failed { failure: Failure::OutOfTime }, ..run },
                Action::Abort { failure: Failure::OutOfTime },
            ),
        },
        (Phase::Waiting { next }, Event::TimerFailed) => (
            Scheduler { phase: Phase::Failed { failure: Failure::TimerLost }, ..run },
            Action::Abort { failure: Failure::TimerLost },
        ),
        (Phase::Firing { after }, Event::Dispatched) => match after {
            Some(next) => (Scheduler { phase: Phase::Waiting { next }, ..run }, Action::Wait),
            None => (Scheduler { phase: Phase::Finished, ..run }, Action::Exit),
        },
        (Phase::Firing { after }, Event::DispatchFailed) => (
            Scheduler { phase: Phase::Failed { failure: Failure::DispatchFailed }, ..run },
            Action::Abort { failure: Failure::DispatchFailed },
        ),
        _ => (run, Action::Ignore),
    }
}

/// The run after the events of `events`, one after the other.
pub open spec fn run_of(run: Scheduler, events: Seq<Event>) -> Scheduler
    decreases events.len(),
{
    if events.len() == 0 {
        run
    } else {
        step_of(run_of(run, events.drop_last()), events.last()).0
    }
}

/// How often the caller is told to draw during the events of `events`.
pub open spec fn renders_of(run: Scheduler, events: Seq<Event>) -> nat
    decreases events.len(),
{
    if events.len() == 0 {
        0
    } else {
        let before = renders_of(run, events.drop_last());
        if step_of(run_of(run, events.drop_last()), events.last()).1 == Action::Render {
            before + 1
        } else {
            before
        }
    }
}

/// How often the caller is told to arm a timer or to wait for it during the
/// events of `events`.
pub open spec fn waits_of(run: Scheduler, events: Seq<Event>) -> nat
    decreases events.len(),
{
    if events.len() == 0 {
        0
    } else {
        let before = waits_of(run, events.drop_last());
        let action = step_of(run_of(run, events.drop_last()), events.last()).1;
        if action is Arm || action == Action::Wait {
            before + 1
        } else {
            before
        }
    }
}

/// The run after `cycles` rounds of the timer coming due and the page being
/// drawn and sent.
pub open spec fn after_cycles(run: Scheduler, cycles: nat) -> Scheduler
    decreases cycles,
{
    if cycles == 0 {
        run
    } else {
        let before = after_cycles(run, (cycles - 1) as nat);
        step_of(step_of(before, Event::Triggered).0, Event::Dispatched).0
    }
}

impl Scheduler {
    /// A run that has not started.
    pub fn new(one_shot: bool) -> (run: Scheduler)
        ensures
            run == (Scheduler { one_shot, phase: Phase::Idle }),
    {
        Scheduler { one_shot, phase: Phase::Idle }
    }

    /// Whether the run is over.
    pub fn is_over(&self) -> (over: bool)
        ensures
            over == (self.phase is Finished || self.phase is Failed),
    {
        match self.phase {
            Phase::Finished => true,
            Phase::Failed { .. } => true,
            _ => false,
        }
    }

    /// When the timer is next due, while the run waits for it.
    pub fn next_fire(&self) -> (next: Option<Timestamp>)
        ensures
            next == match self.phase {
                Phase::Waiting { next } => Some(next),
                _ => None::<Timestamp>,
            },
    {
        match self.phase {
            Phase::Waiting { next } => Some(next),
            _ => None,
        }
    }

    /// Takes `event` in, and says what the caller is to do.
    pub fn step(&mut self, event: Event) -> (action: Action)
        ensures
            (*final(self), action) == step_of(*old(self), event),
    {
        let one_shot = self.one_shot;
        match (self.phase, event) {
            (Phase::Idle, Event::Started { now }) => {
                if one_shot {
                    self.phase = Phase::Firing { after: None };
                    Action::Render
                } else {
                    let first = now.start_of_minute();
                    self.phase = Phase::Waiting { next: first };
                    Action::Arm { first, period_seconds: PERIOD_SECONDS }
                }
            },
            (Phase::Waiting { next }, Event::Triggered) => {
                match next.plus_seconds(PERIOD_SECONDS) {
                    Some(after) => {
                        self.phase = Phase::Firing { after: Some(after) };
                        Action::Render
                    },
                    None => {
                        self.phase = Phase::Failed { failure: Failure::OutOfTime };
                        Action::Abort { failure: Failure::OutOfTime }
                    },
                }
            },
            (Phase::Waiting { .. }, Event::TimerFailed) => {
                self.phase = Phase::Failed { failure: Failure::TimerLost };
                Action::Abort { failure: Failure::TimerLost }
            },
            (Phase::Firing { after }, Event::Dispatched) => {
                match after {
                    Some(next) => {
                        self.phase = Phase::Waiting { next };
                        Action::Wait
                    },
                    None => {
                        self.phase = Phase::Finished;
                        Action::Exit
                    },
                }
            },
            (Phase::Firing { .. }, Event::DispatchFailed) => {
                self.phase = Phase::Failed { failure: Failure::DispatchFailed };
                Action::Abort { failure: Failure::DispatchFailed }
            },
            _ => Action::Ignore,
        }
    }
}

/// A run that draws every minute and starts at `now` arms its timer for the
/// start of the minute of `now`: the seconds and the nanoseconds of `now`
/// set to zero, which is not later than `now` and less than a minute
/// earlier.
pub proof fn first_fire_is_start_of_minute(now: Timestamp)
    requires
        now.valid(),
    ensures
        ({
            let (run, action) = step_of(
                Scheduler { one_shot: false, phase: Phase::Idle },
                Event::Started { now },
            );
            &&& run.phase == Phase::Waiting { next: now.minute_start() }
            &&& action == Action::Arm { first: now.minute_start(), period_seconds: PERIOD_SECONDS }
            &&& now.minute_start().seconds() == now.seconds() - now.seconds() % 60
            &&& now.minute_start().nanos() == 0
            &&& now.minute_start().seconds() <= now.seconds() < now.minute_start().seconds() + 60
        }),
{
    now.minute_start_is_floor();
}

/// The timer is due every sixty seconds from the first time on, and its
/// times do not drift: after `cycles` rounds of coming due and drawing, a
/// run that waited for the timer at `first` waits for it at exactly `first`
/// and sixty seconds times `cycles`, as long as that can be held in a
/// reading.
pub proof fn fire_times_do_not_drift(first: Timestamp, cycles: nat)
    requires
        first.valid(),
        first.later_by(60 * (cycles as int)) is Some,
    ensures
        after_cycles(
            Scheduler { one_shot: false, phase: Phase::Waiting { next: first } },
            cycles,
        ).phase == (Phase::Waiting { next: first.later_by(60 * (cycles as int))->0 }),
        first.later_by(60 * (cycles as int))->0.seconds() == first.seconds() + 60 * cycles,
        first.later_by(60 * (cycles as int))->0.nanos() == first.nanos(),
    decreases cycles,
{
    let start = Scheduler { one_shot: false, phase: Phase::Waiting { next: first } };
    first.later_by_adds(60 * (cycles as int));
    if cycles == 0 {
        first.same_count_same_reading(first.later_by(0)->0);
    } else {
        let fewer = (cycles - 1) as nat;
        first.later_by_adds(60 * (fewer as int));
        fire_times_do_not_drift(first, fewer);
        let before = first.later_by(60 * (fewer as int))->0;
        before.later_by_adds(60);
        first.later_by(60 * (cycles as int))->0.same_count_same_reading(before.later_by(60)->0);
    }
}

/// What can be said of a run that draws once, wherever it stands after
/// `drawn` orders to draw and no order to wait.
spec fn drawn_once(run: Scheduler, drawn: nat) -> bool {
    &&& run.one_shot
    &&& match run.phase {
        Phase::Idle => drawn == 0,
        Phase::Waiting { .. } => false,
        Phase::Firing { after } => drawn == 1 && after is None,
        Phase::Finished => drawn == 1,
        Phase::Failed { .. } => drawn <= 1,
    }
}

/// A run that draws once never gets to wait for a timer, whatever it is
/// told, and tells its caller to draw at most once.
pub proof fn one_shot_draws_once(events: Seq<Event>)
    ensures
        renders_of(Scheduler { one_shot: true, phase: Phase::Idle }, events) <= 1,
        waits_of(Scheduler { one_shot: true, phase: Phase::Idle }, events) == 0,
        !(run_of(Scheduler { one_shot: true, phase: Phase::Idle }, events).phase is Waiting),
        run_of(Scheduler { one_shot: true, phase: Phase::Idle }, events).phase is Finished
            ==> renders_of(Scheduler { one_shot: true, phase: Phase::Idle }, events) == 1,
{
    one_shot_invariant(events);
}

/// The induction behind [`one_shot_draws_once`].
proof fn one_shot_invariant(events: Seq<Event>)
    ensures
        drawn_once(
            run_of(Scheduler { one_shot: true, phase: Phase::Idle }, events),
            renders_of(Scheduler { one_shot: true, phase: Phase::Idle }, events),
        ),
        waits_of(Scheduler { one_shot: true, phase: Phase::Idle }, events) == 0,
    decreases events.len(),
{
    if events.len() > 0 {
        one_shot_invariant(events.drop_last());
    }
}

/// A run that draws once, is started, and is told that its page was sent
/// has told its caller to draw and then to leave, and is over.
pub proof fn one_shot_draws_and_leaves(now: Timestamp)
    ensures
        ({
            let idle = Scheduler { one_shot: true, phase: Phase::Idle };
            let (firing, first) = step_of(idle, Event::Started { now });
            let (over, second) = step_of(firing, Event::Dispatched);
            &&& first == Action::Render
            &&& second == Action::Exit
            &&& over.phase == Phase::Finished
        }),
{
}

} // verus!
