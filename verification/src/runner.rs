//! The schedule runner as a state machine.
//!
//! A runner never waits or sends by itself. Its caller performs what an
//! [`Action`] asks for and reports back with the next [`Event`]: the clock's
//! reading, the end of a sleep, or the result of a send.

use crate::notification::Notification;
use crate::recurrence::{is_occurrence, nth_occurrence, RecurrenceCalculator, Upcoming};
use crate::time::{Timestamp, Wait};
use vstd::prelude::*;

verus! {

/// What a runner is waiting for.
#[derive(Clone, Copy, Debug, PartialEq, Eq, Structural)]
pub enum Phase {
    /// The current time, to pick the next occurrence.
    AwaitingClock,
    /// The end of the sleep before the occurrence.
    Sleeping,
    /// The result of the send.
    Sending,
    /// Nothing: the schedule has no occurrences left.
    Stopped,
}

/// The response to a send that reached the service.
#[derive(Debug, PartialEq, Eq)]
pub struct SendOutcome {
    /// The HTTP status of the response.
    pub status: u16,
    /// The response's body.
    pub body: String,
}

/// A send that did not reach the service.
#[derive(Debug, PartialEq, Eq)]
pub struct TransportError {
    /// What went wrong.
    pub description: String,
}

/// How a send ended, as it is logged.
#[derive(Debug, PartialEq, Eq)]
pub enum Delivery {
    /// The service accepted the message.
    Accepted,
    /// The service answered with a failure; `body` is its answer.
    Rejected { body: String },
    /// The request failed on the way.
    Failed { description: String },
}

/// What happened since the runner's last action.
#[derive(Debug, PartialEq, Eq)]
pub enum Event {
    /// The clock was read.
    Clock(Timestamp),
    /// The sleep is over.
    Woke,
    /// The send has ended.
    Delivered(Result<SendOutcome, TransportError>),
}

/// What the caller is to do next.
#[derive(Debug, PartialEq, Eq)]
pub enum Action {
    /// Sleep for the given time, then report [`Event::Woke`].
    Sleep(Wait),
    /// The occurrence is already past: warn, read the clock again and
    /// report [`Event::Clock`].
    Skip,
    /// Send the runner's notification once, then report
    /// [`Event::Delivered`].
    Send,
    /// Log how the send ended, then read the clock and report
    /// [`Event::Clock`].
    Report(Delivery),
    /// The schedule is exhausted: log it and end this runner.
    Stop,
    /// The event does not fit the runner's phase; nothing changed.
    Ignore,
}

/// Whether an HTTP status tells success.
pub open spec fn is_success(status: u16) -> bool {
    200 <= status < 300
}

/// How the result of a send is logged.
pub open spec fn classify_spec(result: Result<SendOutcome, TransportError>) -> Delivery {
    match result {
        Ok(outcome) => if is_success(outcome.status) {
            Delivery::Accepted
        } else {
            Delivery::Rejected { body: outcome.body }
        },
        Err(error) => Delivery::Failed { description: error.description },
    }
}

/// Tells a delivered message from a rejected one and from a failed request.
pub fn classify(result: Result<SendOutcome, TransportError>) -> (r: Delivery)
    ensures
        r == classify_spec(result),
{
    match result {
        Ok(outcome) => if 200 <= outcome.status && outcome.status < 300 {
            Delivery::Accepted
        } else {
            Delivery::Rejected { body: outcome.body }
        },
        Err(error) => Delivery::Failed { description: error.description },
    }
}

/// Decides what to do about the occurrence `next` when the clock reads
/// `now`: stop when there is none, sleep for the exact remaining time when
/// it lies ahead, and skip it otherwise.
pub fn plan(next: Option<Timestamp>, now: &Timestamp) -> (r: Action)
    ensures
        next is None ==> r == Action::Stop,
        next matches Some(t) ==> {
            if t@ > now@ {
                r matches Action::Sleep(w) && w@ == t@ - now@
            } else {
                r == Action::Skip
            }
        },
{
    match next {
        None => Action::Stop,
        Some(t) => match now.wait_until(&t) {
            Some(wait) => Action::Sleep(wait),
            None => Action::Skip,
        },
    }
}

/// One schedule's runner: the walk over its occurrences, the message it
/// sends, and what it is waiting for.
pub struct Runner {
    upcoming: Upcoming,
    notification: Notification,
    phase: Phase,
}

/// Whether two runners stand at the same place in their schedules.
pub open spec fn same_progress(before: Runner, after: Runner) -> bool {
    &&& after.yielded() == before.yielded()
    &&& after.position() == before.position()
}

/// What the clock's reading `now` (nanoseconds since the epoch) does to a
/// runner that awaits it: the next occurrence is taken from the schedule;
/// without one the runner stops, with one ahead it sleeps for exactly the
/// remaining time, and one that is not ahead is skipped.
pub open spec fn clock_transition(before: Runner, now: int, after: Runner, action: Action) -> bool {
    match nth_occurrence(before.expression(), before.start(), before.yielded()) {
        None => {
            &&& action == Action::Stop
            &&& after.phase() == Phase::Stopped
            &&& same_progress(before, after)
        },
        Some(t) => {
            &&& after.yielded() == before.yielded() + 1
            &&& after.position() == t
            &&& if t > now {
                &&& action matches Action::Sleep(w)
                &&& w@ == t - now
                &&& after.phase() == Phase::Sleeping
            } else {
                &&& action == Action::Skip
                &&& after.phase() == Phase::AwaitingClock
            }
        },
    }
}

/// The runner's transition relation: `event` takes `before` to `after` and
/// asks for `action`.
pub open spec fn transition(before: Runner, event: Event, after: Runner, action: Action) -> bool {
    &&& after.expression() == before.expression()
    &&& after.start() == before.start()
    &&& after.notification() == before.notification()
    &&& match (before.phase(), event) {
        (Phase::AwaitingClock, Event::Clock(now)) => clock_transition(before, now@, after, action),
        (Phase::Sleeping, Event::Woke) => {
            &&& action == Action::Send
            &&& after.phase() == Phase::Sending
            &&& same_progress(before, after)
        },
        (Phase::Sending, Event::Delivered(result)) => {
            &&& action == Action::Report(classify_spec(result))
            &&& after.phase() == Phase::AwaitingClock
            &&& same_progress(before, after)
        },
        _ => {
            &&& action == Action::Ignore
            &&& after.phase() == before.phase()
            &&& same_progress(before, after)
        },
    }
}

impl Runner {
    /// What the runner is waiting for.
    pub closed spec fn phase(self) -> Phase {
        self.phase
    }

    /// The message the runner sends.
    pub closed spec fn notification(self) -> Notification {
        self.notification
    }

    /// The schedule's expression.
    pub closed spec fn expression(self) -> Seq<char> {
        self.upcoming.expression()
    }

    /// The instant the runner started at, in nanoseconds since the epoch.
    pub closed spec fn start(self) -> int {
        self.upcoming.start()
    }

    /// How many occurrences the runner has taken from its schedule.
    pub closed spec fn yielded(self) -> nat {
        self.upcoming.yielded()
    }

    /// The latest occurrence taken, or the start before the first.
    pub closed spec fn position(self) -> int {
        self.upcoming.position()
    }

    /// A runner for the occurrences of `calculator` strictly after `start`
    /// that sends `notification` at each of them.
    pub fn new(calculator: RecurrenceCalculator, notification: Notification, start: Timestamp) -> (r:
        Runner)
        ensures
            r.phase() == Phase::AwaitingClock,
            r.notification() == notification,
            r.expression() == calculator@,
            r.start() == start@,
            r.position() == start@,
            r.yielded() == 0,
    {
        Runner { upcoming: Upcoming::new(calculator, start), notification, phase: Phase::AwaitingClock }
    }

    /// What the runner is waiting for.
    pub fn current_phase(&self) -> (r: Phase)
        ensures
            r == self.phase(),
    {
        self.phase
    }

    /// The message to send.
    pub fn message(&self) -> (r: &Notification)
        ensures
            *r == self.notification(),
    {
        &self.notification
    }

    /// The occurrence the runner took last: the one it sleeps for, sends
    /// for, or skipped. Before the first one, the start.
    pub fn occurrence(&self) -> (r: Timestamp)
        ensures
            r@ == self.position(),
    {
        self.upcoming.cursor()
    }

    /// Advances the runner by one event and tells what to do next.
    ///
    /// Occurrences are taken in strictly increasing order, each at most
    /// once. A send is asked for only after a sleep, and the way a send
    /// ended never stops the runner.
    pub fn step(&mut self, event: Event) -> (action: Action)
        ensures
            transition(*old(self), event, *final(self), action),
            final(self).position() >= old(self).position(),
            final(self).yielded() > old(self).yielded() ==> {
                &&& final(self).position() > old(self).position()
                &&& is_occurrence(old(self).expression(), final(self).position())
            },
    {
        match self.phase {
            Phase::AwaitingClock => match event {
                Event::Clock(now) => {
                    let next = self.upcoming.next();
                    let action = plan(next, &now);
                    match &action {
                        Action::Sleep(_) => {
                            self.phase = Phase::Sleeping;
                        },
                        Action::Stop => {
                            self.phase = Phase::Stopped;
                        },
                        _ => {},
                    }
                    action
                },
                _ => Action::Ignore,
            },
            Phase::Sleeping => match event {
                Event::Woke => {
                    self.phase = Phase::Sending;
                    Action::Send
                },
                _ => Action::Ignore,
            },
            Phase::Sending => match event {
                Event::Delivered(result) => {
                    self.phase = Phase::AwaitingClock;
                    Action::Report(classify(result))
                },
                _ => Action::Ignore,
            },
            Phase::Stopped => Action::Ignore,
        }
    }
}

/// An occurrence that is not ahead of the clock is neither slept for nor
/// sent: the runner skips it and goes on awaiting the clock, so that the
/// clock's next reading takes the following occurrence.
pub proof fn lemma_past_due_is_skipped(before: Runner, now: Timestamp, after: Runner, action: Action)
    requires
        before.phase() == Phase::AwaitingClock,
        transition(before, Event::Clock(now), after, action),
        nth_occurrence(before.expression(), before.start(), before.yielded()) matches Some(t) && t
            <= now@,
    ensures
        action == Action::Skip,
        after.phase() == Phase::AwaitingClock,
        after.yielded() == before.yielded() + 1,
{
}

/// However a send ended, the runner goes on: it reports the result and
/// awaits the clock, and when the next occurrence lies ahead it sleeps and
/// then asks for a further send.
pub proof fn lemma_send_follows_any_delivery(
    sending: Runner,
    result: Result<SendOutcome, TransportError>,
    reported: Runner,
    report: Action,
    now: Timestamp,
    asleep: Runner,
    sleep: Action,
    awake: Runner,
    send: Action,
)
    requires
        sending.phase() == Phase::Sending,
        transition(sending, Event::Delivered(result), reported, report),
        transition(reported, Event::Clock(now), asleep, sleep),
        transition(asleep, Event::Woke, awake, send),
        nth_occurrence(sending.expression(), sending.start(), sending.yielded()) matches Some(t)
            && t > now@,
    ensures
        report == Action::Report(classify_spec(result)),
        reported.phase() == Phase::AwaitingClock,
        sleep is Sleep,
        send == Action::Send,
        awake.phase() == Phase::Sending,
        awake.yielded() == sending.yielded() + 1,
{
}

/// What an event does to a runner is determined by that runner's own state
/// and the event: two outcomes of the same step agree on the action, the
/// phase and the place in the schedule. Nothing that happens to another
/// runner can delay an occurrence of this one or make it skip one.
pub proof fn lemma_step_is_determined(
    before: Runner,
    event: Event,
    first: Runner,
    first_action: Action,
    second: Runner,
    second_action: Action,
)
    requires
        transition(before, event, first, first_action),
        transition(before, event, second, second_action),
    ensures
        first.phase() == second.phase(),
        same_progress(first, second),
        first.notification() == second.notification(),
        match first_action {
            Action::Sleep(w) => second_action matches Action::Sleep(v) && v@ == w@,
            _ => second_action == first_action,
        },
{
}

} // verus!
