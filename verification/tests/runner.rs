use slack_reminder::notification::Notification;
use slack_reminder::recurrence::RecurrenceCalculator;
use slack_reminder::runner::{
    classify, plan, Action, Delivery, Event, Phase, Runner, SendOutcome, TransportError,
};
use slack_reminder::time::{Timestamp, Wait};

const SATURDAY_23: i64 = 1_718_492_400; // 2024-06-15T23:00:00Z
const SUNDAY_14: i64 = 1_718_546_400; // 2024-06-16T14:00:00Z
const SUNDAY_22: i64 = 1_718_575_200; // 2024-06-16T22:00:00Z
const HOUR: i64 = 3600;
const WEEK: i64 = 7 * 24 * HOUR;

fn at(secs: i64) -> Timestamp {
    Timestamp::new(secs, 0).unwrap()
}

fn runner(expression: &str, start: i64) -> Runner {
    Runner::new(
        RecurrenceCalculator::parse(expression).unwrap(),
        Notification::new("C1", "hello"),
        at(start),
    )
}

fn slept(action: Action) -> Wait {
    match action {
        Action::Sleep(wait) => wait,
        other => panic!("expected a sleep, got {:?}", other),
    }
}

fn response(status: u16, body: &str) -> Event {
    Event::Delivered(Ok(SendOutcome { status, body: body.to_string() }))
}

/// Drives a runner through one occurrence with a clock that reads `now`.
fn fire(runner: &mut Runner, now: i64, delivery: Event) -> (Wait, Action) {
    let wait = slept(runner.step(Event::Clock(at(now))));
    assert_eq!(runner.step(Event::Woke), Action::Send);
    (wait, runner.step(delivery))
}

#[test]
fn runner_sleeps_until_the_occurrence_then_sends_once() {
    let mut runner = runner("0 0 14 * * SUN", SATURDAY_23);
    assert_eq!(runner.current_phase(), Phase::AwaitingClock);
    let wait = slept(runner.step(Event::Clock(at(SATURDAY_23))));
    assert_eq!((wait.secs(), wait.subsec_nanos()), (15 * 3600, 0));
    assert_eq!(runner.current_phase(), Phase::Sleeping);
    assert_eq!(runner.occurrence(), at(SUNDAY_14));
    assert_eq!(runner.step(Event::Woke), Action::Send);
    assert_eq!(runner.current_phase(), Phase::Sending);
    assert_eq!(runner.message(), &Notification::new("C1", "hello"));
    assert_eq!(runner.step(response(200, "")), Action::Report(Delivery::Accepted));
    assert_eq!(runner.current_phase(), Phase::AwaitingClock);
}

#[test]
fn wait_is_measured_from_the_clock_not_from_the_start() {
    let mut runner = runner("0 0 14 * * SUN", SATURDAY_23);
    let now = Timestamp::new(SUNDAY_14 - 2, 750_000_000).unwrap();
    let wait = slept(runner.step(Event::Clock(now)));
    assert_eq!((wait.secs(), wait.subsec_nanos()), (1, 250_000_000));
}

#[test]
fn past_due_occurrence_is_skipped_without_sleep_or_send() {
    let mut runner = runner("0 0 14 * * SUN", SATURDAY_23);
    let late = SUNDAY_14 + HOUR;
    assert_eq!(runner.step(Event::Clock(at(late))), Action::Skip);
    assert_eq!(runner.current_phase(), Phase::AwaitingClock);
    assert_eq!(runner.occurrence(), at(SUNDAY_14));
    assert_eq!(runner.step(Event::Woke), Action::Ignore);
    let wait = slept(runner.step(Event::Clock(at(late))));
    assert_eq!(wait.secs(), (WEEK - HOUR) as u64);
    assert_eq!(runner.occurrence(), at(SUNDAY_14 + WEEK));
}

#[test]
fn occurrence_at_the_clock_reading_is_skipped() {
    let mut runner = runner("0 0 14 * * SUN", SATURDAY_23);
    assert_eq!(runner.step(Event::Clock(at(SUNDAY_14))), Action::Skip);
    assert_eq!(runner.current_phase(), Phase::AwaitingClock);
}

#[test]
fn several_missed_occurrences_are_skipped_one_by_one() {
    let mut runner = runner("0 0 14 * * SUN", SATURDAY_23);
    let now = SUNDAY_14 + 2 * WEEK;
    for _ in 0..3 {
        assert_eq!(runner.step(Event::Clock(at(now))), Action::Skip);
    }
    let wait = slept(runner.step(Event::Clock(at(now))));
    assert_eq!(wait.secs(), WEEK as u64);
}

#[test]
fn rejected_send_does_not_stop_the_runner() {
    let mut runner = runner("0 0 14 * * SUN", SATURDAY_23);
    let (_, report) = fire(&mut runner, SATURDAY_23, response(500, "{\"ok\":false}"));
    assert_eq!(report, Action::Report(Delivery::Rejected { body: "{\"ok\":false}".to_string() }));
    assert_eq!(runner.current_phase(), Phase::AwaitingClock);
    let (wait, report) = fire(&mut runner, SUNDAY_14 + 1, response(200, ""));
    assert_eq!(wait.secs(), (WEEK - 1) as u64);
    assert_eq!(report, Action::Report(Delivery::Accepted));
    assert_eq!(runner.occurrence(), at(SUNDAY_14 + WEEK));
}

#[test]
fn transport_failure_does_not_stop_the_runner() {
    let mut runner = runner("0 0 14 * * SUN", SATURDAY_23);
    let failure = Event::Delivered(Err(TransportError { description: "timed out".to_string() }));
    let (_, report) = fire(&mut runner, SATURDAY_23, failure);
    assert_eq!(report, Action::Report(Delivery::Failed { description: "timed out".to_string() }));
    assert_eq!(runner.current_phase(), Phase::AwaitingClock);
    let wait = slept(runner.step(Event::Clock(at(SUNDAY_14 + 1))));
    assert_eq!(wait.secs(), (WEEK - 1) as u64);
    assert_eq!(runner.step(Event::Woke), Action::Send);
}

#[test]
fn failed_occurrence_is_not_retried() {
    let mut runner = runner("0 0 14 * * SUN", SATURDAY_23);
    fire(&mut runner, SATURDAY_23, response(503, "busy"));
    // The clock still reads a time before the failed occurrence.
    let wait = slept(runner.step(Event::Clock(at(SUNDAY_14 - 1))));
    assert_eq!(runner.occurrence(), at(SUNDAY_14 + WEEK));
    assert_eq!(wait.secs(), (WEEK + 1) as u64);
}

#[test]
fn two_runners_do_not_interfere() {
    let mut alone_afternoon = runner("0 0 14 * * SUN", SATURDAY_23);
    let mut alone_evening = runner("0 0 22 * * SUN", SATURDAY_23);
    let mut afternoon = runner("0 0 14 * * SUN", SATURDAY_23);
    let mut evening = runner("0 0 22 * * SUN", SATURDAY_23);

    let mut alone = Vec::new();
    for now in [SATURDAY_23, SUNDAY_14, SUNDAY_14 + WEEK] {
        alone.push(fire(&mut alone_afternoon, now, response(500, "no")));
    }
    let mut alone_late = Vec::new();
    for now in [SATURDAY_23, SUNDAY_22, SUNDAY_22 + WEEK] {
        alone_late.push(fire(&mut alone_evening, now, response(200, "")));
    }

    let mut together = Vec::new();
    let mut together_late = Vec::new();
    let first = slept(afternoon.step(Event::Clock(at(SATURDAY_23))));
    let second = slept(evening.step(Event::Clock(at(SATURDAY_23))));
    assert_eq!((first.secs(), second.secs()), (15 * 3600, 23 * 3600));
    assert_eq!(afternoon.step(Event::Woke), Action::Send);
    assert_eq!(evening.current_phase(), Phase::Sleeping);
    together.push((first, afternoon.step(response(500, "no"))));
    let next = slept(afternoon.step(Event::Clock(at(SUNDAY_14))));
    assert_eq!(evening.step(Event::Woke), Action::Send);
    assert_eq!(afternoon.current_phase(), Phase::Sleeping);
    together_late.push((second, evening.step(response(200, ""))));
    assert_eq!(afternoon.step(Event::Woke), Action::Send);
    together.push((next, afternoon.step(response(500, "no"))));
    together_late.push(fire(&mut evening, SUNDAY_22, response(200, "")));
    together_late.push(fire(&mut evening, SUNDAY_22 + WEEK, response(200, "")));
    together.push(fire(&mut afternoon, SUNDAY_14 + WEEK, response(500, "no")));

    assert_eq!(together, alone);
    assert_eq!(together_late, alone_late);
    assert_eq!(afternoon.occurrence(), at(SUNDAY_14 + 2 * WEEK));
    assert_eq!(evening.occurrence(), at(SUNDAY_22 + 2 * WEEK));
}

#[test]
fn exhausted_schedule_stops_the_runner() {
    let mut runner = runner("0 0 0 1 1 * 2030", 1_874_966_400); // from 2029-06-01
    fire(&mut runner, 1_874_966_400, response(200, ""));
    assert_eq!(runner.step(Event::Clock(at(1_893_456_000))), Action::Stop);
    assert_eq!(runner.current_phase(), Phase::Stopped);
    assert_eq!(runner.step(Event::Clock(at(1_893_456_000))), Action::Ignore);
    assert_eq!(runner.step(Event::Woke), Action::Ignore);
    assert_eq!(runner.step(response(200, "")), Action::Ignore);
    assert_eq!(runner.current_phase(), Phase::Stopped);
    assert_eq!(runner.occurrence(), at(1_893_456_000));
}

#[test]
fn events_that_do_not_fit_the_phase_change_nothing() {
    let mut runner = runner("0 0 14 * * SUN", SATURDAY_23);
    assert_eq!(runner.step(Event::Woke), Action::Ignore);
    assert_eq!(runner.step(response(200, "")), Action::Ignore);
    assert_eq!(runner.current_phase(), Phase::AwaitingClock);
    assert_eq!(runner.occurrence(), at(SATURDAY_23));
    slept(runner.step(Event::Clock(at(SATURDAY_23))));
    assert_eq!(runner.step(Event::Clock(at(SUNDAY_14))), Action::Ignore);
    assert_eq!(runner.step(response(200, "")), Action::Ignore);
    assert_eq!(runner.current_phase(), Phase::Sleeping);
    assert_eq!(runner.occurrence(), at(SUNDAY_14));
    assert_eq!(runner.step(Event::Woke), Action::Send);
    assert_eq!(runner.step(Event::Woke), Action::Ignore);
    assert_eq!(runner.step(Event::Clock(at(SUNDAY_14))), Action::Ignore);
    assert_eq!(runner.current_phase(), Phase::Sending);
}

#[test]
fn plan_stops_sleeps_or_skips() {
    assert_eq!(plan(None, &at(5)), Action::Stop);
    let wait = slept(plan(Some(at(10)), &Timestamp::new(5, 500_000_000).unwrap()));
    assert_eq!((wait.secs(), wait.subsec_nanos()), (4, 500_000_000));
    assert_eq!(plan(Some(at(10)), &at(10)), Action::Skip);
    assert_eq!(plan(Some(at(10)), &Timestamp::new(10, 1).unwrap()), Action::Skip);
    assert_eq!(plan(Some(at(10)), &at(11)), Action::Skip);
}

#[test]
fn classify_goes_by_the_status() {
    let outcome = |status: u16| Ok(SendOutcome { status, body: "b".to_string() });
    assert_eq!(classify(outcome(200)), Delivery::Accepted);
    assert_eq!(classify(outcome(204)), Delivery::Accepted);
    assert_eq!(classify(outcome(299)), Delivery::Accepted);
    for status in [0, 100, 199, 300, 301, 404, 429, 500, u16::MAX] {
        assert_eq!(classify(outcome(status)), Delivery::Rejected { body: "b".to_string() });
    }
    assert_eq!(
        classify(Err(TransportError { description: "refused".to_string() })),
        Delivery::Failed { description: "refused".to_string() }
    );
}
