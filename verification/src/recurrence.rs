//! Recurrence expressions and the occurrences they describe.
//!
//! Expressions are parsed and evaluated by the `cron` crate; this module
//! states what the rest of the library relies on and builds the forward-only
//! sequence of occurrences on top of it.

use crate::time::{valid_instant, Timestamp, NANOS_PER_SEC};
use chrono::DateTime;
use cron::Schedule;
use std::str::FromStr;
use vstd::prelude::*;

verus! {

/// The error value of the `cron` crate.
#[verifier::external_type_specification]
#[verifier::external_body]
pub struct ExCronError(cron::error::Error);

/// Whether `cron::Schedule::from_str` accepts `expression`.
pub uninterp spec fn cron_accepts(expression: Seq<char>) -> bool;

/// What the iterator `cron::Schedule::after` yields first, in whole seconds
/// since the epoch, for the schedule parsed from `expression` and the UTC
/// instant `secs` seconds and `nanos` nanoseconds after the epoch.
pub uninterp spec fn cron_next(expression: Seq<char>, secs: int, nanos: int) -> Option<int>;

/// What `cron::Schedule::includes` answers for the schedule parsed from
/// `expression` and the UTC instant `secs` whole seconds after the epoch.
pub uninterp spec fn cron_includes(expression: Seq<char>, secs: int) -> bool;

/// The first second of the year 2101, the year after the last one that a
/// schedule's year field can hold.
pub const END_OF_SCHEDULES: i64 = 4_133_980_800;

/// Calls `cron::Schedule::from_str` and drops the schedule.
///
/// Trusted: the call succeeds exactly on the expressions that
/// [`cron_accepts`] names.
#[verifier::external_body]
fn check_expression(expression: &str) -> (r: Result<(), cron::error::Error>)
    ensures
        r is Ok <==> cron_accepts(expression@),
{
    Schedule::from_str(expression).map(drop)
}

/// The text of a `cron` error, through its `Display` impl. Nothing is
/// claimed of the text.
#[verifier::external_body]
fn error_text(error: &cron::error::Error) -> String {
    error.to_string()
}

/// Calls `cron::Schedule::after` on the schedule parsed from `expression`
/// and takes the iterator's first item.
///
/// Nothing comes back for an expression that does not parse.
///
/// Trusted: the item depends on the arguments alone; it is a whole second
/// strictly after the given instant, since the search starts one second
/// after it and yields times without a fraction; it lies in the years 1970
/// to 2100, which are all that a schedule's year field can hold; and the
/// schedule includes it, since each of its calendar fields is drawn from
/// the schedule's own set for that field.
#[verifier::external_body]
fn first_after(expression: &str, secs: i64, nanos: u32) -> (r: Option<i64>)
    requires
        valid_instant(secs as int, nanos as int),
    ensures
        (match r {
            Some(t) => Some(t as int),
            None => None,
        }) == cron_next(expression@, secs as int, nanos as int),
        r matches Some(t) ==> secs < t < END_OF_SCHEDULES,
        r matches Some(t) ==> cron_includes(expression@, t as int),
{
    let schedule = Schedule::from_str(expression).ok()?;
    let from = DateTime::from_timestamp(secs, nanos)?;
    schedule.after(&from).next().map(|at| at.timestamp())
}

/// Calls `cron::Schedule::includes` on the schedule parsed from `expression`;
/// `false` when the expression does not parse.
///
/// Trusted: the answer depends on the arguments alone.
#[verifier::external_body]
fn included(expression: &str, secs: i64) -> (r: bool)
    requires
        valid_instant(secs as int, 0),
    ensures
        r == (cron_accepts(expression@) && cron_includes(expression@, secs as int)),
{
    match (Schedule::from_str(expression), DateTime::from_timestamp(secs, 0)) {
        (Ok(schedule), Some(at)) => schedule.includes(at),
        _ => false,
    }
}

/// Why an expression was refused. Its view is the message.
#[derive(Debug, PartialEq, Eq)]
pub struct ParseError {
    message: String,
}

impl View for ParseError {
    type V = Seq<char>;

    closed spec fn view(&self) -> Seq<char> {
        self.message@
    }
}

impl ParseError {
    /// The parser's description of what is wrong with the expression.
    pub fn message(&self) -> (r: &str)
        ensures
            r@ == self@,
    {
        self.message.as_str()
    }
}

/// The first occurrence of `expression` strictly after the instant `from`
/// (nanoseconds since the epoch), in nanoseconds since the epoch.
pub open spec fn next_occurrence(expression: Seq<char>, from: int) -> Option<int> {
    match cron_next(
        expression,
        from / (NANOS_PER_SEC as int),
        from % (NANOS_PER_SEC as int),
    ) {
        Some(t) => Some(t * NANOS_PER_SEC),
        None => None,
    }
}

/// Whether the instant `at` (nanoseconds since the epoch) is an occurrence
/// of `expression`: a whole second that the schedule includes.
pub open spec fn is_occurrence(expression: Seq<char>, at: int) -> bool {
    &&& at % (NANOS_PER_SEC as int) == 0
    &&& cron_includes(expression, at / (NANOS_PER_SEC as int))
}

/// A parsed recurrence expression. Its view is the expression's text.
#[derive(Debug)]
pub struct RecurrenceCalculator {
    expression: String,
}

impl View for RecurrenceCalculator {
    type V = Seq<char>;

    closed spec fn view(&self) -> Seq<char> {
        self.expression@
    }
}

impl Clone for RecurrenceCalculator {
    fn clone(&self) -> (r: Self)
        ensures
            r@ == self@,
    {
        proof {
            use_type_invariant(self);
        }
        RecurrenceCalculator { expression: self.expression.clone() }
    }
}

impl RecurrenceCalculator {
    #[verifier::type_invariant]
    spec fn well_formed(self) -> bool {
        cron_accepts(self.expression@)
    }

    /// Parses `expression` in the grammar of the `cron` crate: the fields
    /// seconds, minutes, hours, day of month, month and day of week, each a
    /// literal, `*`, a range, a step or a list, with three-letter names for
    /// months and days; a seventh field may name years, and `@daily` and its
    /// like stand for whole expressions.
    ///
    /// Where both the day of month and the day of week are restricted, a day
    /// is an occurrence only if it satisfies both.
    pub fn parse(expression: &str) -> (r: Result<RecurrenceCalculator, ParseError>)
        ensures
            r is Ok <==> cron_accepts(expression@),
            r matches Ok(calculator) ==> calculator@ == expression@,
    {
        match check_expression(expression) {
            Ok(()) => Ok(RecurrenceCalculator { expression: expression.to_owned() }),
            Err(error) => Err(ParseError { message: error_text(&error) }),
        }
    }

    /// The expression this calculator was parsed from.
    pub fn expression(&self) -> (r: &str)
        ensures
            r@ == self@,
            cron_accepts(self@),
    {
        proof {
            use_type_invariant(self);
        }
        self.expression.as_str()
    }

    /// The first occurrence strictly after `from`, or `None` when the
    /// schedule has none left.
    pub fn next_after(&self, from: &Timestamp) -> (r: Option<Timestamp>)
        ensures
            next_occurrence(self@, from@) == (match r {
                Some(t) => Some(t@),
                None => None,
            }),
            r matches Some(t) ==> t@ > from@ && is_occurrence(self@, t@),
    {
        let secs = from.secs();
        let nanos = from.subsec_nanos();
        match first_after(self.expression.as_str(), secs, nanos) {
            Some(t) => {
                let at = Timestamp::new(t, 0);
                proof {
                    assert(t * NANOS_PER_SEC >= (secs + 1) * NANOS_PER_SEC) by (nonlinear_arith)
                        requires
                            t > secs,
                    ;
                    vstd::arithmetic::div_mod::lemma_fundamental_div_mod(
                        from@,
                        NANOS_PER_SEC as int,
                    );
                    vstd::arithmetic::div_mod::lemma_fundamental_div_mod_converse(
                        t * NANOS_PER_SEC,
                        NANOS_PER_SEC as int,
                        t as int,
                        0,
                    );
                }
                at
            },
            None => None,
        }
    }

    /// Starts a walk over the occurrences strictly after `from`.
    pub fn upcoming(&self, from: Timestamp) -> (r: Upcoming)
        ensures
            r.expression() == self@,
            r.start() == from@,
            r.position() == from@,
            r.yielded() == 0,
            !r.is_exhausted(),
    {
        Upcoming::new(self.clone(), from)
    }

    /// Whether `at` is an occurrence of this schedule.
    pub fn includes(&self, at: &Timestamp) -> (r: bool)
        ensures
            r == is_occurrence(self@, at@),
    {
        proof {
            use_type_invariant(self);
        }
        let secs = at.secs();
        at.subsec_nanos() == 0 && included(self.expression.as_str(), secs)
    }
}

/// The `n`-th item, counted from zero, of the sequence of occurrences of
/// `expression` that starts strictly after `from`; `None` once the schedule
/// is exhausted.
pub open spec fn nth_occurrence(expression: Seq<char>, from: int, n: nat) -> Option<int>
    decreases n,
{
    if n == 0 {
        next_occurrence(expression, from)
    } else {
        match nth_occurrence(expression, from, (n - 1) as nat) {
            Some(previous) => next_occurrence(expression, previous),
            None => None,
        }
    }
}

/// A forward-only walk over the occurrences of a schedule.
///
/// `start` is the instant the walk began after, `yielded` the number of
/// occurrences handed out so far, and `exhausted` tells that the schedule
/// has run out.
pub struct Upcoming {
    calculator: RecurrenceCalculator,
    progress: Progress,
    exhausted: bool,
    start: Ghost<int>,
}

/// Where a walk stands: the latest instant reached and how many occurrences
/// led there.
struct Progress {
    cursor: Timestamp,
    yielded: Ghost<nat>,
}

impl Upcoming {
    #[verifier::type_invariant]
    spec fn well_formed(self) -> bool {
        &&& self.progress.yielded@ == 0 ==> self.progress.cursor@ == self.start@
        &&& self.progress.yielded@ > 0 ==> nth_occurrence(
            self.calculator@,
            self.start@,
            (self.progress.yielded@ - 1) as nat,
        ) == Some(self.progress.cursor@)
        &&& self.exhausted ==> nth_occurrence(self.calculator@, self.start@, self.progress.yielded@)
            is None
        &&& self.progress.cursor@ >= self.start@
    }

    /// The expression whose occurrences are walked.
    pub closed spec fn expression(self) -> Seq<char> {
        self.calculator@
    }

    /// The instant the walk began after, in nanoseconds since the epoch.
    pub closed spec fn start(self) -> int {
        self.start@
    }

    /// How many occurrences the walk has handed out.
    pub closed spec fn yielded(self) -> nat {
        self.progress.yielded@
    }

    /// The latest occurrence handed out, or the start before the first.
    pub closed spec fn position(self) -> int {
        self.progress.cursor@
    }

    /// Whether the walk has found the schedule exhausted.
    pub closed spec fn is_exhausted(self) -> bool {
        self.exhausted
    }

    /// Starts a walk over the occurrences of `calculator` strictly after
    /// `from`.
    pub fn new(calculator: RecurrenceCalculator, from: Timestamp) -> (r: Upcoming)
        ensures
            r.expression() == calculator@,
            r.start() == from@,
            r.position() == from@,
            r.yielded() == 0,
            !r.is_exhausted(),
    {
        Upcoming {
            calculator,
            progress: Progress { cursor: from, yielded: Ghost(0) },
            exhausted: false,
            start: Ghost(from@),
        }
    }

    /// The latest occurrence handed out, or the start before the first.
    pub fn cursor(&self) -> (r: Timestamp)
        ensures
            r@ == self.position(),
    {
        self.progress.cursor
    }

    /// Hands out the next occurrence: the first one strictly after the
    /// previous one, or after the start. Once the schedule is exhausted the
    /// walk stays so.
    pub fn next(&mut self) -> (r: Option<Timestamp>)
        ensures
            final(self).expression() == old(self).expression(),
            final(self).start() == old(self).start(),
            nth_occurrence(old(self).expression(), old(self).start(), old(self).yielded()) == (
            match r {
                Some(t) => Some(t@),
                None => None,
            }),
            !old(self).is_exhausted() ==> next_occurrence(
                old(self).expression(),
                old(self).position(),
            ) == nth_occurrence(old(self).expression(), old(self).start(), old(self).yielded()),
            r matches Some(t) ==> {
                &&& t@ > old(self).position()
                &&& is_occurrence(old(self).expression(), t@)
                &&& final(self).position() == t@
                &&& final(self).yielded() == old(self).yielded() + 1
                &&& !final(self).is_exhausted()
            },
            r is None ==> {
                &&& final(self).position() == old(self).position()
                &&& final(self).yielded() == old(self).yielded()
                &&& final(self).is_exhausted()
            },
    {
        proof {
            use_type_invariant(&*self);
        }
        if self.exhausted {
            return None;
        }
        let found = self.calculator.next_after(&self.progress.cursor);
        match found {
            Some(t) => {
                self.progress = Progress {
                    cursor: t,
                    yielded: Ghost((self.progress.yielded@ + 1) as nat),
                };
                Some(t)
            },
            None => {
                self.exhausted = true;
                None
            },
        }
    }

    /// Hands out up to `n` further occurrences, in order. Fewer than `n`
    /// come back only when the schedule is exhausted.
    pub fn take(&mut self, n: usize) -> (r: Vec<Timestamp>)
        ensures
            final(self).expression() == old(self).expression(),
            final(self).start() == old(self).start(),
            final(self).yielded() == old(self).yielded() + r.len(),
            r.len() <= n,
            forall|i: int|
                0 <= i < r.len() ==> nth_occurrence(
                    old(self).expression(),
                    old(self).start(),
                    (old(self).yielded() + i) as nat,
                ) == Some(#[trigger] r[i]@),
            r.len() < n ==> final(self).is_exhausted() && nth_occurrence(
                old(self).expression(),
                old(self).start(),
                old(self).yielded() + r.len() as nat,
            ) is None,
            forall|i: int|
                0 <= i < r.len() ==> old(self).position() < #[trigger] r[i]@ && is_occurrence(
                    old(self).expression(),
                    r[i]@,
                ),
            forall|i: int, j: int| 0 <= i < j < r.len() ==> #[trigger] r[i]@ < #[trigger] r[j]@,
            r.len() == 0 ==> final(self).position() == old(self).position(),
            r.len() > 0 ==> final(self).position() == r[r.len() - 1]@,
    {
        let mut found: Vec<Timestamp> = Vec::new();
        let ghost before = *self;
        while found.len() < n
            invariant
                before == *old(self),
                self.expression() == before.expression(),
                self.start() == before.start(),
                self.yielded() == before.yielded() + found.len(),
                found.len() <= n,
                forall|i: int|
                    0 <= i < found.len() ==> nth_occurrence(
                        before.expression(),
                        before.start(),
                        (before.yielded() + i) as nat,
                    ) == Some(#[trigger] found[i]@),
                forall|i: int|
                    0 <= i < found.len() ==> before.position() < #[trigger] found[i]@
                        && is_occurrence(before.expression(), found[i]@),
                forall|i: int, j: int|
                    0 <= i < j < found.len() ==> #[trigger] found[i]@ < #[trigger] found[j]@,
                found.len() == 0 ==> self.position() == before.position(),
                found.len() > 0 ==> self.position() == found[found.len() - 1]@,
            decreases n - found.len(),
        {
            match self.next() {
                Some(t) => {
                    found.push(t);
                },
                None => {
                    return found;
                },
            }
        }
        found
    }
}

} // verus!
