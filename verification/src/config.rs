//! What a deployment is made of: the credentials from the environment and
//! the two weekly reminders.

use crate::notification::Notification;
use crate::recurrence::{cron_accepts, ParseError, RecurrenceCalculator};
use crate::runner::{Phase, Runner};
use crate::time::Timestamp;
use vstd::prelude::*;
use vstd::string::StringExecFns;

verus! {

/// The environment variable that holds the bearer token.
pub const TOKEN_VARIABLE: &'static str = "SLACK_BOT_TOKEN";

/// The environment variable that holds the channel's identifier.
pub const CHANNEL_VARIABLE: &'static str = "SLACK_CHANNEL_ID";

/// Every Sunday at 14:00:00 UTC.
pub const AFTERNOON: &'static str = "0 0 14 * * SUN";

/// Every Sunday at 22:00:00 UTC.
pub const EVENING: &'static str = "0 0 22 * * SUN";

/// The text of every reminder.
pub const REMINDER_TEXT: &'static str = "This is your scheduled reminder!";

/// The bearer token and the channel that all runners share.
#[derive(Debug, PartialEq, Eq)]
pub struct Credentials {
    token: String,
    channel: String,
}

/// Why the process cannot start.
#[derive(Debug, PartialEq, Eq)]
pub enum ConfigError {
    /// The token's variable is not set.
    MissingToken,
    /// The channel's variable is not set.
    MissingChannel,
    /// The afternoon expression does not parse.
    InvalidAfternoon(ParseError),
    /// The evening expression does not parse.
    InvalidEvening(ParseError),
}

impl ConfigError {
    /// The message the process ends with.
    pub open spec fn spec_message(self) -> Seq<char> {
        match self {
            ConfigError::MissingToken => TOKEN_VARIABLE@ + " must be set in the environment"@,
            ConfigError::MissingChannel => CHANNEL_VARIABLE@ + " must be set in the environment"@,
            ConfigError::InvalidAfternoon(error) => "Invalid cron expression for 2 PM: "@ + error@,
            ConfigError::InvalidEvening(error) => "Invalid cron expression for 10 PM: "@ + error@,
        }
    }

    /// The message the process ends with.
    pub fn message(&self) -> (r: String)
        ensures
            r@ == self.spec_message(),
    {
        match self {
            ConfigError::MissingToken => String::from_str(TOKEN_VARIABLE).concat(
                " must be set in the environment",
            ),
            ConfigError::MissingChannel => String::from_str(CHANNEL_VARIABLE).concat(
                " must be set in the environment",
            ),
            ConfigError::InvalidAfternoon(error) => String::from_str(
                "Invalid cron expression for 2 PM: ",
            ).concat(error.message()),
            ConfigError::InvalidEvening(error) => String::from_str(
                "Invalid cron expression for 10 PM: ",
            ).concat(error.message()),
        }
    }
}

impl Credentials {
    /// The bearer token.
    pub closed spec fn spec_token(self) -> Seq<char> {
        self.token@
    }

    /// The destination channel's identifier.
    pub closed spec fn spec_channel(self) -> Seq<char> {
        self.channel@
    }

    /// The credentials from what the environment holds for the two
    /// variables. The token is looked at first.
    pub fn from_environment(token: Option<String>, channel: Option<String>) -> (r: Result<
        Credentials,
        ConfigError,
    >)
        ensures
            token is None ==> r == Err::<Credentials, ConfigError>(ConfigError::MissingToken),
            token is Some && channel is None ==> r == Err::<Credentials, ConfigError>(
                ConfigError::MissingChannel,
            ),
            (token, channel) matches (Some(t), Some(c)) ==> {
                &&& r matches Ok(credentials)
                &&& credentials.spec_token() == t@
                &&& credentials.spec_channel() == c@
            },
    {
        match token {
            None => Err(ConfigError::MissingToken),
            Some(token) => match channel {
                None => Err(ConfigError::MissingChannel),
                Some(channel) => Ok(Credentials { token, channel }),
            },
        }
    }

    /// The bearer token.
    pub fn token(&self) -> (r: &str)
        ensures
            r@ == self.spec_token(),
    {
        self.token.as_str()
    }

    /// The destination channel's identifier.
    pub fn channel(&self) -> (r: &str)
        ensures
            r@ == self.spec_channel(),
    {
        self.channel.as_str()
    }
}

/// Whether `runner` is a fresh runner for `expression` that starts at
/// `start` and sends the reminder text to `channel`.
pub open spec fn fresh_reminder(
    runner: Runner,
    expression: Seq<char>,
    channel: Seq<char>,
    start: int,
) -> bool {
    &&& runner.phase() == Phase::AwaitingClock
    &&& runner.expression() == expression
    &&& runner.start() == start
    &&& runner.position() == start
    &&& runner.yielded() == 0
    &&& runner.notification().spec_channel() == channel
    &&& runner.notification().spec_text() == REMINDER_TEXT@
}

/// The two runners of a deployment, both starting at `start`: the afternoon
/// reminder first, the evening reminder second. The afternoon expression is
/// parsed first.
pub fn reminders(credentials: &Credentials, start: Timestamp) -> (r: Result<
    (Runner, Runner),
    ConfigError,
>)
    ensures
        r is Ok <==> cron_accepts(AFTERNOON@) && cron_accepts(EVENING@),
        r matches Ok(pair) ==> {
            &&& fresh_reminder(pair.0, AFTERNOON@, credentials.spec_channel(), start@)
            &&& fresh_reminder(pair.1, EVENING@, credentials.spec_channel(), start@)
        },
        r matches Err(error) ==> if cron_accepts(AFTERNOON@) {
            error is InvalidEvening
        } else {
            error is InvalidAfternoon
        },
{
    let afternoon = match RecurrenceCalculator::parse(AFTERNOON) {
        Ok(calculator) => calculator,
        Err(error) => {
            return Err(ConfigError::InvalidAfternoon(error));
        },
    };
    let evening = match RecurrenceCalculator::parse(EVENING) {
        Ok(calculator) => calculator,
        Err(error) => {
            return Err(ConfigError::InvalidEvening(error));
        },
    };
    let first = Runner::new(afternoon, Notification::new(credentials.channel(), REMINDER_TEXT), start);
    let second = Runner::new(evening, Notification::new(credentials.channel(), REMINDER_TEXT), start);
    Ok((first, second))
}

} // verus!
