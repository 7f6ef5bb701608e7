//! The daily schedule: when the crawlers run, and what a day's run came
//! to.

use crate::error::{CrawlerError, CrawlerResult, ErrorKind};
use crate::number::{decimal, push_decimal};
use crate::text::string_of;
use vstd::prelude::*;
use vstd::string::StringExecFns;

verus! {

/// The cron expression of a job that runs each day at `hour`:`minute`, at
/// the start of the minute.
pub open spec fn daily_cron(hour: nat, minute: nat) -> Seq<char> {
    "0 "@ + decimal(minute) + " "@ + decimal(hour) + " * * *"@
}

/// Whether `hour` and `minute` name a time of the day.
pub open spec fn is_time_of_day(hour: nat, minute: nat) -> bool {
    hour < 24 && minute < 60
}

/// The cron expression of a job that runs each day at `hour`:`minute`.
pub fn daily_cron_expression(hour: u32, minute: u32) -> (cron: String)
    ensures
        cron@ == daily_cron(hour as nat, minute as nat),
{
    let mut minute_text: Vec<char> = Vec::new();
    push_decimal(&mut minute_text, minute as u64);
    let mut hour_text: Vec<char> = Vec::new();
    push_decimal(&mut hour_text, hour as u64);
    let mut cron = String::from_str("0 ");
    cron.append(string_of(&minute_text).as_str());
    cron.append(" ");
    cron.append(string_of(&hour_text).as_str());
    cron.append(" * * *");
    cron
}

/// Decides `is_time_of_day`.
pub fn time_of_day(hour: u32, minute: u32) -> (b: bool)
    ensures
        b == is_time_of_day(hour as nat, minute as nat),
{
    hour < 24 && minute < 60
}

/// How the process that runs the day's crawlers ended.
pub enum JobExit {
    /// It ran and ended with success.
    Success,
    /// It ran and ended with a failure; what it wrote to its error stream.
    Failure(String),
    /// It could not be started; why.
    NotStarted(String),
}

/// What a day's run came to, given how its process ended.
pub fn run_daily_crawlers(exit: &JobExit) -> (r: CrawlerResult<()>)
    ensures
        exit is Success ==> r is Ok,
        exit matches JobExit::Failure(errors) ==> (r matches Err(e) && e@ == (
            ErrorKind::Api,
            "Daily crawlers failed: "@ + errors@,
        )),
        exit matches JobExit::NotStarted(cause) ==> (r matches Err(e) && e@ == (
            ErrorKind::Io,
            "Failed to execute daily crawlers: "@ + cause@,
        )),
{
    match exit {
        JobExit::Success => Ok(()),
        JobExit::Failure(errors) => {
            let mut text = String::from_str("Daily crawlers failed: ");
            text.append(errors.as_str());
            Err(CrawlerError::Api(text))
        },
        JobExit::NotStarted(cause) => {
            let mut text = String::from_str("Failed to execute daily crawlers: ");
            text.append(cause.as_str());
            Err(CrawlerError::Io(text))
        },
    }
}

} // verus!
