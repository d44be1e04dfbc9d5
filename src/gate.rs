//! The once-a-day run gate: the date of the last successful run, read from
//! its stored text and rewritten after each successful run.
use crate::run::RunError;
use chrono::{Datelike, NaiveDate};
use vstd::prelude::*;

verus! {

/// The day, counted from the common era, that a stored date text denotes,
/// if it denotes one.
pub uninterp spec fn day_of_text(s: Seq<char>) -> Option<i32>;

/// The ISO-8601 text of a day counted from the common era, if the day is
/// within the representable range.
pub uninterp spec fn text_of_day(day: i32) -> Option<Seq<char>>;

/// Relies on chrono's `NaiveDate` parser (`%Y-%m-%d`), with the date read
/// back as its day number by `Datelike::num_days_from_ce`.
#[verifier::external_body]
fn parse_day(text: &str) -> (r: Option<i32>)
    ensures
        r == day_of_text(text@),
{
    text.parse::<NaiveDate>().ok().map(|d| d.num_days_from_ce())
}

/// Relies on chrono's `NaiveDate::from_num_days_from_ce_opt` and on the
/// `Display` of `NaiveDate` (`%Y-%m-%d`), which chrono documents as readable
/// by its own parser.
#[verifier::external_body]
fn day_text(day: i32) -> (r: Option<String>)
    ensures
        r is None <==> text_of_day(day) is None,
        r matches Some(s) ==> text_of_day(day) == Some(s@) && s@.len() > 0 && day_of_text(s@)
            == Some(day),
{
    NaiveDate::from_num_days_from_ce_opt(day).map(|d| d.to_string())
}

/// The stored gate text could not be read as a date.
#[derive(Clone, Copy, PartialEq, Eq, Structural, Debug)]
pub enum GateError {
    Unreadable,
}

/// The day of the last successful run that a stored text gives on day
/// `today`: the day before `today` when the text is empty, else the day
/// the text denotes.
pub open spec fn loaded_day(stored: Seq<char>, today: i32) -> Option<int> {
    if stored.len() == 0 {
        Some(today - 1)
    } else {
        match day_of_text(stored) {
            Some(d) => Some(d as int),
            None => None,
        }
    }
}

/// The text committed after a successful run on day `day` reads back, on
/// any later day, as exactly `day`; a run is then let through only on the
/// days after it.
pub proof fn lemma_commit_then_load(t: Seq<char>, day: i32, today: i32)
    requires
        t.len() > 0,
        day_of_text(t) == Some(day),
    ensures
        loaded_day(t, today) == Some(day as int),
        (RunGate { last: day }).spec_should_run(today) <==> today > day,
{
}

/// The last day on which a run succeeded.
#[derive(Clone, Copy, PartialEq, Eq, Structural, Debug)]
pub struct RunGate {
    pub last: i32,
}

impl RunGate {
    /// A run may start on day `today`: it is strictly after the last one.
    pub open spec fn spec_should_run(&self, today: i32) -> bool {
        today > self.last
    }

    /// Reads the last run day from its stored text on day `today`. An empty text
    /// lets today's run through.
    pub fn load(stored: &str, today: i32) -> (r: Result<RunGate, GateError>)
        requires
            today > i32::MIN,
        ensures
            r matches Ok(g) ==> loaded_day(stored@, today) == Some(g.last as int),
            r is Err <==> loaded_day(stored@, today) is None,
    {
        if stored.is_empty() {
            Ok(RunGate { last: today - 1 })
        } else {
            match parse_day(stored) {
                Some(d) => Ok(RunGate { last: d }),
                None => Err(GateError::Unreadable),
            }
        }
    }

    /// Whether a run may start on day `today`: only strictly after the last
    /// successful one.
    pub fn should_run(&self, today: i32) -> (r: bool)
        ensures
            r == self.spec_should_run(today),
    {
        today > self.last
    }

    /// Records a successful run on day `today` and gives the text that
    /// replaces the stored one. `None`, with nothing changed, when the
    /// day has no date text.
    pub fn commit(&mut self, today: i32) -> (r: Option<String>)
        ensures
            r is None <==> text_of_day(today) is None,
            r matches Some(t) ==> final(self).last == today && Some(t@) == text_of_day(today)
                && t@.len() > 0 && day_of_text(t@) == Some(today),
            r is None ==> *final(self) == *old(self),
    {
        match day_text(today) {
            Some(t) => {
                self.last = today;
                Some(t)
            },
            None => None,
        }
    }
}

impl RunGate {
    /// Closes a run that took place on day `today`: only a successful run
    /// advances the last run day, and then the text that replaces the stored
    /// one is returned. A failed run leaves everything as it was.
    pub fn finish(&mut self, result: &Result<(), RunError>, today: i32) -> (r: Option<String>)
        ensures
            result is Err ==> r is None,
            result is Ok ==> (r is None <==> text_of_day(today) is None),
            r matches Some(t) ==> final(self).last == today && Some(t@) == text_of_day(today)
                && t@.len() > 0 && day_of_text(t@) == Some(today),
            r is None ==> *final(self) == *old(self),
    {
        match result {
            Ok(()) => self.commit(today),
            Err(_) => None,
        }
    }
}

} // verus!
