//! The requests of the desktop interface's commands that do more than pass
//! their arguments on: the days of a new schedule are read from a
//! comma-separated list, and a daemon error becomes the command's error.

use vstd::prelude::*;
use crate::model::Schedule;
use crate::order::texts;
use crate::protocol::{ClientMessage, DaemonMessage};
use crate::text::{chars_of, string_from_chars, trim, trim_chars};

verus! {

/// What `str::to_lowercase` gives for `s`: the Unicode lower case of every
/// character.
pub uninterp spec fn lowercased(s: Seq<char>) -> Seq<char>;

/// `str::to_lowercase`.
///
/// Claims only that the result is what the function gives for its
/// argument, under the name `lowercased`.
#[verifier::external_body]
fn to_lowercase(s: &str) -> (r: String)
    ensures
        r@ == lowercased(s@),
{
    s.to_lowercase()
}

/// Reading `s` from the left, split at `sep`: the fields already closed by
/// a separator, and the field still open.
pub open spec fn split_fields(s: Seq<char>, sep: char) -> (Seq<Seq<char>>, Seq<char>)
    decreases s.len(),
{
    if s.len() == 0 {
        (seq![], seq![])
    } else {
        let (done, open) = split_fields(s.drop_last(), sep);
        if s.last() == sep {
            (done.push(open), seq![])
        } else {
            (done, open.push(s.last()))
        }
    }
}

/// The fields of `s` between separators `sep`, as `str::split` gives them.
pub open spec fn fields(s: Seq<char>, sep: char) -> Seq<Seq<char>> {
    split_fields(s, sep).0.push(split_fields(s, sep).1)
}

/// The days kept from the fields: each trimmed and in lower case, the
/// empty ones left out.
pub open spec fn kept_days(fs: Seq<Seq<char>>) -> Seq<Seq<char>>
    decreases fs.len(),
{
    if fs.len() == 0 {
        seq![]
    } else {
        let rest = kept_days(fs.drop_last());
        let d = lowercased(trim(fs.last()));
        if d.len() > 0 {
            rest.push(d)
        } else {
            rest
        }
    }
}

/// The day of one field, if it is not empty.
fn day_of(field: &Vec<char>, out: &mut Vec<String>)
    ensures
        texts(final(out)@) == if lowercased(trim(field@)).len() > 0 {
            texts(old(out)@).push(lowercased(trim(field@)))
        } else {
            texts(old(out)@)
        },
{
    let trimmed = string_from_chars(&trim_chars(field));
    let day = to_lowercase(trimmed.as_str());
    if chars_of(day.as_str()).len() > 0 {
        let ghost before = out@;
        out.push(day);
        assert(texts(out@) =~= texts(before).push(day@));
    }
}

/// The days of a comma-separated list such as `"Mon, tue,,WED"`: each
/// trimmed and in lower case, the empty ones left out.
pub fn schedule_days(days: &str) -> (r: Vec<String>)
    ensures
        texts(r@) == kept_days(fields(days@, ',')),
{
    let c = chars_of(days);
    let mut out: Vec<String> = Vec::new();
    let mut field: Vec<char> = Vec::new();
    let mut i: usize = 0;
    while i < c.len()
        invariant
            i <= c.len(),
            field@ == split_fields(c@.take(i as int), ',').1,
            texts(out@) == kept_days(split_fields(c@.take(i as int), ',').0),
        decreases c.len() - i,
    {
        let ghost prev = c@.take(i as int);
        assert(c@.take(i + 1).drop_last() =~= prev);
        if c[i] == ',' {
            day_of(&field, &mut out);
            proof {
                let done = split_fields(prev, ',').0;
                assert(done.push(field@).drop_last() =~= done);
            }
            field = Vec::new();
        } else {
            field.push(c[i]);
        }
        i += 1;
    }
    assert(c@.take(c.len() as int) =~= c@);
    day_of(&field, &mut out);
    proof {
        let done = split_fields(c@, ',').0;
        assert(done.push(field@).drop_last() =~= done);
    }
    out
}

/// The request that creates a recurring schedule for `profile_id` on the
/// listed days, from `start_time` to `end_time`.
pub fn schedule_request(profile_id: String, days: &str, start_time: String, end_time: String) -> (r:
    ClientMessage)
    ensures
        r matches ClientMessage::CreateSchedule { schedule } && {
            &&& schedule.id == 0
            &&& schedule.profile_id == profile_id
            &&& schedule.schedule_type is None
            &&& (schedule.days matches Some(ds) && texts(ds@) == kept_days(fields(days@, ',')))
            &&& schedule.start_time == Some(start_time)
            &&& schedule.end_time == Some(end_time)
            &&& schedule.timezone is None
            &&& schedule.one_time_date is None
        },
{
    let days = schedule_days(days);
    ClientMessage::CreateSchedule {
        schedule: Schedule {
            id: 0,
            profile_id,
            schedule_type: None,
            days: Some(days),
            start_time: Some(start_time),
            end_time: Some(end_time),
            timezone: None,
            one_time_date: None,
        },
    }
}

/// A daemon answer as a command's outcome: an error message is the error.
pub fn answer_or_error(m: DaemonMessage) -> (r: Result<DaemonMessage, String>)
    ensures
        m matches DaemonMessage::Error(e) ==> r == Err::<DaemonMessage, String>(e),
        !(m is Error) ==> r == Ok::<DaemonMessage, String>(m),
{
    match m {
        DaemonMessage::Error(e) => Err(e),
        other => Ok(other),
    }
}

} // verus!
