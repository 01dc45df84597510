//! Milestone due dates: accepted input forms and the values sent to GitBucket.
use vstd::prelude::*;

use crate::error::{other, Failure, GbError};
use crate::text::{chars_of, has_prefix, push_all, push_str, starts_with_str, string_of, trim, trimmed};

verus! {

/// What `time::Date::parse(value, description)` gives, as year, month and day,
/// with the format description itself parsed by `time::format_description::parse`.
pub uninterp spec fn time_parse_date(value: Seq<char>, description: Seq<char>) -> Option<(i32, u8, u8)>;

/// What `time::OffsetDateTime::parse(value, &Rfc3339)` gives, as the year, month
/// and day of its `date()`.
pub uninterp spec fn time_rfc3339_date(value: Seq<char>) -> Option<(i32, u8, u8)>;

/// What `time::Date::format` gives for the calendar date under `description`,
/// or the error text of `from_calendar_date` or `format`.
pub uninterp spec fn time_format_date(year: i32, month: u8, day: u8, description: Seq<char>) -> Result<
    Seq<char>,
    Seq<char>,
>;

/// Calls `time::format_description::parse(description)` and `time::Date::parse(value, ..)`,
/// and reads `year()`, `month()` and `day()` off the date.  Claims that the
/// outcome is `time_parse_date(value, description)`.
#[verifier::external_body]
fn parse_date(value: &str, description: &str) -> (r: Option<(i32, u8, u8)>)
    ensures
        r == time_parse_date(value@, description@),
{
    let items = time::format_description::parse(description).ok()?;
    let date = time::Date::parse(value, &items).ok()?;
    Some((date.year(), u8::from(date.month()), date.day()))
}

/// Calls `time::OffsetDateTime::parse(value, &Rfc3339)` and reads the year, month
/// and day of its `date()`.  Claims that the outcome is `time_rfc3339_date(value)`.
#[verifier::external_body]
fn parse_rfc3339_date(value: &str) -> (r: Option<(i32, u8, u8)>)
    ensures
        r == time_rfc3339_date(value@),
{
    let dt = time::OffsetDateTime::parse(value, &time::format_description::well_known::Rfc3339).ok()?;
    let date = dt.date();
    Some((date.year(), u8::from(date.month()), date.day()))
}

/// Builds the date with `time::Month::try_from` and `time::Date::from_calendar_date`,
/// and formats it with `Date::format` under the format description `description`.
/// Claims that the outcome (text or error message) is `time_format_date(..)`.
#[verifier::external_body]
fn format_date(year: i32, month: u8, day: u8, description: &str) -> (r: Result<String, String>)
    ensures
        match r {
            Ok(s) => time_format_date(year, month, day, description@) == Ok::<Seq<char>, Seq<char>>(s@),
            Err(e) => time_format_date(year, month, day, description@) == Err::<Seq<char>, Seq<char>>(e@),
        },
{
    let items = time::format_description::parse(description).map_err(|e| e.to_string())?;
    let month = time::Month::try_from(month).map_err(|e| e.to_string())?;
    let date = time::Date::from_calendar_date(year, month, day).map_err(|e| e.to_string())?;
    date.format(&items).map_err(|e| e.to_string())
}

/// The calendar-date format of due dates.
pub open spec fn date_format() -> Seq<char> {
    "[year]-[month]-[day]"@
}

/// A due date accepted from the user: the API value and the web-form value.
pub struct NormalizedDueOn {
    pub api_value: String,
    pub form_value: String,
}

/// What a milestone edit does to the due date.
pub enum DueOnInput {
    Unchanged,
    Clear,
    SetTo(NormalizedDueOn),
}

/// The (API value, form value) pair for a calendar date, or the formatting failure.
pub open spec fn spec_due_values(date: (i32, u8, u8)) -> Result<(Seq<char>, Seq<char>), Failure> {
    match time_format_date(date.0, date.1, date.2, date_format()) {
        Ok(f) => Ok((f + "T00:00:00Z"@, f)),
        Err(e) => Err(Failure::Other("Failed to format due date: "@ + e)),
    }
}

/// A due date given as `YYYY-MM-DD` or RFC 3339, reduced to its calendar date at midnight UTC.
pub open spec fn spec_parse_due_on_value(value: Seq<char>) -> Result<(Seq<char>, Seq<char>), Failure> {
    let t = trim(value);
    match time_parse_date(t, date_format()) {
        Some(d) => spec_due_values(d),
        None => match time_rfc3339_date(t) {
            Some(d) => spec_due_values(d),
            None => Err(
                Failure::Other(
                    "Invalid due date '"@ + value + "'. Expected YYYY-MM-DD or RFC3339."@,
                ),
            ),
        },
    }
}

/// The abstract value of a parsed due date.
pub open spec fn due_result(r: Result<NormalizedDueOn, GbError>) -> Result<(Seq<char>, Seq<char>), Failure> {
    match r {
        Ok(n) => Ok((n.api_value@, n.form_value@)),
        Err(e) => Err(e@),
    }
}

fn due_values(date: (i32, u8, u8)) -> (r: Result<NormalizedDueOn, GbError>)
    ensures
        due_result(r) == spec_due_values(date),
{
    match format_date(date.0, date.1, date.2, "[year]-[month]-[day]") {
        Ok(form) => {
            let mut api = chars_of(form.as_str());
            push_str(&mut api, "T00:00:00Z");
            Ok(NormalizedDueOn { api_value: string_of(&api), form_value: form })
        },
        Err(e) => {
            let mut msg = chars_of("Failed to format due date: ");
            push_str(&mut msg, e.as_str());
            Err(other(&msg))
        },
    }
}

/// Parses a due date given as `YYYY-MM-DD` or RFC 3339.
pub fn parse_due_on_value(value: &str) -> (r: Result<NormalizedDueOn, GbError>)
    ensures
        due_result(r) == spec_parse_due_on_value(value@),
{
    let v = chars_of(value);
    let t = string_of(&trimmed(&v));
    if let Some(d) = parse_date(t.as_str(), "[year]-[month]-[day]") {
        return due_values(d);
    }
    if let Some(d) = parse_rfc3339_date(t.as_str()) {
        return due_values(d);
    }
    let mut msg = chars_of("Invalid due date '");
    push_all(&mut msg, &v);
    push_str(&mut msg, "'. Expected YYYY-MM-DD or RFC3339.");
    Err(other(&msg))
}

/// The abstract value of an optional due date for a new milestone.
pub open spec fn create_result(r: Result<Option<NormalizedDueOn>, GbError>) -> Result<
    Option<(Seq<char>, Seq<char>)>,
    Failure,
> {
    match r {
        Ok(Some(n)) => Ok(Some((n.api_value@, n.form_value@))),
        Ok(None) => Ok(None),
        Err(e) => Err(e@),
    }
}

/// The due date of a new milestone: none for a missing or blank value.
pub open spec fn spec_normalize_due_on_for_create(raw: Option<Seq<char>>) -> Result<
    Option<(Seq<char>, Seq<char>)>,
    Failure,
> {
    match raw {
        Some(v) => if trim(v).len() == 0 {
            Ok(None)
        } else {
            match spec_parse_due_on_value(v) {
                Ok(p) => Ok(Some(p)),
                Err(e) => Err(e),
            }
        },
        None => Ok(None),
    }
}

/// The due date of a new milestone.
pub fn normalize_due_on_for_create(raw: Option<String>) -> (r: Result<
    Option<NormalizedDueOn>,
    GbError,
>)
    ensures
        create_result(r) == spec_normalize_due_on_for_create(crate::error::opt_view(raw)),
{
    match raw {
        Some(value) => {
            let v = chars_of(value.as_str());
            if trimmed(&v).len() == 0 {
                Ok(None)
            } else {
                Ok(Some(parse_due_on_value(value.as_str())?))
            }
        },
        None => Ok(None),
    }
}

/// The abstract value of a due-date edit.
pub enum DueOnChange {
    Unchanged,
    Clear,
    SetTo(Seq<char>, Seq<char>),
}

/// The abstract value of a fallible due-date edit.
pub open spec fn edit_result(r: Result<DueOnInput, GbError>) -> Result<DueOnChange, Failure> {
    match r {
        Ok(DueOnInput::Unchanged) => Ok(DueOnChange::Unchanged),
        Ok(DueOnInput::Clear) => Ok(DueOnChange::Clear),
        Ok(DueOnInput::SetTo(n)) => Ok(DueOnChange::SetTo(n.api_value@, n.form_value@)),
        Err(e) => Err(e@),
    }
}

/// A milestone edit's due date: untouched when missing, cleared when blank.
pub open spec fn spec_normalize_due_on_for_edit(raw: Option<Seq<char>>) -> Result<DueOnChange, Failure> {
    match raw {
        Some(v) => if trim(v).len() == 0 {
            Ok(DueOnChange::Clear)
        } else {
            match spec_parse_due_on_value(v) {
                Ok(p) => Ok(DueOnChange::SetTo(p.0, p.1)),
                Err(e) => Err(e),
            }
        },
        None => Ok(DueOnChange::Unchanged),
    }
}

/// A milestone edit's due date.
pub fn normalize_due_on_for_edit(raw: Option<String>) -> (r: Result<DueOnInput, GbError>)
    ensures
        edit_result(r) == spec_normalize_due_on_for_edit(crate::error::opt_view(raw)),
{
    match raw {
        Some(value) => {
            let v = chars_of(value.as_str());
            if trimmed(&v).len() == 0 {
                Ok(DueOnInput::Clear)
            } else {
                Ok(DueOnInput::SetTo(parse_due_on_value(value.as_str())?))
            }
        },
        None => Ok(DueOnInput::Unchanged),
    }
}

/// The date GitBucket stores for a milestone without a due date.
pub open spec fn unset_due_on() -> Seq<char> {
    "0001-01-01"@
}

/// The web-form date of a stored due date; empty for the unset value.
pub open spec fn spec_due_on_to_form_date(value: Seq<char>) -> Result<Seq<char>, Failure> {
    if has_prefix(value, unset_due_on()) {
        Ok(Seq::empty())
    } else {
        match spec_parse_due_on_value(value) {
            Ok(p) => Ok(p.1),
            Err(e) => Err(e),
        }
    }
}

/// The web-form date of a stored due date.
pub fn due_on_to_form_date(value: &str) -> (r: Result<String, GbError>)
    ensures
        crate::error::str_result(r) == spec_due_on_to_form_date(value@),
{
    let v = chars_of(value);
    if starts_with_str(&v, "0001-01-01") {
        return Ok(string_of(&Vec::new()));
    }
    Ok(parse_due_on_value(value)?.form_value)
}

/// A stored due date for display; empty when unset.
pub open spec fn spec_format_due_on(value: Option<Seq<char>>) -> Seq<char> {
    match value {
        Some(v) => if has_prefix(v, unset_due_on()) {
            Seq::empty()
        } else {
            v
        },
        None => Seq::empty(),
    }
}

/// A stored due date for display.
pub fn format_due_on(value: Option<&str>) -> (r: String)
    ensures
        r@ == spec_format_due_on(match value {
            Some(v) => Some(v@),
            None => None,
        }),
{
    match value {
        Some(v) => {
            let c = chars_of(v);
            if starts_with_str(&c, "0001-01-01") {
                string_of(&Vec::new())
            } else {
                string_of(&c)
            }
        },
        None => string_of(&Vec::new()),
    }
}

} // verus!
