use vstd::prelude::*;
use vstd::string::*;
use crate::datetime::{naive_date_parse, parse_naive_date, CalendarDate};
use crate::decimal::decimal_integer;

verus! {

/// The text of the `ParseIntError` that `str::parse::<i32>` gives for a text
/// it refuses.
pub uninterp spec fn i32_parse_error(text: Seq<char>) -> Seq<char>;

/// Whether `str::parse::<i32>` reads a text: an optional sign and one or more
/// decimal digits, whose value fits an `i32`.
pub open spec fn reads_as_i32(text: Seq<char>) -> bool {
    decimal_integer(text) matches Some(v) && i32::MIN <= v <= i32::MAX
}

/// Calls `str::parse::<i32>` and writes a `ParseIntError` with `to_string`.
/// Claimed, as the documentation of `i32::from_str_radix` states: the text
/// is read exactly when it is an optional `+` or `-` followed by only digits
/// and the value fits, and then the number is that value; a refused text gives
/// `i32_parse_error(text@)`.
#[verifier::external_body]
fn parse_i32(text: &str) -> (parsed: Result<i32, String>)
    ensures
        parsed is Ok <==> reads_as_i32(text@),
        parsed matches Ok(v) ==> decimal_integer(text@) == Some(v as int),
        parsed matches Err(e) ==> e@ == i32_parse_error(text@),
{
    text.parse::<i32>().map_err(|error| error.to_string())
}

/// The message before the reason an index could not be read.
pub open spec fn int_format_prefix() -> Seq<char> {
    "Incorrect int format: "@
}

/// The message before the reason a date could not be read.
pub open spec fn date_format_prefix() -> Seq<char> {
    "Incorrect date format: "@
}

/// The error of choosing variant 0.
pub open spec fn chosen_variant_error() -> Seq<char> {
    "Incorrect chosen variant"@
}

/// The text written for a forecast.
pub open spec fn weather_output(date: Seq<char>, temperature: Seq<char>) -> Seq<char> {
    "Day: "@ + date + "\nTemperature: "@ + temperature
}

/// Reads an index typed by the user: a number that fits an `i32`, turned into
/// a `usize` as `as` does (a negative number wraps around).
pub fn parse_usize(input: String) -> (index: Result<usize, String>)
    ensures
        index is Ok <==> reads_as_i32(input@),
        index matches Ok(i) ==> i == (decimal_integer(input@).unwrap() as i32) as usize,
        index matches Err(e) ==> e@ == int_format_prefix() + i32_parse_error(input@),
{
    match parse_i32(input.as_str()) {
        Ok(i) => Ok(i as usize),
        Err(e) => {
            let mut message = "Incorrect int format: ".to_string();
            message.append(e.as_str());
            Err(message)
        },
    }
}

/// Reads a date typed by the user, as chrono reads a `NaiveDate`.
pub fn parse_date(input: String) -> (date: Result<CalendarDate, String>)
    ensures
        match (date, naive_date_parse(input@)) {
            (Ok(d), Ok(parsed)) => d@ == parsed,
            (Err(e), Err(reason)) => e@ == date_format_prefix() + reason,
            _ => false,
        },
{
    match parse_naive_date(input.as_str()) {
        Ok(parts) => match CalendarDate::new(parts.0, parts.1, parts.2) {
            Some(date) => Ok(date),
            None => {
                assert(false);
                Err(String::new())
            },
        },
        Err(e) => {
            let mut message = "Incorrect date format: ".to_string();
            message.append(e.as_str());
            Err(message)
        },
    }
}

/// Refuses the variant 0; hands any other index back unchanged.
pub fn decrease_chosen_index(i: usize) -> (index: Result<usize, String>)
    ensures
        i == 0 ==> (index matches Err(e) && e@ == chosen_variant_error()),
        i != 0 ==> index == Ok::<usize, String>(i),
{
    if i == 0 {
        Err("Incorrect chosen variant".to_string())
    } else {
        Ok(i)
    }
}

/// "Day: {date}\nTemperature: {temperature}".
pub fn get_weather_output(date: &str, temperature: &str) -> (output: String)
    ensures
        output@ == weather_output(date@, temperature@),
{
    let mut output = "Day: ".to_string();
    output.append(date);
    output.append("\nTemperature: ");
    output.append(temperature);
    output
}

/// The output starts with "Day: " and the date, ends with the temperature,
/// and has a line break between them.
pub proof fn law_weather_output_parts(date: Seq<char>, temperature: Seq<char>)
    ensures
        weather_output(date, temperature).len() == date.len() + temperature.len() + 19,
        weather_output(date, temperature).subrange(0, 5) == seq!['D', 'a', 'y', ':', ' '],
        weather_output(date, temperature).subrange(5, 5 + date.len() as int) == date,
        weather_output(date, temperature)[5 + date.len() as int] == '\n',
        weather_output(date, temperature).subrange(
            weather_output(date, temperature).len() - temperature.len(),
            weather_output(date, temperature).len() as int,
        ) == temperature,
{
    reveal_strlit("Day: ");
    reveal_strlit("\nTemperature: ");
    let out = weather_output(date, temperature);
    assert(out.subrange(0, 5) =~= seq!['D', 'a', 'y', ':', ' ']);
    assert(out.subrange(5, 5 + date.len() as int) =~= date);
    assert(out.subrange(out.len() - temperature.len(), out.len() as int) =~= temperature);
}

} // verus!
