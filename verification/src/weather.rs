//! Pure helpers of the weather command: the icon address, the emoji for a
//! condition code, capitalising a description, and naming a wind direction.
//! Fetching the forecast itself is the caller's business; these functions
//! only shape what gets shown.

use vstd::prelude::*;

use crate::text::{str_eq, to_upper_char, upper_char};

verus! {

/// The address of the provider's icon image for a condition code.
pub open spec fn weather_image_url(code: Seq<char>) -> Seq<char> {
    "http://openweathermap.org/img/wn/"@ + code + "@2x.png"@
}

/// Builds the address of the provider's icon image for a condition code.
pub fn get_weather_image_url(code: &String) -> (r: String)
    ensures
        r@ == weather_image_url(code@),
{
    let mut r = String::from_str("http://openweathermap.org/img/wn/");
    r.append(code.as_str());
    r.append("@2x.png");
    r
}

/// The emoji shown for a condition code; clear sky for anything unknown.
pub open spec fn weather_emoji(code: Seq<char>) -> Seq<char> {
    if code == "01d"@ {
        "☀️"@
    } else if code == "01n"@ {
        "🌕"@
    } else if code == "02d"@ || code == "02n"@ {
        "⛅"@
    } else if code == "03d"@ || code == "03n"@ || code == "04d"@ || code == "04n"@ {
        "☁️"@
    } else if code == "09d"@ || code == "09n"@ || code == "10d"@ || code == "10n"@ {
        "🌧️"@
    } else if code == "11d"@ || code == "11n"@ {
        "🌩️"@
    } else if code == "13d"@ || code == "13n"@ {
        "❄️"@
    } else if code == "50d"@ || code == "50n"@ {
        "🌫️"@
    } else {
        "☀️"@
    }
}

/// Picks the emoji shown for a condition code.
pub fn get_weather_emoji(code: &String) -> (r: String)
    ensures
        r@ == weather_emoji(code@),
{
    let c = code.as_str();
    if str_eq(c, "01d") {
        String::from_str("☀️")
    } else if str_eq(c, "01n") {
        String::from_str("🌕")
    } else if str_eq(c, "02d") || str_eq(c, "02n") {
        String::from_str("⛅")
    } else if str_eq(c, "03d") || str_eq(c, "03n") || str_eq(c, "04d") || str_eq(c, "04n") {
        String::from_str("☁️")
    } else if str_eq(c, "09d") || str_eq(c, "09n") || str_eq(c, "10d") || str_eq(c, "10n") {
        String::from_str("🌧️")
    } else if str_eq(c, "11d") || str_eq(c, "11n") {
        String::from_str("🌩️")
    } else if str_eq(c, "13d") || str_eq(c, "13n") {
        String::from_str("❄️")
    } else if str_eq(c, "50d") || str_eq(c, "50n") {
        String::from_str("🌫️")
    } else {
        String::from_str("☀️")
    }
}

/// A non-empty text with its first character upper-cased and the rest kept.
pub open spec fn capitalized(s: Seq<char>) -> Seq<char> {
    seq![upper_char(s[0])] + s.skip(1)
}

/// Upper-cases the first character of a non-empty text and keeps the rest.
/// The first character must be ASCII: the byte-wise slicing this mirrors is
/// only meaningful on a single-byte first character.
pub fn uppercase_first(s: &str) -> (r: String)
    requires
        s@.len() >= 1,
        (s@[0] as u32) < 128,
    ensures
        r@ == capitalized(s@),
{
    let first = s.get_char(0);
    let up = to_upper_char(first);
    let mut r = String::new();
    crate::text::push_char(&mut r, up);
    let rest = s.substring_char(1, s.unicode_len());
    r.append(rest);
    proof {
        assert(s@.subrange(1, s@.len() as int) =~= s@.skip(1));
        assert(Seq::<char>::empty() + seq![up] =~= seq![up]);
    }
    r
}

/// The text that the date-time library writes for a moment, shifted to a
/// fixed offset and laid out by a format text: a function of the three
/// arguments alone.
pub uninterp spec fn local_time_text(timestamp: int, offset_seconds: int, fmt: Seq<char>) -> Seq<
    char,
>;

/// Relies on chrono: `DateTime::from_timestamp` and `FixedOffset::east_opt`
/// place the moment in the fixed offset, and `format` lays it out.  The
/// bounds keep both constructors inside their documented ranges — the
/// timestamp within 253,000 years of the epoch, where chrono documents
/// 262,000 — and the format texts are the three this crate uses, all
/// well-formed.
#[verifier::external_body]
fn chrono_format(timestamp: i64, offset_seconds: i32, fmt: &str) -> (r: String)
    requires
        -8000000000000 <= timestamp <= 8000000000000,
        -86400 < offset_seconds < 86400,
        fmt@ == "%H:%M"@ || fmt@ == "%e %b %Y"@ || fmt@ == "%H:%M, %e %b %Y"@,
    ensures
        r@ == local_time_text(timestamp as int, offset_seconds as int, fmt@),
{
    let moment = chrono::DateTime::from_timestamp(timestamp, 0).unwrap();
    let offset = chrono::FixedOffset::east_opt(offset_seconds).unwrap();
    moment.with_timezone(&offset).format(fmt).to_string()
}

/// Writes a moment, given in seconds since the epoch, as local time at a
/// fixed offset, in one of the three layouts the commands use.
pub fn format_timestamp(timestamp: i64, offset: i32, format: &str) -> (r: String)
    requires
        -8000000000000 <= timestamp <= 8000000000000,
        -86400 < offset < 86400,
        format@ == "%H:%M"@ || format@ == "%e %b %Y"@ || format@ == "%H:%M, %e %b %Y"@,
    ensures
        r@ == local_time_text(timestamp as int, offset as int, format@),
{
    chrono_format(timestamp, offset, format)
}

/// The compass name for a wind direction in degrees: north around zero,
/// then east, south and west in ninety-degree quarters.
pub open spec fn direction_name(degrees: int) -> Seq<char> {
    if degrees <= 45 || degrees > 315 {
        "North"@
    } else if degrees <= 135 {
        "East"@
    } else if degrees <= 225 {
        "South"@
    } else {
        "West"@
    }
}

/// Names the compass direction for a wind direction in degrees.
pub fn format_direction(degrees: i32) -> (r: String)
    ensures
        r@ == direction_name(degrees as int),
{
    if degrees <= 45 || degrees > 315 {
        String::from_str("North")
    } else if degrees <= 135 {
        String::from_str("East")
    } else if degrees <= 225 {
        String::from_str("South")
    } else {
        String::from_str("West")
    }
}

} // verus!
