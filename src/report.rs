//! The text of a weather report, and the addresses of the two upstream
//! services.

use crate::weather::WeatherSynopsis;
use vstd::prelude::*;
use vstd::utf8::encode_utf8;

verus! {

/// What a report shows, with the numbers and the time already written out.
#[derive(Debug, Clone, PartialEq)]
pub struct ReportView {
    /// Name of the observed city.
    pub city: String,
    /// Categories of the observed weather; the report shows the first.
    pub synopses: Vec<WeatherSynopsis>,
    /// Local time of the observation, as `DD/MM/YY HH:MM`.
    pub forecast_time: String,
    /// Current temperature in degrees Celsius, rounded to a whole number.
    pub temperature: String,
    /// Felt temperature in degrees Celsius, rounded to a whole number.
    pub feels_like: String,
}

/// The category line: name, description and glyph.
pub open spec fn synopsis_line_spec(s: WeatherSynopsis) -> Seq<char> {
    s.synopsis.name_spec() + ": "@ + s.description@ + " "@ + s.synopsis.emoji_spec()
}

/// The lines of a report, in order; the category line only where the
/// observation has a category.
pub open spec fn report_lines(v: ReportView) -> Seq<Seq<char>> {
    let head = seq!["Weather for "@ + v.city@, "Forecast date: "@ + v.forecast_time@];
    let temps = seq![
        "Current temp: "@ + v.temperature@ + "°C"@,
        "Feels like: "@ + v.feels_like@ + "°C"@,
    ];
    if v.synopses@.len() > 0 {
        head.push(synopsis_line_spec(v.synopses@[0])) + temps
    } else {
        head + temps
    }
}

/// Characters that stand for themselves in a query value: ASCII letters,
/// digits and `-`, `.`, `_`, `~`.
pub open spec fn is_unreserved(c: char) -> bool {
    let n = c as u32;
    ||| 65 <= n <= 90
    ||| 97 <= n <= 122
    ||| 48 <= n <= 57
    ||| c == '-' || c == '.' || c == '_' || c == '~'
}

/// The upper-case hexadecimal digit of `n`, for `n < 16`.
pub open spec fn hex_text(n: u8) -> Seq<char> {
    if n == 0 { "0"@ } else if n == 1 { "1"@ } else if n == 2 { "2"@ } else if n == 3 { "3"@ }
    else if n == 4 { "4"@ } else if n == 5 { "5"@ } else if n == 6 { "6"@ } else if n == 7 { "7"@ }
    else if n == 8 { "8"@ } else if n == 9 { "9"@ } else if n == 10 { "A"@ } else if n == 11 { "B"@ }
    else if n == 12 { "C"@ } else if n == 13 { "D"@ } else if n == 14 { "E"@ } else { "F"@ }
}

/// Each byte written as `%` and two hexadecimal digits.
pub open spec fn percent_bytes(bytes: Seq<u8>) -> Seq<char>
    decreases bytes.len(),
{
    if bytes.len() == 0 {
        Seq::empty()
    } else {
        let b = bytes.last();
        percent_bytes(bytes.drop_last()) + "%"@ + hex_text(b / 16) + hex_text(b % 16)
    }
}

/// `text` as a query value: unreserved characters as they are, every other
/// character as the percent-encoded bytes of its UTF-8 form.
pub open spec fn query_escape(text: Seq<char>) -> Seq<char>
    decreases text.len(),
{
    if text.len() == 0 {
        Seq::empty()
    } else {
        let c = text.last();
        query_escape(text.drop_last()) + if is_unreserved(c) {
            seq![c]
        } else {
            percent_bytes(encode_utf8(seq![c]))
        }
    }
}

/// The address that asks geocoding for the single best match of `city`.
pub open spec fn geocoding_url_spec(city: Seq<char>, api_key: Seq<char>) -> Seq<char> {
    "https://api.openweathermap.org/geo/1.0/direct?q="@ + query_escape(city) + "&limit=1&appid="@
        + api_key
}

/// The address that asks for the current weather at a place, in metric units.
pub open spec fn weather_url_spec(lon: Seq<char>, lat: Seq<char>, api_key: Seq<char>) -> Seq<char> {
    "https://api.openweathermap.org/data/2.5/weather?lon="@ + lon + "&lat="@ + lat + "&appid="@
        + api_key + "&units=metric"@
}

/// `a` followed by `b`.
fn joined(a: &str, b: &str) -> (r: String)
    ensures
        r@ == a@ + b@,
{
    let mut s = String::from_str(a);
    s.append(b);
    s
}

/// The category line of one synopsis: name, description and glyph.
pub fn synopsis_line(s: &WeatherSynopsis) -> (r: String)
    ensures
        r@ == synopsis_line_spec(*s),
{
    let mut line = joined(s.synopsis.name(), ": ");
    line.append(s.description.as_str());
    line.append(" ");
    line.append(s.synopsis.get_emoji());
    line
}

/// The category line of the first synopsis, if there is one.
pub fn category_line(synopses: &Vec<WeatherSynopsis>) -> (r: Option<String>)
    ensures
        synopses@.len() == 0 ==> r is None,
        synopses@.len() > 0 ==> r is Some && r->0@ == synopsis_line_spec(synopses@[0]),
{
    if synopses.len() == 0 {
        None
    } else {
        Some(synopsis_line(&synopses[0]))
    }
}

/// The lines of the report for `view`.
pub fn render_report(view: &ReportView) -> (r: Vec<String>)
    ensures
        r@.map_values(|l: String| l@) == report_lines(*view),
{
    let mut lines: Vec<String> = Vec::new();
    lines.push(joined("Weather for ", view.city.as_str()));
    lines.push(joined("Forecast date: ", view.forecast_time.as_str()));
    match category_line(&view.synopses) {
        Some(line) => lines.push(line),
        None => {},
    }
    let mut current = joined("Current temp: ", view.temperature.as_str());
    current.append("°C");
    lines.push(current);
    let mut felt = joined("Feels like: ", view.feels_like.as_str());
    felt.append("°C");
    lines.push(felt);
    assert(lines@.map_values(|l: String| l@) =~= report_lines(*view));
    lines
}

/// The hexadecimal digit of `n`.
fn hex_digit(n: u8) -> (r: &'static str)
    requires
        n < 16,
    ensures
        r@ == hex_text(n),
{
    match n {
        0 => "0",
        1 => "1",
        2 => "2",
        3 => "3",
        4 => "4",
        5 => "5",
        6 => "6",
        7 => "7",
        8 => "8",
        9 => "9",
        10 => "A",
        11 => "B",
        12 => "C",
        13 => "D",
        14 => "E",
        _ => "F",
    }
}

/// Appends `bytes`, each percent-encoded, to `out`.
fn append_percent_bytes(out: &mut String, bytes: &[u8])
    ensures
        final(out)@ == old(out)@ + percent_bytes(bytes@),
{
    let ghost start = out@;
    let mut j: usize = 0;
    while j < bytes.len()
        invariant
            j <= bytes@.len(),
            out@ == start + percent_bytes(bytes@.subrange(0, j as int)),
        decreases bytes@.len() - j,
    {
        let b = bytes[j];
        out.append("%");
        out.append(hex_digit(b / 16));
        out.append(hex_digit(b % 16));
        assert(bytes@.subrange(0, j + 1).drop_last() =~= bytes@.subrange(0, j as int));
        j = j + 1;
    }
    assert(bytes@.subrange(0, bytes@.len() as int) =~= bytes@);
}

/// `text` encoded as a query value.
pub fn escape_query(text: &str) -> (r: String)
    ensures
        r@ == query_escape(text@),
{
    let mut out = String::new();
    let n = text.unicode_len();
    let mut i: usize = 0;
    while i < n
        invariant
            n == text@.len(),
            i <= n,
            out@ == query_escape(text@.subrange(0, i as int)),
        decreases n - i,
    {
        let c = text.get_char(i);
        let piece = text.substring_char(i, i + 1);
        assert(piece@ =~= seq![c]);
        let code = c as u32;
        if (65 <= code && code <= 90) || (97 <= code && code <= 122) || (48 <= code && code <= 57)
            || c == '-' || c == '.' || c == '_' || c == '~' {
            out.append(piece);
        } else {
            append_percent_bytes(&mut out, piece.as_bytes());
        }
        assert(text@.subrange(0, i + 1).drop_last() =~= text@.subrange(0, i as int));
        i = i + 1;
    }
    assert(text@.subrange(0, n as int) =~= text@);
    out
}

/// The geocoding address for `city`, limited to one match.
pub fn geocoding_url(city: &str, api_key: &str) -> (r: String)
    ensures
        r@ == geocoding_url_spec(city@, api_key@),
{
    let mut url = String::from_str("https://api.openweathermap.org/geo/1.0/direct?q=");
    let escaped = escape_query(city);
    url.append(escaped.as_str());
    url.append("&limit=1&appid=");
    url.append(api_key);
    url
}

/// The weather address for the place at `lon`, `lat` (written in decimal).
pub fn weather_url(lon: &str, lat: &str, api_key: &str) -> (r: String)
    ensures
        r@ == weather_url_spec(lon@, lat@, api_key@),
{
    let mut url = joined("https://api.openweathermap.org/data/2.5/weather?lon=", lon);
    url.append("&lat=");
    url.append(lat);
    url.append("&appid=");
    url.append(api_key);
    url.append("&units=metric");
    url
}

} // verus!
