//! HTTP vocabulary of the UPnP handlers: the content types and cache policies
//! they may answer with, and the `Date` header value.
//!
//! Serving routes and sending requests is left to the embedding program.
use vstd::prelude::*;

use crate::text::{nat_to_decimal, push_char, push_decimal, push_str, to_owned_string};

verus! {

broadcast use vstd::string::group_string_axioms;

// ---------------------------------------------------------------------------
// Content types and cache policies
// ---------------------------------------------------------------------------

/// MIME content type for UPnP HTTP responses.
pub enum ContentType {
    XmlUtf8,
    JsonUtf8,
    PlainUtf8,
    ImagePng,
    ImageJpeg,
    ImageSvg,
    Custom(String),
}

/// The header value of a content type.
pub open spec fn content_type_text(c: ContentType) -> Seq<char> {
    match c {
        ContentType::XmlUtf8 => "text/xml; charset=\"utf-8\""@,
        ContentType::JsonUtf8 => "application/json; charset=\"utf-8\""@,
        ContentType::PlainUtf8 => "text/plain; charset=utf-8"@,
        ContentType::ImagePng => "image/png"@,
        ContentType::ImageJpeg => "image/jpeg"@,
        ContentType::ImageSvg => "image/svg+xml"@,
        ContentType::Custom(s) => s@,
    }
}

impl ContentType {
    /// The `Content-Type` header value.
    pub fn as_str(&self) -> (r: &str)
        ensures
            r@ == content_type_text(*self),
    {
        match self {
            ContentType::XmlUtf8 => "text/xml; charset=\"utf-8\"",
            ContentType::JsonUtf8 => "application/json; charset=\"utf-8\"",
            ContentType::PlainUtf8 => "text/plain; charset=utf-8",
            ContentType::ImagePng => "image/png",
            ContentType::ImageJpeg => "image/jpeg",
            ContentType::ImageSvg => "image/svg+xml",
            ContentType::Custom(s) => s.as_str(),
        }
    }
}

/// HTTP Cache-Control policy. `Unset` sends no `Cache-Control` header.
pub enum CacheControl {
    MaxAge(u32),
    NoCache,
    NoStore,
    Public,
    Private,
    Unset,
}

/// The header value of a cache policy, if it sends one.
pub open spec fn cache_header_text(c: CacheControl) -> Option<Seq<char>> {
    match c {
        CacheControl::MaxAge(n) => Some("max-age="@ + nat_to_decimal(n as nat)),
        CacheControl::NoCache => Some("no-cache"@),
        CacheControl::NoStore => Some("no-store"@),
        CacheControl::Public => Some("public"@),
        CacheControl::Private => Some("private"@),
        CacheControl::Unset => None,
    }
}

impl CacheControl {
    /// The `Cache-Control` header value, or `None` for `Unset`.
    pub fn as_header(&self) -> (r: Option<String>)
        ensures
            r.is_some() == cache_header_text(*self).is_some(),
            r.is_some() ==> r.unwrap()@ == cache_header_text(*self).unwrap(),
    {
        match self {
            CacheControl::MaxAge(n) => {
                let mut s = to_owned_string("max-age=");
                push_decimal(&mut s, *n as u64);
                Some(s)
            },
            CacheControl::NoCache => Some(to_owned_string("no-cache")),
            CacheControl::NoStore => Some(to_owned_string("no-store")),
            CacheControl::Public => Some(to_owned_string("public")),
            CacheControl::Private => Some(to_owned_string("private")),
            CacheControl::Unset => None,
        }
    }
}

// ---------------------------------------------------------------------------
// Date header
// ---------------------------------------------------------------------------

/// `SystemTime::now().duration_since(UNIX_EPOCH)` in whole seconds, or `None`
/// when the clock reads earlier than the epoch.
#[verifier::external_body]
fn unix_time_secs() -> Option<u64> {
    std::time::SystemTime::now().duration_since(std::time::SystemTime::UNIX_EPOCH).ok().map(
        |d| d.as_secs(),
    )
}

/// `n` in decimal, padded with a leading zero to at least two digits.
pub open spec fn two_digits(n: nat) -> Seq<char> {
    if n < 10 {
        seq!['0'] + nat_to_decimal(n)
    } else {
        nat_to_decimal(n)
    }
}

/// The three-letter name of day `i` of the week, Sunday being 0.
pub open spec fn weekday_name(i: int) -> Seq<char> {
    if i == 0 {
        "Sun"@
    } else if i == 1 {
        "Mon"@
    } else if i == 2 {
        "Tue"@
    } else if i == 3 {
        "Wed"@
    } else if i == 4 {
        "Thu"@
    } else if i == 5 {
        "Fri"@
    } else {
        "Sat"@
    }
}

/// The three-letter name of month `m`, January being 1.
pub open spec fn month_name(m: int) -> Seq<char> {
    if m == 1 {
        "Jan"@
    } else if m == 2 {
        "Feb"@
    } else if m == 3 {
        "Mar"@
    } else if m == 4 {
        "Apr"@
    } else if m == 5 {
        "May"@
    } else if m == 6 {
        "Jun"@
    } else if m == 7 {
        "Jul"@
    } else if m == 8 {
        "Aug"@
    } else if m == 9 {
        "Sep"@
    } else if m == 10 {
        "Oct"@
    } else if m == 11 {
        "Nov"@
    } else {
        "Dec"@
    }
}

/// The proleptic Gregorian date (year, month, day) of the day `days` days
/// after 1970-01-01, counted in 400-year eras of 146097 days that begin on
/// March 1st.
pub open spec fn civil_from_days(days: nat) -> (nat, nat, nat) {
    let z = days + 719468;
    let era = z / 146097;
    let doe = z % 146097;
    let yoe = (doe - doe / 1460 + doe / 36524 - doe / 146096) / 365;
    let doy = doe - (365 * yoe + yoe / 4 - yoe / 100);
    let mp = (5 * doy + 2) / 153;
    let d = doy - (153 * mp + 2) / 5 + 1;
    let m = if mp < 10 { mp + 3 } else { mp - 9 };
    let y = yoe + era * 400 + if m <= 2 { 1int } else { 0int };
    (y as nat, m as nat, d as nat)
}

/// The RFC 7231 IMF-fixdate for `t` seconds after the epoch, such as
/// `Sun, 06 Nov 1994 08:49:37 GMT`.
pub open spec fn imf_fixdate(t: nat) -> Seq<char> {
    let days = t / 86400;
    let of_day = t % 86400;
    let ymd = civil_from_days(days);
    weekday_name(((days + 4) % 7) as int) + ", "@ + two_digits(ymd.2) + seq![' '] + month_name(ymd.1 as int) + seq![' ']
        + nat_to_decimal(ymd.0) + seq![' '] + two_digits((of_day / 3600) as nat) + seq![':'] + two_digits(
        ((of_day % 3600) / 60) as nat,
    ) + seq![':'] + two_digits((of_day % 60) as nat) + " GMT"@
}

/// The `Date` value for `secs` seconds after the epoch; with no reading of the
/// clock (one earlier than the epoch), the date of the epoch itself.
pub open spec fn date_text(secs: Option<u64>) -> Seq<char> {
    match secs {
        Some(t) => imf_fixdate(t as nat),
        None => imf_fixdate(0),
    }
}

fn push_two_digits(s: &mut String, n: u64)
    ensures
        final(s)@ == old(s)@ + two_digits(n as nat),
{
    if n < 10 {
        push_char(s, '0');
    }
    push_decimal(s, n);
    assert(final(s)@ =~= old(s)@ + two_digits(n as nat));
}

fn weekday_str(i: u64) -> (r: &'static str)
    ensures
        r@ == weekday_name(i as int),
{
    proof {
        reveal_strlit("Sun");
        reveal_strlit("Mon");
        reveal_strlit("Tue");
        reveal_strlit("Wed");
        reveal_strlit("Thu");
        reveal_strlit("Fri");
        reveal_strlit("Sat");
    }
    if i == 0 {
        "Sun"
    } else if i == 1 {
        "Mon"
    } else if i == 2 {
        "Tue"
    } else if i == 3 {
        "Wed"
    } else if i == 4 {
        "Thu"
    } else if i == 5 {
        "Fri"
    } else {
        "Sat"
    }
}

fn month_str(m: u64) -> (r: &'static str)
    ensures
        r@ == month_name(m as int),
{
    proof {
        reveal_strlit("Jan");
        reveal_strlit("Feb");
        reveal_strlit("Mar");
        reveal_strlit("Apr");
        reveal_strlit("May");
        reveal_strlit("Jun");
        reveal_strlit("Jul");
        reveal_strlit("Aug");
        reveal_strlit("Sep");
        reveal_strlit("Oct");
        reveal_strlit("Nov");
        reveal_strlit("Dec");
    }
    if m == 1 {
        "Jan"
    } else if m == 2 {
        "Feb"
    } else if m == 3 {
        "Mar"
    } else if m == 4 {
        "Apr"
    } else if m == 5 {
        "May"
    } else if m == 6 {
        "Jun"
    } else if m == 7 {
        "Jul"
    } else if m == 8 {
        "Aug"
    } else if m == 9 {
        "Sep"
    } else if m == 10 {
        "Oct"
    } else if m == 11 {
        "Nov"
    } else {
        "Dec"
    }
}

/// Within one 400-year era, the year, the day of the year and the month
/// (counted from March) stay in their ranges.
proof fn lemma_era_ranges(doe: int)
    requires
        0 <= doe < 146097,
    ensures
        ({
            let yoe = (doe - doe / 1460 + doe / 36524 - doe / 146096) / 365;
            let doy = doe - (365 * yoe + yoe / 4 - yoe / 100);
            let mp = (5 * doy + 2) / 153;
            let d = doy - (153 * mp + 2) / 5 + 1;
            &&& 0 <= yoe < 400
            &&& 0 <= doy < 366
            &&& 0 <= mp < 12
            &&& 1 <= d <= 31
        }),
{
}

/// The calendar date of day `days` after the epoch.
fn civil_date(days: u64) -> (r: (u64, u64, u64))
    requires
        days <= u64::MAX / 86400,
    ensures
        (r.0 as nat, r.1 as nat, r.2 as nat) == civil_from_days(days as nat),
{
    let z = days + 719468;
    let era = z / 146097;
    let doe = z % 146097;
    proof {
        lemma_era_ranges(doe as int);
    }
    let yoe = (doe - doe / 1460 + doe / 36524 - doe / 146096) / 365;
    let doy = doe - (365 * yoe + yoe / 4 - yoe / 100);
    let mp = (5 * doy + 2) / 153;
    let d = doy - (153 * mp + 2) / 5 + 1;
    let m = if mp < 10 { mp + 3 } else { mp - 9 };
    let y = yoe + era * 400 + if m <= 2 { 1 } else { 0 };
    (y, m, d)
}

/// The `Date` header value for a reading of the clock in seconds since the
/// epoch, or for no reading.
pub fn date_header_from(secs: Option<u64>) -> (r: String)
    ensures
        r@ == date_text(secs),
{
    let t: u64 = match secs {
        Some(t) => t,
        None => 0,
    };
    let days = t / 86400;
    let of_day = t % 86400;
    let ymd = civil_date(days);
    let mut s = String::new();
    push_str(&mut s, weekday_str((days + 4) % 7));
    push_str(&mut s, ", ");
    push_two_digits(&mut s, ymd.2);
    push_char(&mut s, ' ');
    push_str(&mut s, month_str(ymd.1));
    push_char(&mut s, ' ');
    push_decimal(&mut s, ymd.0);
    push_char(&mut s, ' ');
    push_two_digits(&mut s, of_day / 3600);
    push_char(&mut s, ':');
    push_two_digits(&mut s, (of_day % 3600) / 60);
    push_char(&mut s, ':');
    push_two_digits(&mut s, of_day % 60);
    push_str(&mut s, " GMT");
    proof {
        reveal_strlit(", ");
        reveal_strlit(" GMT");
    }
    assert(s@ =~= date_text(secs));
    s
}

/// Generate a UPnP `Date` header value from the system clock.
pub fn date_header() -> (r: String)
    ensures
        exists|secs: Option<u64>| r@ == #[trigger] date_text(secs),
{
    let secs = unix_time_secs();
    let r = date_header_from(secs);
    assert(r@ == date_text(secs));
    r
}

} // verus!
