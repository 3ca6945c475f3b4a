//! Fetch planning: build the page address for a selector and refuse a fully
//! specified (year, month) that lies in the future. The network retrieval
//! itself belongs to the caller; everything it needs is decided here.

use vstd::prelude::*;

use chrono::Datelike;

use crate::ranking::RankingError;

verus! {

/// The character of one decimal digit value.
pub open spec fn digit_char(d: int) -> char
    recommends
        0 <= d < 10,
{
    ((48 + d) as u8) as char
}

/// The decimal digits of a non-negative integer, most significant first.
pub open spec fn dec_digits(n: int) -> Seq<char>
    recommends
        0 <= n,
    decreases n,
{
    if n < 10 {
        seq![digit_char(n)]
    } else {
        dec_digits(n / 10).push(digit_char(n % 10))
    }
}

/// The decimal rendering of an integer: a leading minus sign if negative.
pub open spec fn dec_str(n: int) -> Seq<char> {
    if n < 0 {
        seq!['-'] + dec_digits(-n)
    } else {
        dec_digits(n)
    }
}

/// The page address of the current ranking table.
pub open spec fn default_url_spec() -> Seq<char> {
    "https://www.tiobe.com/tiobe-index/"@
}

/// The page address of the ranking table of a historical (year, month).
pub open spec fn historical_url_spec(year: int, month: int) -> Seq<char> {
    "https://www.tiobe.com/tiobe-index/?page=index&year="@ + dec_str(year) + "&month="@
        + dec_str(month)
}

/// Relies on std's `format!` with the `Display` rendering of `i32`: an
/// integer renders as its decimal digits, with a leading minus sign if
/// negative.
#[verifier::external_body]
fn historical_url(year: i32, month: i32) -> (r: String)
    ensures
        r@ == historical_url_spec(year as int, month as int),
{
    format!("https://www.tiobe.com/tiobe-index/?page=index&year={}&month={}", year, month)
}

fn default_url() -> (r: String)
    ensures
        r@ == default_url_spec(),
{
    "https://www.tiobe.com/tiobe-index/".to_owned()
}

/// Whether a requested (year, month) lies strictly after the current one.
pub open spec fn is_future(year: int, month: int, cur_year: int, cur_month: int) -> bool {
    year > cur_year || (year == cur_year && month > cur_month)
}

/// What the fetch plan decides: a fully specified selector is either
/// rejected as future or yields the historical page address; a partial or
/// empty selector yields the current page address, unvalidated.
pub open spec fn plan_spec(
    year: Option<i32>,
    month: Option<i32>,
    cur_year: i32,
    cur_month: i32,
) -> Result<Seq<char>, RankingError> {
    match (year, month) {
        (Some(y), Some(m)) => if is_future(y as int, m as int, cur_year as int, cur_month as int) {
            Err(RankingError::FutureDateRejected)
        } else {
            Ok(historical_url_spec(y as int, m as int))
        },
        _ => Ok(default_url_spec()),
    }
}

/// Decide the fetch against the given current (year, month): validate a
/// fully specified selector and build the page address to retrieve. A
/// partial or empty selector is treated as a request for the current period.
pub fn plan_request(year: Option<i32>, month: Option<i32>, cur_year: i32, cur_month: i32) -> (r:
    Result<String, RankingError>)
    ensures
        match r {
            Ok(url) => plan_spec(year, month, cur_year, cur_month) == Ok::<
                Seq<char>,
                RankingError,
            >(url@),
            Err(e) => plan_spec(year, month, cur_year, cur_month) == Err::<
                Seq<char>,
                RankingError,
            >(e),
        },
{
    match (year, month) {
        (Some(y), Some(m)) => {
            if y > cur_year || (y == cur_year && m > cur_month) {
                Err(RankingError::FutureDateRejected)
            } else {
                Ok(historical_url(y, m))
            }
        },
        _ => Ok(default_url()),
    }
}

/// Relies on chrono's `Utc::now` and the `Datelike` year and month
/// accessors: the current UTC date; the month always lies in 1..=12.
#[verifier::external_body]
fn current_year_month() -> (r: (i32, i32))
    ensures
        1 <= r.1 <= 12,
{
    let now = chrono::Utc::now();
    (now.year(), now.month() as i32)
}

/// Decide the fetch against the machine's current UTC date. Whatever date
/// the clock reports: a partial or empty selector always yields the current
/// page address, an accepted full selector yields its historical page
/// address, and a rejection only ever names a future full selector.
pub fn plan_request_now(year: Option<i32>, month: Option<i32>) -> (r: Result<
    String,
    RankingError,
>)
    ensures
        match (year, month) {
            (Some(y), Some(m)) => match r {
                Ok(url) => url@ == historical_url_spec(y as int, m as int),
                Err(e) => e == RankingError::FutureDateRejected,
            },
            _ => match r {
                Ok(url) => url@ == default_url_spec(),
                Err(_) => false,
            },
        },
{
    let (cur_year, cur_month) = current_year_month();
    plan_request(year, month, cur_year, cur_month)
}

} // verus!
