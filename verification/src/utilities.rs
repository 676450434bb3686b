//! Amounts of money, the clock, and the identity that a request carries.

use crate::headers::{lemma_field_names_are_lower_case, Headers, USER_ID};
use crate::text::{append_decimal, decimal, parse_i32, parse_i32_text};
use std::time::{Duration, SystemTime, UNIX_EPOCH};
use vstd::prelude::*;
use vstd::string::*;

verus! {

/// An amount in pounds as a form delivers it: the whole pounds below the
/// amount, and the pence that the rest rounds to.
#[derive(Clone, Copy, Debug, PartialEq, Eq)]
pub struct Price {
    pub pounds: i64,
    pub pence: i64,
}

/// How an amount is written: the pound sign, the pounds, a point, and the
/// pence in two digits.
pub open spec fn currency_text(pounds: int, pence: int) -> Seq<char> {
    if pence == 0 {
        "£"@ + decimal(pounds) + ".00"@
    } else if pence < 10 {
        "£"@ + decimal(pounds) + ".0"@ + decimal(pence)
    } else {
        "£"@ + decimal(pounds) + "."@ + decimal(pence)
    }
}

/// Writes an amount in pounds and pence.
pub fn format_currency(currency: Price) -> (text: String)
    ensures
        text@ == currency_text(currency.pounds as int, currency.pence as int),
{
    let mut text = "£".to_owned();
    append_decimal(&mut text, currency.pounds);
    if currency.pence == 0 {
        text.append(".00");
    } else if currency.pence < 10 {
        text.append(".0");
        append_decimal(&mut text, currency.pence);
    } else {
        text.append(".");
        append_decimal(&mut text, currency.pence);
    }
    text
}

/// `std::time::SystemTime`, a reading of the system clock. Its value is
/// not looked into.
#[verifier::external_type_specification]
#[verifier::external_body]
pub struct ExSystemTime(SystemTime);

/// `SystemTime::now`: what the system clock shows. Nothing is claimed of
/// it.
#[verifier::external_body]
pub(crate) fn system_now() -> SystemTime {
    SystemTime::now()
}

/// `SystemTime::duration_since` the Unix epoch: the time from the epoch to
/// `time`, or nothing if `time` lies before the epoch.
#[verifier::external_body]
pub(crate) fn since_epoch(time: &SystemTime) -> Option<Duration> {
    time.duration_since(UNIX_EPOCH).ok()
}

/// `Duration::as_secs`: the whole seconds of `elapsed`.
#[verifier::external_body]
pub(crate) fn whole_seconds(elapsed: &Duration) -> u64 {
    elapsed.as_secs()
}

/// The timestamp for a number of seconds since the epoch, if there is one.
pub open spec fn timestamp_for(elapsed: Option<u64>) -> Option<i64> {
    match elapsed {
        Some(seconds) => if seconds <= i64::MAX {
            Some(seconds as i64)
        } else {
            None
        },
        None => None,
    }
}

/// The timestamp for a number of seconds since the epoch: none for a clock
/// that stands before the epoch, and none beyond the range of timestamps.
pub fn timestamp_of(elapsed: Option<u64>) -> (timestamp: Option<i64>)
    ensures
        timestamp == timestamp_for(elapsed),
{
    match elapsed {
        Some(seconds) => if seconds <= 0x7fff_ffff_ffff_ffff {
            Some(seconds as i64)
        } else {
            None
        },
        None => None,
    }
}

/// The seconds since the Unix epoch by the system clock, if the clock
/// stands at or after the epoch.
pub fn get_epoch_time() -> (now: Option<i64>)
    ensures
        now is Some ==> now->0 >= 0,
{
    let time = system_now();
    let elapsed = match since_epoch(&time) {
        Some(elapsed) => Some(whole_seconds(&elapsed)),
        None => None,
    };
    timestamp_of(elapsed)
}

/// The user id that the headers of an authenticated request carry.
pub open spec fn header_user_id(headers: Map<Seq<char>, Seq<char>>) -> Option<i32> {
    if headers.contains_key(USER_ID@) {
        parse_i32_text(headers[USER_ID@])
    } else {
        None
    }
}

/// The user id that the headers carry, if they carry one.
pub fn find_user_id(headers: &Headers) -> (user_id: Option<i32>)
    ensures
        user_id == header_user_id(headers@),
{
    proof {
        lemma_field_names_are_lower_case();
    }
    match headers.get(USER_ID) {
        Some(value) => parse_i32(value.as_str()),
        None => None,
    }
}

/// The user id that the headers of an authenticated request carry.
pub fn get_user_id_from_header(headers: &Headers) -> (user_id: i32)
    requires
        header_user_id(headers@) is Some,
    ensures
        Some(user_id) == header_user_id(headers@),
{
    find_user_id(headers).unwrap()
}

} // verus!
