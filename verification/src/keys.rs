//! API keys: the stored record, the lookup answers, and how new keys are made.

use vstd::prelude::*;
use crate::text::{i32_text, int_text};
use rand::Rng;

verus! {

/// An API key as stored: the key, the user it was issued to, and when.
#[derive(Debug)]
pub struct Key {
    pub key: String,
    pub username: String,
    pub added_at: String,
}

pub struct KeyView {
    pub key: Seq<char>,
    pub username: Seq<char>,
    pub added_at: Seq<char>,
}

impl View for Key {
    type V = KeyView;

    open spec fn view(&self) -> KeyView {
        KeyView { key: self.key@, username: self.username@, added_at: self.added_at@ }
    }
}

impl Clone for Key {
    fn clone(&self) -> (c: Key)
        ensures
            c@ == self@,
    {
        Key {
            key: self.key.clone(),
            username: self.username.clone(),
            added_at: self.added_at.clone(),
        }
    }
}

impl PartialEq for Key {
    fn eq(&self, other: &Key) -> (same: bool) {
        self.key == other.key && self.username == other.username && self.added_at == other.added_at
    }
}

impl Eq for Key {
}

impl vstd::std_specs::cmp::PartialEqSpecImpl for Key {
    open spec fn obeys_eq_spec() -> bool {
        true
    }

    open spec fn eq_spec(&self, other: &Key) -> bool {
        self@ == other@
    }
}

/// What the key store answered when asked for a key.
#[derive(Clone, Copy, Debug, PartialEq, Eq)]
pub enum LookupOutcome {
    /// A record with this key exists.
    Found,
    /// No record has this key.
    NotFound,
    /// The store could not be asked.
    Failed,
}

/// An API key presented with a request is accepted only when the store
/// found it; a failed lookup refuses the request.
pub open spec fn key_accepted(outcome: LookupOutcome) -> bool {
    outcome is Found
}

/// A freshly made key counts as taken unless the store said it has no such
/// key; a failed lookup counts as taken.
pub open spec fn key_in_use(outcome: LookupOutcome) -> bool {
    !(outcome is NotFound)
}

/// Whether an API key presented with a request is accepted.
pub fn check_key(outcome: LookupOutcome) -> (accepted: bool)
    ensures
        accepted == key_accepted(outcome),
{
    match outcome {
        LookupOutcome::Found => true,
        _ => false,
    }
}

/// Whether a freshly made key must be discarded as possibly in use.
pub fn key_taken(outcome: LookupOutcome) -> (taken: bool)
    ensures
        taken == key_in_use(outcome),
{
    match outcome {
        LookupOutcome::NotFound => false,
        _ => true,
    }
}

/// Seconds since the Unix epoch at which key time stamps start (2021-01-01).
pub const KEY_EPOCH: i32 = 1609459200;

/// Number of random characters in a key.
pub const KEY_RANDOM_LEN: usize = 20;

/// The time part of a key: the clock's seconds cut to an `i32`, less `KEY_EPOCH`.
pub open spec fn key_time(now_secs: u64) -> int {
    (now_secs as i32) - KEY_EPOCH
}

/// Computes `key_time`; the subtraction must not leave the `i32` range.
pub fn time_component(now_secs: u64) -> (t: i32)
    requires
        key_time(now_secs) >= i32::MIN,
    ensures
        t == key_time(now_secs),
{
    let current: i32 = now_secs as i32;
    current - KEY_EPOCH
}

/// An ASCII letter or decimal digit.
pub open spec fn is_alphanumeric(c: char) -> bool {
    ('A' <= c && c <= 'Z') || ('a' <= c && c <= 'z') || ('0' <= c && c <= '9')
}

/// `len` characters drawn by `rand` 0.8 from the `Alphanumeric` distribution
/// (`thread_rng().sample_iter(&Alphanumeric).take(len)`, each byte taken as a
/// `char`). Every character is one of `A-Z`, `a-z`, `0-9`; which ones is chance.
/// `thread_rng` panics if the operating system cannot seed it; that is not
/// excluded here.
#[verifier::external_body]
fn random_alphanumeric(len: usize) -> (s: String)
    ensures
        s@.len() == len,
        forall|i: int| 0 <= i < len ==> is_alphanumeric(#[trigger] s@[i]),
{
    rand::thread_rng().sample_iter(&rand::distributions::Alphanumeric).take(len).map(
        char::from,
    ).collect()
}

/// The text of a key: `key_<time>_<random>`.
pub open spec fn key_text(time: int, random: Seq<char>) -> Seq<char> {
    "key_"@ + int_text(time) + "_"@ + random
}

/// A key that could have been made at key time `time`: its random part has
/// `KEY_RANDOM_LEN` alphanumeric characters.
pub open spec fn is_key_for(key: Seq<char>, time: int) -> bool {
    exists|random: Seq<char>|
        random.len() == KEY_RANDOM_LEN && (forall|i: int|
            0 <= i < random.len() ==> is_alphanumeric(#[trigger] random[i])) && key == key_text(
            time,
            random,
        )
}

/// Renders a key from its time part and random part.
pub fn format_key(time: i32, random: &str) -> (key: String)
    ensures
        key@ == key_text(time as int, random@),
{
    let mut key = String::from_str("key_");
    key.append(i32_text(time).as_str());
    key.append("_");
    key.append(random);
    key
}

/// Makes a new key candidate for the clock reading `now_secs`.
pub fn key_candidate(now_secs: u64) -> (key: String)
    requires
        key_time(now_secs) >= i32::MIN,
    ensures
        is_key_for(key@, key_time(now_secs)),
{
    let time = time_component(now_secs);
    let random = random_alphanumeric(KEY_RANDOM_LEN);
    let key = format_key(time, random.as_str());
    assert(key@ == key_text(time as int, random@));
    key
}

/// What key generation does after asking the store about a candidate.
#[derive(Debug)]
pub enum KeyGenStep {
    /// The candidate is free: it is the new key.
    Accept(String),
    /// The candidate may be in use: make another one.
    Retry,
}

/// Decides on a candidate key from the store's answer about it.
pub fn generate_key(candidate: String, lookup: LookupOutcome) -> (step: KeyGenStep)
    ensures
        match step {
            KeyGenStep::Accept(k) => !key_in_use(lookup) && k@ == candidate@,
            KeyGenStep::Retry => key_in_use(lookup),
        },
{
    if key_taken(lookup) {
        KeyGenStep::Retry
    } else {
        KeyGenStep::Accept(candidate)
    }
}

/// A decimal digit character.
pub open spec fn is_decimal_char(c: char) -> bool {
    '0' <= c && c <= '9'
}

/// A year as chrono writes it: four digits for years 0 to 9999, otherwise a
/// sign and at least four digits.
pub open spec fn is_year_text(y: Seq<char>) -> bool {
    ||| y.len() == 4 && forall|i: int| 0 <= i < 4 ==> is_decimal_char(#[trigger] y[i])
    ||| y.len() >= 5 && (y[0] == '+' || y[0] == '-') && forall|i: int|
        1 <= i < y.len() ==> is_decimal_char(#[trigger] y[i])
}

/// A date as chrono writes it: `<year>-MM-DD`.
pub open spec fn is_date_text(d: Seq<char>) -> bool {
    &&& d.len() >= 10
    &&& is_year_text(d.subrange(0, d.len() - 6))
    &&& d[d.len() - 6] == '-'
    &&& is_decimal_char(d[d.len() - 5])
    &&& is_decimal_char(d[d.len() - 4])
    &&& d[d.len() - 3] == '-'
    &&& is_decimal_char(d[d.len() - 2])
    &&& is_decimal_char(d[d.len() - 1])
}

/// A time of day as chrono writes it: `HH:MM:SS`, then a fraction of three,
/// six or nine digits when the nanoseconds are not zero.
pub open spec fn is_time_text(t: Seq<char>) -> bool {
    &&& (t.len() == 8 || t.len() == 12 || t.len() == 15 || t.len() == 18)
    &&& t[2] == ':'
    &&& t[5] == ':'
    &&& is_decimal_char(t[0]) && is_decimal_char(t[1])
    &&& is_decimal_char(t[3]) && is_decimal_char(t[4])
    &&& is_decimal_char(t[6]) && is_decimal_char(t[7])
    &&& t.len() > 8 ==> t[8] == '.' && forall|i: int| 9 <= i < t.len() ==> is_decimal_char(#[trigger] t[i])
}

/// A UTC time stamp as chrono's `Display` writes it: `<date> <time> UTC`.
pub open spec fn is_utc_text(s: Seq<char>) -> bool {
    &&& " UTC"@.is_suffix_of(s)
    &&& exists|n: int|
        0 <= n && n + 5 <= s.len() && is_date_text(#[trigger] s.subrange(0, n)) && s[n] == ' '
            && is_time_text(s.subrange(n + 1, s.len() - 4))
}

/// `chrono::Utc::now().to_string()`: the current UTC time as chrono's
/// `Display` writes it, `<date> <time> UTC` (see `is_utc_text`; the date and
/// time layouts are those of `NaiveDate` and `NaiveTime`'s `Debug`). Which
/// instant it shows is the clock's. `Utc::now` panics when the system clock
/// reads before 1970; that is not excluded here.
#[verifier::external_body]
fn utc_now_text() -> (s: String)
    ensures
        s@.len() >= 23,
        is_utc_text(s@),
{
    chrono::Utc::now().to_string()
}

/// The record stored for a newly issued key, stamped with the current UTC time.
pub fn new_key(key: String, username: String) -> (record: Key)
    ensures
        record.key@ == key@,
        record.username@ == username@,
        record.added_at@.len() >= 23,
        is_utc_text(record.added_at@),
{
    Key { key, username, added_at: utc_now_text() }
}

} // verus!
