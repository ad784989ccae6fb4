//! The few calls into outside crates, each with the contract the library
//! relies on.

use vstd::prelude::*;
use crate::text::{no_percent, opt_view};

verus! {

/// Largest value the wall clock can report, in seconds since the Unix epoch
/// (chrono's dates stop in the year 262142).
pub const MAX_TIMESTAMP: i64 = 10_000_000_000_000;

/// Relies on chrono::Utc::now and DateTime::timestamp: the current time in
/// whole seconds since the Unix epoch. chrono refuses (panics on) a clock set
/// before the epoch, and its dates end in the year 262142.
#[verifier::external_body]
pub(crate) fn now_seconds() -> (t: i64)
    ensures
        0 <= t <= MAX_TIMESTAMP,
{
    chrono::Utc::now().timestamp()
}

/// Relies on rand::Rng::gen_range over thread_rng: a value drawn from the
/// half-open range `lo..hi`, which must not be empty.
#[verifier::external_body]
pub(crate) fn random_in_range(lo: u16, hi: u16) -> (r: u16)
    requires
        lo < hi,
    ensures
        lo <= r < hi,
{
    rand::Rng::gen_range(&mut rand::thread_rng(), lo..hi)
}

/// What urlencoding::decode yields for a text: the percent-decoded text, or
/// nothing where the decoded bytes are not UTF-8.
pub uninterp spec fn percent_decoded(s: Seq<char>) -> Option<Seq<char>>;

/// Relies on urlencoding::decode: `%xx` escapes are decoded and the result
/// read as UTF-8; a text with no `%` comes back as it is.
#[verifier::external_body]
pub(crate) fn percent_decode(s: &str) -> (r: Option<String>)
    ensures
        opt_view(r) == percent_decoded(s@),
        no_percent(s@) ==> opt_view(r) == Some(s@),
{
    match urlencoding::decode(s) {
        Ok(d) => Some(d.into_owned()),
        Err(_) => None,
    }
}

} // verus!
