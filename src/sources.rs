use vstd::prelude::*;

verus! {

/// Relies on `uuid::Uuid::new_v4` and its `Display`: a random identifier,
/// written as 36 characters in hyphenated lower-case hex.
#[verifier::external_body]
pub(crate) fn new_transaction_id() -> (r: String)
    ensures
        r@.len() == 36,
{
    uuid::Uuid::new_v4().to_string()
}

/// Relies on `chrono::Utc::now` and `DateTime::timestamp`: the current time in
/// Unix seconds. Nothing is known of its value.
#[verifier::external_body]
pub(crate) fn current_timestamp() -> (r: i64) {
    chrono::Utc::now().timestamp()
}

/// The calendar date, written `YYYY-MM-DD`, of Unix time `ts` in UTC; `None`
/// where chrono cannot represent the time.
pub uninterp spec fn utc_date_of(ts: i64) -> Option<Seq<char>>;

/// Relies on `chrono::DateTime::from_timestamp` (`None` out of range) and
/// `DateTime::format` with `%Y-%m-%d`: the result depends on `ts` alone.
#[verifier::external_body]
pub(crate) fn utc_date(ts: i64) -> (r: Option<String>)
    ensures
        match r {
            Some(d) => utc_date_of(ts) == Some(d@),
            None => utc_date_of(ts) is None,
        },
{
    match chrono::DateTime::from_timestamp(ts, 0) {
        Some(d) => Some(d.format("%Y-%m-%d").to_string()),
        None => None,
    }
}

} // verus!
