//! Whom a request is counted against. The token buckets themselves, which hold
//! fractional tokens and read the clock, live with the server.
use vstd::prelude::*;

verus! {

/// The key a request is rate-limited under: its `X-Forwarded-For` header, else its
/// `X-Real-IP` header, else `"unknown"`.
pub fn rate_limit_key(forwarded_for: Option<&str>, real_ip: Option<&str>) -> (r: String)
    ensures
        forwarded_for matches Some(f) ==> r@ == f@,
        forwarded_for is None ==> (real_ip matches Some(i) ==> r@ == i@),
        forwarded_for is None && real_ip is None ==> r@ == "unknown"@,
{
    match forwarded_for {
        Some(f) => f.to_owned(),
        None => match real_ip {
            Some(i) => i.to_owned(),
            None => "unknown".to_owned(),
        },
    }
}

} // verus!
