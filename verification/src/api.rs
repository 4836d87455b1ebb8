//! The decision logic around the analytics API: base-URL normalization and
//! the classification of HTTP response statuses into application errors.

use vstd::prelude::*;
use vstd::string::StrSliceExecFns;
use vstd::string::StringExecFns;

use crate::error::AppError;
use crate::text::dec_digits;
use crate::text::u64_to_string;

verus! {

/// The text without its trailing `/` characters.
pub open spec fn strip_trailing_slashes(s: Seq<char>) -> Seq<char>
    decreases s.len(),
{
    if s.len() > 0 && s.last() == '/' {
        strip_trailing_slashes(s.drop_last())
    } else {
        s
    }
}

/// Removes every trailing `/` from a base URL.
pub fn normalize_base_url(s: &str) -> (r: String)
    ensures
        r@ == strip_trailing_slashes(s@),
{
    let mut end = s.unicode_len();
    proof {
        assert(s@.take(end as int) =~= s@);
    }
    while end > 0 && s.get_char(end - 1) == '/'
        invariant
            0 <= end <= s@.len(),
            s@.len() <= usize::MAX,
            strip_trailing_slashes(s@) == strip_trailing_slashes(s@.take(end as int)),
        decreases end,
    {
        proof {
            assert(s@.take(end as int).last() == s@[end - 1]);
            assert(s@.take(end as int).drop_last() =~= s@.take(end - 1));
        }
        end = end - 1;
    }
    let kept = s.substring_char(0, end);
    proof {
        assert(kept@ =~= s@.take(end as int));
    }
    kept.to_owned()
}

/// The error message for a failed API response with the given status.
pub open spec fn spec_status_error(status: u16, detail: Seq<char>) -> Seq<char> {
    if status == 401 {
        "Authentication token expired or invalid"@
    } else if status == 404 {
        "Resource not found"@
    } else if status == 429 {
        "Rate limit exceeded"@
    } else {
        "API request failed ("@ + dec_digits(status as nat) + "): "@ + detail
    }
}

/// Classifies an API response status: 200 is success; 401, 404 and 429 map to
/// their fixed messages; any other status carries its code and the response
/// text.
pub fn classify_status(status: u16, detail: &str) -> (r: Option<AppError>)
    ensures
        status == 200 <==> r is None,
        r matches Some(e) ==> e matches AppError::Api(m) && m@ == spec_status_error(
            status,
            detail@,
        ),
{
    if status == 200 {
        None
    } else if status == 401 {
        Some(AppError::api("Authentication token expired or invalid"))
    } else if status == 404 {
        Some(AppError::api("Resource not found"))
    } else if status == 429 {
        Some(AppError::api("Rate limit exceeded"))
    } else {
        let mut m = "API request failed (".to_owned();
        let digits = u64_to_string(status as u64);
        m.append(digits.as_str());
        m.append("): ");
        m.append(detail);
        proof {
            assert(m@ =~= spec_status_error(status, detail@));
        }
        Some(AppError::Api(m))
    }
}

/// The ranked-metric fetches a report issues, in order: each metric kind with
/// the number of entries requested for it.
pub fn metric_fetch_plan() -> (r: Vec<(&'static str, u32)>)
    ensures
        r@.len() == 5,
        r@[0].0@ == "url"@ && r@[0].1 == 10,
        r@[1].0@ == "country"@ && r@[1].1 == 10,
        r@[2].0@ == "browser"@ && r@[2].1 == 5,
        r@[3].0@ == "device"@ && r@[3].1 == 5,
        r@[4].0@ == "referrer"@ && r@[4].1 == 5,
{
    let mut r: Vec<(&'static str, u32)> = Vec::new();
    r.push(("url", 10));
    r.push(("country", 10));
    r.push(("browser", 5));
    r.push(("device", 5));
    r.push(("referrer", 5));
    r
}

/// The error message for a rejected authentication attempt.
pub open spec fn spec_auth_failure(status: u16, detail: Seq<char>) -> Seq<char> {
    "Authentication failed ("@ + dec_digits(status as nat) + "): "@ + detail
}

/// The error surfaced when the login endpoint answers with a non-success
/// status: its code and the response text.
pub fn auth_failure_error(status: u16, detail: &str) -> (r: AppError)
    ensures
        r matches AppError::Api(m) && m@ == spec_auth_failure(status, detail@),
{
    let mut m = "Authentication failed (".to_owned();
    let digits = u64_to_string(status as u64);
    m.append(digits.as_str());
    m.append("): ");
    m.append(detail);
    proof {
        assert(m@ =~= spec_auth_failure(status, detail@));
    }
    AppError::Api(m)
}

} // verus!
