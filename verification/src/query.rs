//! The request for the heart-rate samples of the last day.

use vstd::prelude::*;
use crate::instant::{
    date_time_pattern, utc_text, UtcInstant, MIN_SECS, NANOS_PER_SEC, SECS_PER_DAY,
};

verus! {

/// The address of the heart-rate collection, up to and with the name of the
/// parameter that takes the start of the window.
pub open spec fn heart_rate_endpoint() -> Seq<char> {
    "https://api.ouraring.com/v2/usercollection/heartrate?start_datetime="@
}

/// The address that asks for the samples from `start_datetime` on.
pub open spec fn heart_rate_url_text(start_datetime: Seq<char>) -> Seq<char> {
    heart_rate_endpoint() + start_datetime
}

/// The second count of the start of the window that ends at the second
/// `now_secs`: one day less.
pub open spec fn window_start_secs(now_secs: i64) -> int {
    now_secs - SECS_PER_DAY
}

/// The start of the window of samples to ask for: one day before `now`. It
/// lies strictly before `now`. There is none where the calendar does not
/// reach one day back from `now`.
pub fn window_start(now: UtcInstant) -> (r: Option<UtcInstant>)
    ensures
        r is Some <==> window_start_secs(now.spec_secs()) >= MIN_SECS,
        r matches Some(start) ==> {
            &&& start.wf()
            &&& start.spec_secs() == window_start_secs(now.spec_secs())
            &&& start.spec_subsec_nanos() == now.spec_subsec_nanos()
            &&& start@ == now@ - SECS_PER_DAY * NANOS_PER_SEC
            &&& start@ < now@
        },
{
    now.day_before()
}

/// The address that asks for the samples from `start_datetime` on, which is
/// taken as it is given.
pub fn heart_rate_url(start_datetime: &str) -> (r: String)
    ensures
        r@ == heart_rate_url_text(start_datetime@),
{
    let mut r = String::from_str(
        "https://api.ouraring.com/v2/usercollection/heartrate?start_datetime=",
    );
    r.append(start_datetime);
    r
}

/// The address that asks for the samples of the day that ends at `now`: the
/// start of the window, written as date and time of day in UTC. There is
/// none where the window has no start.
pub fn request_url(now: UtcInstant) -> (r: Option<String>)
    ensures
        r is Some <==> window_start_secs(now.spec_secs()) >= MIN_SECS,
        r matches Some(url) ==> url@ == heart_rate_url_text(
            utc_text(
                window_start_secs(now.spec_secs()) as i64,
                now.spec_subsec_nanos(),
                date_time_pattern(),
            ),
        ),
{
    match window_start(now) {
        Some(start) => {
            let text = start.date_time_text();
            Some(heart_rate_url(text.as_str()))
        },
        None => None,
    }
}

} // verus!
