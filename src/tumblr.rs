use vstd::prelude::*;

verus! {

/// The application's credentials for the Tumblr API.
pub struct TumblrApiConfig {
    pub client_id: String,
    pub client_secret: String,
}

/// A moment in UTC: whole seconds since the Unix epoch and nanoseconds into
/// that second (below a billion, but for a leap second).
pub struct UtcTime {
    pub secs: i64,
    pub nanos: u32,
}

pub const NANOS_PER_SEC: u32 = 1_000_000_000;

/// `time` moved `secs` seconds on.
pub open spec fn plus_seconds(time: UtcTime, secs: u64) -> (int, int) {
    (time.secs + secs, time.nanos as int)
}

/// Relies on chrono: DateTime::from_timestamp, TimeDelta::from_std and
/// DateTime::checked_add_signed, which adds whole seconds to a moment that is
/// not a leap second and keeps its nanoseconds, or gives none out of range.
#[verifier::external_body]
fn add_seconds(time: &UtcTime, secs: u64) -> (r: Option<UtcTime>)
    ensures
        time.nanos < NANOS_PER_SEC && r is Some ==> (r.unwrap().secs as int, r.unwrap().nanos as int)
            == plus_seconds(*time, secs),
{
    let start = chrono::DateTime::from_timestamp(time.secs, time.nanos)?;
    let delta = chrono::TimeDelta::from_std(std::time::Duration::from_secs(secs)).ok()?;
    let end = start.checked_add_signed(delta)?;
    Some(UtcTime { secs: end.timestamp(), nanos: end.timestamp_subsec_nanos() })
}

/// Relies on chrono::Utc::now for the current moment.
#[verifier::external_body]
fn utc_now() -> (r: UtcTime) {
    let now = chrono::Utc::now();
    UtcTime { secs: now.timestamp(), nanos: now.timestamp_subsec_nanos() }
}

/// An access token's lifetime: when it was asked for, and for how many
/// seconds the server said it stays valid.
pub struct TokenInfo {
    pub request_time: UtcTime,
    pub expires_in: Option<u64>,
}

/// The end of a token's lifetime lies outside the range of times.
pub enum TokenError {
    ExpiryOutOfRange,
}

impl TokenInfo {
    /// Whether the token has expired at `now`. A token without a stated
    /// lifetime counts as expired.
    pub fn is_expired_at(&self, now: &UtcTime) -> (r: Result<bool, TokenError>)
        ensures
            self.expires_in is None ==> r == Ok::<bool, TokenError>(true),
            self.expires_in is Some && self.request_time.nanos < NANOS_PER_SEC && r is Ok ==> {
                let end = plus_seconds(self.request_time, self.expires_in.unwrap());
                r->Ok_0 == (now.secs > end.0 || (now.secs == end.0 && now.nanos > end.1))
            },
    {
        match self.expires_in {
            Some(lifetime) => match add_seconds(&self.request_time, lifetime) {
                Some(expires_at) => Ok(
                    now.secs > expires_at.secs || (now.secs == expires_at.secs && now.nanos
                        > expires_at.nanos),
                ),
                None => Err(TokenError::ExpiryOutOfRange),
            },
            None => Ok(true),
        }
    }

    /// Whether the token has expired by now.
    pub fn is_expired(&self) -> (r: Result<bool, TokenError>)
        ensures
            self.expires_in is None ==> r == Ok::<bool, TokenError>(true),
    {
        let now = utc_now();
        self.is_expired_at(&now)
    }
}

} // verus!
