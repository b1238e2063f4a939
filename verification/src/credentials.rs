//! Spotify credentials and the account facts checked at login.

use std::time::{SystemTime, UNIX_EPOCH};
use vstd::prelude::*;

verus! {

/// A point in time as whole seconds from the Unix epoch (negative before it)
/// and the nanoseconds after that second.
#[derive(Clone, Copy, Debug, PartialEq, Eq, Structural)]
pub struct Timestamp {
    pub secs: i128,
    pub nanos: u32,
}

/// The point in time in nanoseconds from the Unix epoch.
pub open spec fn total_nanos(t: Timestamp) -> int {
    t.secs * 1_000_000_000 + t.nanos
}

/// Whether `a` is strictly later than `b`.
pub open spec fn later_than(a: Timestamp, b: Timestamp) -> bool {
    a.secs > b.secs || (a.secs == b.secs && a.nanos > b.nanos)
}

/// The system clock's reading as its distance from the Unix epoch: whether it
/// lies before the epoch, then the whole seconds and the remaining
/// nanoseconds of that distance. Wraps `SystemTime::now` (with
/// `duration_since(UNIX_EPOCH)`, whose error carries the distance of a reading
/// before the epoch); nothing is claimed of the reading but that its
/// sub-second part is below one second.
#[verifier::external_body]
fn clock_reading() -> (r: (bool, u64, u32))
    ensures
        r.2 < 1_000_000_000,
{
    match SystemTime::now().duration_since(UNIX_EPOCH) {
        Ok(d) => (false, d.as_secs(), d.subsec_nanos()),
        Err(e) => (true, e.duration().as_secs(), e.duration().subsec_nanos()),
    }
}

impl Timestamp {
    /// The point in time at a distance of `secs` seconds and `nanos`
    /// nanoseconds after the epoch, or before it when `before_epoch`.
    pub fn from_epoch_offset(before_epoch: bool, secs: u64, nanos: u32) -> (r: Timestamp)
        requires
            nanos < 1_000_000_000,
        ensures
            r.nanos < 1_000_000_000,
            total_nanos(r) == if before_epoch {
                -(secs * 1_000_000_000 + nanos)
            } else {
                secs * 1_000_000_000 + nanos
            },
    {
        let s = secs as i128;
        if !before_epoch {
            Timestamp { secs: s, nanos }
        } else if nanos == 0 {
            Timestamp { secs: -s, nanos: 0 }
        } else {
            Timestamp { secs: -s - 1, nanos: 1_000_000_000 - nanos }
        }
    }

    /// The current time.
    pub fn now() -> (r: Timestamp)
        ensures
            r.nanos < 1_000_000_000,
    {
        let (before_epoch, secs, nanos) = clock_reading();
        Timestamp::from_epoch_offset(before_epoch, secs, nanos)
    }

    pub fn is_later_than(&self, other: &Timestamp) -> (r: bool)
        ensures
            r == later_than(*self, *other),
    {
        self.secs > other.secs || (self.secs == other.secs && self.nanos > other.nanos)
    }
}

/// With the sub-second parts below one second, "later than" is the order of
/// the points in time, before the epoch as after it.
pub proof fn law_later_than_is_time_order(a: Timestamp, b: Timestamp)
    requires
        a.nanos < 1_000_000_000,
        b.nanos < 1_000_000_000,
    ensures
        later_than(a, b) <==> total_nanos(a) > total_nanos(b),
{
    if a.secs > b.secs {
        assert(a.secs * 1_000_000_000 >= (b.secs + 1) * 1_000_000_000);
    } else if a.secs < b.secs {
        assert(b.secs * 1_000_000_000 >= (a.secs + 1) * 1_000_000_000);
    }
}

/// An access token, the token that renews it, and when the access token expires.
#[derive(Clone, Debug)]
pub struct Credentials {
    pub access_token: String,
    pub refresh_token: String,
    pub token_expiry_time: Option<Timestamp>,
}

impl View for Credentials {
    type V = (Seq<char>, Seq<char>, Option<Timestamp>);

    open spec fn view(&self) -> (Seq<char>, Seq<char>, Option<Timestamp>) {
        (self.access_token@, self.refresh_token@, self.token_expiry_time)
    }
}

/// A token has expired once the clock is past its expiry time; a token with no
/// known expiry counts as expired.
pub open spec fn expired_at(expiry: Option<Timestamp>, now: Timestamp) -> bool {
    match expiry {
        Some(v) => later_than(now, v),
        None => true,
    }
}

impl Credentials {
    /// An exact copy.
    pub fn duplicate(&self) -> (r: Credentials)
        ensures
            r == *self,
    {
        Credentials {
            access_token: self.access_token.clone(),
            refresh_token: self.refresh_token.clone(),
            token_expiry_time: self.token_expiry_time,
        }
    }

    /// Whether the access token had expired at `now`.
    pub fn token_expired_at(&self, now: Timestamp) -> (r: bool)
        ensures
            r == expired_at(self.token_expiry_time, now),
    {
        match self.token_expiry_time {
            Some(v) => now.is_later_than(&v),
            None => true,
        }
    }

    /// Whether the access token has expired by the system clock (the reading
    /// of the clock is decided at run time; `token_expired_at` gives the
    /// answer for each reading).
    pub fn token_expired(&self) -> (r: bool)
        ensures
            exists|t: Timestamp|
                t.nanos < 1_000_000_000 && r == #[trigger] expired_at(self.token_expiry_time, t),
    {
        let t = Timestamp::now();
        let r = self.token_expired_at(t);
        assert(t.nanos < 1_000_000_000 && r == expired_at(self.token_expiry_time, t));
        r
    }
}

/// The account facts checked at login.
#[derive(Clone, Copy, Debug, PartialEq, Eq, Structural)]
pub struct UserProfileCheck {
    pub is_premium: bool,
    pub explicit_filter_enabled: bool,
    pub explicit_filter_locked: bool,
}

/// Premium unless the profile names another product: an absent product field
/// (apps in development mode do not get it) counts as premium, and playback
/// itself enforces the restriction later.
pub open spec fn premium_spec(product: Option<Seq<char>>) -> bool {
    match product {
        None => true,
        Some(p) => p == "premium"@,
    }
}

/// The check of the user's profile at login, from its `product` field and its
/// explicit content settings (`(filter_enabled, filter_locked)`); absent
/// explicit content settings mean neither.
pub fn check_user_profile(product: Option<&str>, explicit_content: Option<(bool, bool)>) -> (r:
    UserProfileCheck)
    ensures
        r.is_premium == premium_spec(
            match product {
                Some(p) => Some(p@),
                None => None,
            },
        ),
        match explicit_content {
            Some((enabled, locked)) => r.explicit_filter_enabled == enabled
                && r.explicit_filter_locked == locked,
            None => !r.explicit_filter_enabled && !r.explicit_filter_locked,
        },
{
    let is_premium = match product {
        None => true,
        Some(p) => crate::text::str_equals(p, "premium"),
    };
    let (explicit_filter_enabled, explicit_filter_locked) = match explicit_content {
        Some(ec) => ec,
        None => (false, false),
    };
    UserProfileCheck { is_premium, explicit_filter_enabled, explicit_filter_locked }
}

/// Once a token has expired it stays expired: at any later time it is
/// expired too.
pub proof fn law_expired_stays_expired(expiry: Option<Timestamp>, t1: Timestamp, t2: Timestamp)
    requires
        expired_at(expiry, t1),
        later_than(t2, t1),
    ensures
        expired_at(expiry, t2),
{
}

} // verus!
