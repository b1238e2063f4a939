//! Keeping the system awake while music plays.
//!
//! A suspend inhibitor is held while audio is playing and the user enabled the
//! "keep device awake" preference. The session hands out a cookie for each
//! inhibitor it grants (0 meaning refused); the cookie is kept to release it.

use vstd::prelude::*;

verus! {

/// Whether an inhibitor should be held: only while playing, and only when the
/// preference is on.
pub fn should_inhibit(enabled: bool, playing: bool) -> (r: bool)
    ensures
        r == (enabled && playing),
{
    enabled && playing
}

/// What bringing the inhibitor in line with the wanted state takes.
#[derive(Clone, Copy, Debug, PartialEq, Eq, Structural)]
pub enum InhibitStep {
    /// Already as wanted.
    Nothing,
    /// Ask the session for an inhibitor.
    Acquire,
    /// Give back the inhibitor with this cookie.
    Release(u32),
}

/// The step for a held cookie (if any) and the wanted state.
pub open spec fn plan_spec(cookie: Option<u32>, desired: bool) -> InhibitStep {
    if desired == cookie is Some {
        InhibitStep::Nothing
    } else if desired {
        InhibitStep::Acquire
    } else {
        InhibitStep::Release(cookie->0)
    }
}

/// The cookie held after the session answered a request with `cookie`.
pub open spec fn acquired_spec(held: Option<u32>, cookie: u32) -> Option<u32> {
    if cookie != 0 {
        Some(cookie)
    } else {
        held
    }
}

/// The cookie of the inhibitor currently held, if any.
pub struct InhibitorState {
    cookie: Option<u32>,
}

impl View for InhibitorState {
    type V = Option<u32>;

    closed spec fn view(&self) -> Option<u32> {
        self.cookie
    }
}

impl InhibitorState {
    pub fn new() -> (r: InhibitorState)
        ensures
            r@ is None,
    {
        InhibitorState { cookie: None }
    }

    pub fn is_held(&self) -> (r: bool)
        ensures
            r == self@ is Some,
    {
        self.cookie.is_some()
    }

    /// The step towards the wanted state; no step when it already holds, so
    /// an inhibitor is never acquired twice nor released twice.
    pub fn plan(&self, desired: bool) -> (r: InhibitStep)
        ensures
            r == plan_spec(self@, desired),
    {
        let held = self.cookie.is_some();
        if desired == held {
            InhibitStep::Nothing
        } else if desired {
            InhibitStep::Acquire
        } else {
            match self.cookie {
                Some(c) => InhibitStep::Release(c),
                None => InhibitStep::Nothing,
            }
        }
    }

    /// The session answered an acquire request; a zero cookie means refused.
    pub fn on_acquired(&mut self, cookie: u32)
        ensures
            final(self)@ == acquired_spec(old(self)@, cookie),
    {
        if cookie != 0 {
            self.cookie = Some(cookie);
        }
    }

    /// The held inhibitor was given back.
    pub fn on_released(&mut self) -> (r: Option<u32>)
        ensures
            r == old(self)@,
            final(self)@ is None,
    {
        self.cookie.take()
    }
}

/// Once the step for a wanted state has been carried out (and an acquire was
/// granted), planning the same wanted state again asks for nothing.
pub proof fn law_apply_is_idempotent(cookie: Option<u32>, desired: bool, granted: u32)
    requires
        granted != 0,
    ensures
        ({
            let after = match plan_spec(cookie, desired) {
                InhibitStep::Nothing => cookie,
                InhibitStep::Acquire => acquired_spec(cookie, granted),
                InhibitStep::Release(_) => None,
            };
            plan_spec(after, desired) == InhibitStep::Nothing && (after is Some <==> desired)
        }),
{
}

/// A refused request leaves nothing held, so the next planning asks again.
pub proof fn law_refused_request_is_retried(cookie: Option<u32>)
    requires
        cookie is None,
    ensures
        acquired_spec(cookie, 0) is None,
        plan_spec(acquired_spec(cookie, 0), true) == InhibitStep::Acquire,
{
}

} // verus!
