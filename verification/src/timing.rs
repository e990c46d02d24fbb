//! Wake-up deadlines for cursor blinking, cursor animation and Orbit reconnects.
//!
//! Moments are monotonic nanosecond counts from an epoch the caller chooses; every
//! delay is a nanosecond count.

use vstd::prelude::*;

verus! {

/// Half period of blinking terminal content.
pub const BLINK_INTERVAL: u64 = 500_000_000;
/// Frame interval while the cursor animation runs.
pub const ANIMATION_FRAME_INTERVAL: u64 = 16_000_000;
/// First delay before reconnecting to Orbit.
pub const INITIAL_RETRY_DELAY: u64 = 250_000_000;
/// Upper bound of the reconnect delay.
pub const MAX_RETRY_DELAY: u64 = 5_000_000_000;

/// Advance the blink phase. Returns whether the visible phase flipped.
///
/// Without blinking content the content is visible and no deadline stands; blinking
/// content first gets a full visible phase, then flips on each elapsed deadline.
pub fn update_blink(blinking: bool, visible: &mut bool, deadline: &mut Option<u64>, now: u64) -> (flipped: bool)
    requires
        blinking ==> now + BLINK_INTERVAL <= u64::MAX,
    ensures
        !blinking ==> !flipped && *final(visible) && *final(deadline) == None::<u64>,
        blinking && *old(deadline) is None ==> !flipped && *final(visible) == *old(visible)
            && *final(deadline) == Some((now + BLINK_INTERVAL) as u64),
        blinking && (*old(deadline) matches Some(next) && now >= next) ==> flipped
            && *final(visible) == !*old(visible) && *final(deadline) == Some((now + BLINK_INTERVAL) as u64),
        blinking && (*old(deadline) matches Some(next) && now < next) ==> !flipped
            && *final(visible) == *old(visible) && *final(deadline) == *old(deadline),
{
    if !blinking {
        *visible = true;
        *deadline = None;
    } else if deadline.is_none() {
        *deadline = Some(now + BLINK_INTERVAL);
    } else if let Some(next) = *deadline {
        if now >= next {
            *visible = !*visible;
            *deadline = Some(now + BLINK_INTERVAL);
            return true;
        }
    }
    false
}

/// The cursor animation only runs in a focused, visible window.
pub fn cursor_animation_allowed(focused: bool, occluded: bool) -> (allowed: bool)
    ensures
        allowed == (focused && !occluded),
{
    focused && !occluded
}

/// Advance the animation deadline. Returns whether a frame is due now.
pub fn update_animation_deadline(active: bool, allowed: bool, deadline: &mut Option<u64>, now: u64) -> (due: bool)
    requires
        active && allowed ==> now + ANIMATION_FRAME_INTERVAL <= u64::MAX,
    ensures
        !(active && allowed) ==> !due && *final(deadline) == None::<u64>,
        active && allowed && *old(deadline) is None ==> !due
            && *final(deadline) == Some((now + ANIMATION_FRAME_INTERVAL) as u64),
        active && allowed && (*old(deadline) matches Some(next) && now >= next) ==> due
            && *final(deadline) == Some((now + ANIMATION_FRAME_INTERVAL) as u64),
        active && allowed && (*old(deadline) matches Some(next) && now < next) ==> !due
            && *final(deadline) == *old(deadline),
{
    if !active || !allowed {
        *deadline = None;
    } else if deadline.is_none() {
        *deadline = Some(now + ANIMATION_FRAME_INTERVAL);
    } else if let Some(next) = *deadline {
        if now >= next {
            *deadline = Some(now + ANIMATION_FRAME_INTERVAL);
            return true;
        }
    }
    false
}

/// The reconnect delay that follows `delay`: doubled, at most [`MAX_RETRY_DELAY`].
pub open spec fn next_retry_delay(delay: u64) -> u64 {
    if delay >= MAX_RETRY_DELAY / 2 { MAX_RETRY_DELAY } else { (2 * delay) as u64 }
}

/// The delay scheduled by the `k`-th reconnect after a reset.
pub open spec fn retry_delay_after(k: nat) -> u64
    decreases k,
{
    if k == 0 { INITIAL_RETRY_DELAY } else { next_retry_delay(retry_delay_after((k - 1) as nat)) }
}

/// Bounded exponential reconnect schedule for one Orbit attachment.
#[derive(Debug)]
pub struct OrbitRetry {
    pub deadline: Option<u64>,
    pub next_delay: u64,
}

impl Default for OrbitRetry {
    fn default() -> (retry: Self)
        ensures
            retry.deadline is None,
            retry.next_delay == INITIAL_RETRY_DELAY,
    {
        OrbitRetry { deadline: None, next_delay: INITIAL_RETRY_DELAY }
    }
}

impl OrbitRetry {
    /// Valid schedules keep a positive delay no larger than the cap.
    pub open spec fn wf(&self) -> bool {
        0 < self.next_delay <= MAX_RETRY_DELAY
    }

    /// Schedule a reconnect unless one is already pending.
    pub fn schedule(&mut self, now: u64)
        requires
            old(self).deadline is None ==> now + old(self).next_delay <= u64::MAX,
        ensures
            old(self).deadline is Some ==> *final(self) == *old(self),
            old(self).deadline is None ==> final(self).deadline == Some((now + old(self).next_delay) as u64)
                && final(self).next_delay == next_retry_delay(old(self).next_delay),
            old(self).wf() ==> final(self).wf(),
    {
        if self.deadline.is_none() {
            self.deadline = Some(now + self.next_delay);
            self.next_delay = if self.next_delay >= MAX_RETRY_DELAY / 2 {
                MAX_RETRY_DELAY
            } else {
                self.next_delay * 2
            };
        }
    }

    /// Consume a reconnect whose deadline has passed.
    pub fn take_due(&mut self, now: u64) -> (due: bool)
        ensures
            due == (old(self).deadline matches Some(deadline) && now >= deadline),
            due ==> final(self).deadline is None,
            !due ==> final(self).deadline == old(self).deadline,
            final(self).next_delay == old(self).next_delay,
    {
        if let Some(deadline) = self.deadline {
            if now >= deadline {
                self.deadline = None;
                return true;
            }
        }
        false
    }

    /// Forget the pending reconnect and restart the delay sequence.
    pub fn reset(&mut self)
        ensures
            final(self).deadline is None,
            final(self).next_delay == INITIAL_RETRY_DELAY,
    {
        self.deadline = None;
        self.next_delay = INITIAL_RETRY_DELAY;
    }
}

/// Law: the `k`-th reconnect after a reset waits 250 ms doubled `k` times, capped at
/// five seconds; the delays never exceed the cap.
pub proof fn lemma_retry_delay_is_capped_doubling(k: nat)
    ensures
        retry_delay_after(k) == (if k >= 5 { MAX_RETRY_DELAY } else {
            (INITIAL_RETRY_DELAY * vstd::arithmetic::power2::pow2(k)) as u64
        }),
        0 < retry_delay_after(k) <= MAX_RETRY_DELAY,
    decreases k,
{
    vstd::arithmetic::power2::lemma2_to64();
    if k > 0 {
        lemma_retry_delay_is_capped_doubling((k - 1) as nat);
        if k > 5 {
        } else {
            vstd::arithmetic::power2::lemma_pow2_unfold(k);
        }
    }
}

} // verus!
