use yazelix_venus::timing::{
    ANIMATION_FRAME_INTERVAL, BLINK_INTERVAL, OrbitRetry, cursor_animation_allowed, update_animation_deadline,
    update_blink,
};

const MILLISECOND: u64 = 1_000_000;
const NOW: u64 = 7_000_000_000;

#[test]
fn cursor_animation_deadline_stops_when_inactive_unfocused_or_occluded() {
    let now = NOW;
    let mut deadline = None;

    assert!(!update_animation_deadline(true, true, &mut deadline, now));
    assert_eq!(deadline, Some(now + ANIMATION_FRAME_INTERVAL));
    assert!(update_animation_deadline(true, true, &mut deadline, now + ANIMATION_FRAME_INTERVAL));
    assert_eq!(deadline, Some(now + ANIMATION_FRAME_INTERVAL * 2));

    for (active, focused, occluded) in [(false, true, false), (true, false, false), (true, true, true)] {
        let allowed = cursor_animation_allowed(focused, occluded);
        assert!(!update_animation_deadline(active, allowed, &mut deadline, now));
        assert_eq!(deadline, None);
    }
}

#[test]
fn blinking_starts_with_a_complete_visible_phase_after_idle() {
    let now = NOW;
    let mut visible = false;
    let mut deadline = Some(now);

    assert!(!update_blink(false, &mut visible, &mut deadline, now));
    assert_eq!((visible, deadline), (true, None));
    assert!(!update_blink(true, &mut visible, &mut deadline, now));
    assert_eq!((visible, deadline), (true, Some(now + BLINK_INTERVAL)));
}

#[test]
fn blinking_flips_only_when_the_deadline_passes() {
    let now = NOW;
    let mut visible = true;
    let mut deadline = Some(now + BLINK_INTERVAL);

    assert!(!update_blink(true, &mut visible, &mut deadline, now + BLINK_INTERVAL - 1));
    assert_eq!((visible, deadline), (true, Some(now + BLINK_INTERVAL)));
    assert!(update_blink(true, &mut visible, &mut deadline, now + BLINK_INTERVAL));
    assert_eq!((visible, deadline), (false, Some(now + 2 * BLINK_INTERVAL)));
}

#[test]
fn orbit_retry_schedule_is_bounded_and_resettable() {
    let now = NOW;
    let mut retry = OrbitRetry::default();

    for delay in [250, 500, 1_000, 2_000, 4_000, 5_000, 5_000] {
        retry.schedule(now);
        assert_eq!(retry.deadline, Some(now + delay * MILLISECOND));
        retry.schedule(now + MILLISECOND);
        assert_eq!(retry.deadline, Some(now + delay * MILLISECOND));
        assert!(!retry.take_due(now + (delay - 1) * MILLISECOND));
        assert!(retry.take_due(now + delay * MILLISECOND));
    }

    retry.schedule(now);
    retry.reset();
    assert_eq!(retry.deadline, None);
    retry.schedule(now);
    assert_eq!(retry.deadline, Some(now + 250 * MILLISECOND));
}
