use agent_ui::chatbox::{BlinkEffect, CursorBlinker, TimerRequest};

#[test]
fn new_blinker_is_at_rest() {
    let blinker = CursorBlinker::new();
    assert!(blinker.is_visible());
    assert!(!blinker.is_enabled());
    assert_eq!(blinker.epoch(), 0);
    assert_eq!(blinker.interval_millis(), 530);
}

#[test]
fn enable_hides_the_cursor_and_arms_a_toggle() {
    let mut blinker = CursorBlinker::new();
    let effect = blinker.enable();
    assert_eq!(effect, BlinkEffect { notify: true, timer: TimerRequest::ToggleAfter { epoch: 1 } });
    assert!(blinker.is_enabled());
    assert!(!blinker.is_visible());
    assert_eq!(blinker.epoch(), 1);
}

#[test]
fn enable_twice_does_nothing_the_second_time() {
    let mut blinker = CursorBlinker::new();
    blinker.enable();
    let effect = blinker.enable();
    assert_eq!(effect, BlinkEffect { notify: false, timer: TimerRequest::Keep });
    assert_eq!(blinker.epoch(), 1);
    assert!(!blinker.is_visible());
}

#[test]
fn the_current_timer_toggles_the_cursor() {
    let mut blinker = CursorBlinker::new();
    blinker.enable();
    let effect = blinker.start_blinking(1);
    assert_eq!(effect, BlinkEffect { notify: true, timer: TimerRequest::ToggleAfter { epoch: 2 } });
    assert!(blinker.is_visible());
    let effect = blinker.start_blinking(2);
    assert_eq!(effect, BlinkEffect { notify: true, timer: TimerRequest::ToggleAfter { epoch: 3 } });
    assert!(!blinker.is_visible());
    assert_eq!(blinker.epoch(), 3);
}

#[test]
fn a_stale_timer_is_ignored() {
    let mut blinker = CursorBlinker::new();
    blinker.enable();
    blinker.start_blinking(1);
    let effect = blinker.start_blinking(1);
    assert_eq!(effect, BlinkEffect { notify: false, timer: TimerRequest::Keep });
    assert!(blinker.is_visible());
    assert_eq!(blinker.epoch(), 2);
    let effect = blinker.resume_cursor_blinking(0);
    assert_eq!(effect, BlinkEffect { notify: false, timer: TimerRequest::Keep });
    assert_eq!(blinker.epoch(), 2);
}

#[test]
fn timers_do_nothing_while_disabled() {
    let mut blinker = CursorBlinker::new();
    let effect = blinker.start_blinking(0);
    assert_eq!(effect, BlinkEffect { notify: false, timer: TimerRequest::Keep });
    assert!(blinker.is_visible());
    assert_eq!(blinker.epoch(), 0);
}

#[test]
fn pause_shows_the_cursor_and_arms_a_resume() {
    let mut blinker = CursorBlinker::new();
    blinker.enable();
    let effect = blinker.pause_blinking();
    assert_eq!(effect, BlinkEffect { notify: true, timer: TimerRequest::ResumeAfter { epoch: 2 } });
    assert!(blinker.is_visible());
    assert_eq!(blinker.epoch(), 2);
    let effect = blinker.pause_blinking();
    assert_eq!(effect, BlinkEffect { notify: false, timer: TimerRequest::ResumeAfter { epoch: 3 } });
    let effect = blinker.resume_cursor_blinking(2);
    assert_eq!(effect, BlinkEffect { notify: false, timer: TimerRequest::Keep });
    let effect = blinker.resume_cursor_blinking(3);
    assert_eq!(effect, BlinkEffect { notify: true, timer: TimerRequest::ToggleAfter { epoch: 4 } });
    assert!(!blinker.is_visible());
}

#[test]
fn pause_while_disabled_only_shows_the_cursor() {
    let mut blinker = CursorBlinker::new();
    blinker.disable();
    assert!(!blinker.is_visible());
    let effect = blinker.pause_blinking();
    assert_eq!(effect, BlinkEffect { notify: true, timer: TimerRequest::Keep });
    assert!(blinker.is_visible());
    assert_eq!(blinker.epoch(), 0);
}

#[test]
fn disable_hides_and_releases() {
    let mut blinker = CursorBlinker::new();
    blinker.enable();
    blinker.start_blinking(1);
    let effect = blinker.disable();
    assert_eq!(effect, BlinkEffect { notify: true, timer: TimerRequest::Release });
    assert!(!blinker.is_visible());
    assert!(!blinker.is_enabled());
    assert_eq!(blinker.epoch(), 2);
    let effect = blinker.start_blinking(2);
    assert_eq!(effect, BlinkEffect { notify: false, timer: TimerRequest::Keep });
}

#[test]
fn show_cursor_notifies_only_when_hidden() {
    let mut blinker = CursorBlinker::new();
    assert_eq!(blinker.show_cursor(), BlinkEffect { notify: false, timer: TimerRequest::Keep });
    blinker.disable();
    assert_eq!(blinker.show_cursor(), BlinkEffect { notify: true, timer: TimerRequest::Keep });
    assert!(blinker.is_visible());
}

#[test]
fn next_epoch_counts_up() {
    let mut blinker = CursorBlinker::new();
    assert_eq!(blinker.next_blink_epoch(), 1);
    assert_eq!(blinker.next_blink_epoch(), 2);
    assert_eq!(blinker.epoch(), 2);
}

#[test]
fn can_advance_while_there_is_room() {
    let mut blinker = CursorBlinker::new();
    assert!(blinker.can_advance(usize::MAX));
    blinker.enable();
    assert!(blinker.can_advance(2));
    assert!(blinker.can_advance(usize::MAX - 1));
    assert!(!blinker.can_advance(usize::MAX));
}

#[test]
fn effects_combine() {
    let first = BlinkEffect { notify: true, timer: TimerRequest::ResumeAfter { epoch: 4 } };
    let second = BlinkEffect { notify: false, timer: TimerRequest::Keep };
    assert_eq!(first.and_then(second), first);
    let third = BlinkEffect { notify: false, timer: TimerRequest::ResumeAfter { epoch: 5 } };
    assert_eq!(
        first.and_then(third),
        BlinkEffect { notify: true, timer: TimerRequest::ResumeAfter { epoch: 5 } }
    );
    assert_eq!(BlinkEffect::none(), second);
}
