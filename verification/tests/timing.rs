use lowrez_survival::animation::{Animation, Rect};
use lowrez_survival::stopwatch::{Split, State, StopWatch, Stopwatch};
use lowrez_survival::timer::Timer;
use lowrez_survival::tween::{Easing, Keyframe, Tween};

#[test]
fn timer_is_not_finished_right_after_restart() {
    let mut t = Timer::new(1800, 0);
    assert!(!t.finished(0));
    assert!(t.finished(1800));
    t.restart(5000);
    assert!(!t.finished(5000));
    assert!(!t.finished(6799));
    assert!(t.finished(6800));
    assert!(t.finished(u64::MAX));
}

#[test]
fn timer_value_never_falls_and_stops_at_one() {
    let t = Timer::new(1800, 1000);
    let mut last = 0;
    for now in (0..6000).step_by(7) {
        let v = t.value(now);
        assert!(v >= last);
        assert!(v <= 1000);
        last = v;
    }
    assert_eq!(t.value(1000), 0);
    assert_eq!(t.value(1900), 500);
    assert_eq!(t.value(2799), 999);
    assert_eq!(t.value(2800), 1000);
    assert_eq!(t.value(99999), 1000);
}

#[test]
fn timer_reading_does_not_change_it() {
    let t = Timer::new(700, 40);
    let before = t;
    let _ = t.finished(500);
    let _ = t.value(500);
    let _ = t.elapsed(500);
    assert_eq!(t, before);
}

#[test]
fn timer_of_no_duration_is_finished_at_once() {
    let t = Timer::new(0, 10);
    assert!(t.finished(10));
    assert_eq!(t.value(10), 1000);
}

#[test]
fn timer_counts_a_time_before_its_start_as_its_start() {
    let t = Timer::new(100, 1000);
    assert_eq!(t.elapsed(500), 0);
    assert_eq!(t.elapsed(1250), 250);
    assert!(!t.finished(500));
}

#[test]
fn timer_durations_are_set_in_milliseconds_and_seconds() {
    let mut t = Timer::new_sec(3, 0);
    assert_eq!(t.duration, 3000);
    t.set_duration_millis(250);
    assert_eq!(t.duration, 250);
    t.set_duration(2);
    assert_eq!(t.duration, 2000);
    t.set_duration(u64::MAX);
    assert_eq!(t.duration, u64::MAX);
    assert_eq!(t.start_time, 0);
}

#[test]
fn lap_stopwatch_leaves_suspensions_out() {
    let mut sw = StopWatch::start(0);
    let first = sw.split(1000);
    assert_eq!(first, Split { split: 1000, lap: 1000 });
    sw.suspend(1000);
    sw.resume(3000);
    let second = sw.split(7000);
    assert_eq!(second, Split { split: 5000, lap: 4000 });
}

#[test]
fn lap_stopwatch_stands_still_while_suspended() {
    let mut sw = StopWatch::start(100);
    sw.suspend(600);
    let a = sw.split(5000);
    let b = sw.split(9000);
    assert_eq!(a, Split { split: 500, lap: 500 });
    assert_eq!(a, b);
    assert_eq!(sw.state, State::Stopped { lap_start_time: 100, suspend_time: 600 });
}

#[test]
fn lap_stopwatch_suspend_and_resume_are_idempotent() {
    let mut sw = StopWatch::start(0);
    sw.resume(50);
    assert_eq!(sw, StopWatch::start(0));
    sw.suspend(100);
    let once = sw;
    sw.suspend(200);
    assert_eq!(sw, once);
}

#[test]
fn session_clock_gathers_ticks_while_running() {
    let mut sw = Stopwatch::new();
    sw.tick(16);
    sw.tick(16);
    assert_eq!(sw.elapsed(), 32);
    sw.pause();
    sw.pause();
    assert!(sw.paused());
    sw.tick(1000);
    assert_eq!(sw.elapsed(), 32);
    sw.unpause();
    sw.unpause();
    assert!(!sw.paused());
    sw.tick(8);
    assert_eq!(sw.elapsed(), 40);
    sw.tick(u64::MAX);
    assert_eq!(sw.elapsed(), u64::MAX);
    sw.reset();
    assert_eq!(sw.elapsed(), 0);
}

fn rects(n: i32) -> Vec<Rect> {
    let mut v = Vec::new();
    for i in 0..n {
        v.push(Rect::new(i * 1000, 0, 9000, 9000));
    }
    v
}

#[test]
fn animation_walks_through_its_frames() {
    let mut a = Animation::strip(rects(4), 200, true);
    assert_eq!(a.get_animation_source(100), Some(Rect::new(0, 0, 9000, 9000)));
    assert_eq!(a.current_frame, 0);
    assert_eq!(a.anim_duration, 100);
    assert_eq!(a.get_animation_source(100), Some(Rect::new(1000, 0, 9000, 9000)));
    assert_eq!(a.anim_duration, 0);
    assert_eq!(a.get_animation_source(450), Some(Rect::new(3000, 0, 9000, 9000)));
    assert_eq!(a.current_frame, 3);
    assert_eq!(a.anim_duration, 50);
    assert_eq!(a.get_animation_source(150), Some(Rect::new(0, 0, 9000, 9000)));
    assert_eq!(a.current_frame, 0);
}

#[test]
fn animation_that_does_not_repeat_stays_on_its_last_frame() {
    let mut a = Animation::strip(rects(2), 200, false);
    assert_eq!(a.get_animation_source(200), Some(Rect::new(1000, 0, 9000, 9000)));
    assert_eq!(a.current_frame, 1);
    assert_eq!(a.get_animation_source(1000), Some(Rect::new(1000, 0, 9000, 9000)));
    assert_eq!(a.current_frame, 1);
    assert_eq!(a.anim_duration, 200);
    assert!(a.is_animation_finished());
}

#[test]
fn animation_uses_the_time_of_each_frame() {
    let mut a = Animation::strip(rects(3), 100, true);
    a.frame_length = vec![100, 300, 50];
    let _ = a.get_animation_source(100);
    assert_eq!((a.current_frame, a.current_frame_length, a.anim_duration), (1, 300, 0));
    let _ = a.get_animation_source(299);
    assert_eq!((a.current_frame, a.anim_duration), (1, 299));
    let _ = a.get_animation_source(51);
    assert_eq!((a.current_frame, a.current_frame_length, a.anim_duration), (0, 100, 0));
    assert!(!a.is_animation_finished());
}

fn rise() -> Tween {
    Tween::from_keyframes(
        vec![
            Keyframe::new(0, 0, Easing::EaseOut),
            Keyframe::new(5000, 200, Easing::EaseInOut),
        ],
        0,
        5,
        false,
    )
}

#[test]
fn tween_eases_between_its_breakpoints() {
    let mut t = rise();
    assert_eq!(t.value(), 0);
    // half of the first fifth of five seconds: the plain share is one half,
    // the eased one three quarters
    t.update(500);
    assert_eq!(t.share(), 100);
    assert_eq!(t.value(), 3750);
    t.update(500);
    assert_eq!(t.value(), 5000);
    t.update(3999);
    assert_eq!(t.value(), 5000);
    assert!(!t.finished());
    t.update(1);
    assert!(t.finished());
    t.update(1000);
    assert_eq!(t.elapsed, 5000);
}

#[test]
fn tween_ease_in_out_is_slow_at_both_ends() {
    let mut t = Tween::over_millis(
        vec![
            Keyframe::new(0, 0, Easing::EaseInOut),
            Keyframe::new(1000, 1000, Easing::EaseInOut),
        ],
        1000,
        false,
    );
    t.update(250);
    assert_eq!(t.value(), 125);
    t.update(250);
    assert_eq!(t.value(), 500);
    t.update(250);
    assert_eq!(t.value(), 875);
}

#[test]
fn tween_that_repeats_starts_over() {
    let mut t = Tween::from_keyframes(
        vec![
            Keyframe::new(0, 0, Easing::EaseOut),
            Keyframe::new(4000, 500, Easing::EaseOut),
            Keyframe::new(0, 1000, Easing::EaseOut),
        ],
        0,
        1,
        true,
    );
    t.update(500);
    assert_eq!(t.value(), 4000);
    t.update(250);
    assert_eq!(t.value(), 1000);
    t.update(500);
    assert_eq!(t.elapsed, 250);
    assert!(!t.finished());
    t.restart();
    assert_eq!(t.elapsed, 0);
}

#[test]
fn tween_without_breakpoints_is_zero() {
    let t = Tween::over_millis(Vec::new(), 100, false);
    assert_eq!(t.value(), 0);
}
