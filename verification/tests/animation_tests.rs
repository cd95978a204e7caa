use iced_button::animation::{
    control_animation, control_ease_out, CONTROL_DURATION_NANOS, PRESS_TRANSLATE, PROGRESS_ONE,
};

const MILLIS: u64 = 1_000_000;

fn ratio(progress: u64) -> f64 {
    progress as f64 / PROGRESS_ONE as f64
}

#[test]
fn control_easing_is_an_ease_out_curve() {
    assert!(ratio(control_ease_out(0, 1)) < 0.001);
    assert!(ratio(control_ease_out(1, 2)) > 0.5);
    assert!((ratio(control_ease_out(1, 1)) - 1.0).abs() < 0.001);
}

#[test]
fn controls_animate_for_the_design_system_duration() {
    let started: u64 = 5_000 * MILLIS;
    let mut animation = control_animation(false);
    animation.go_mut(true, started);

    let middle = ratio(animation.progress(started + 75 * MILLIS));
    assert!(middle > 0.5 && middle < 1.0);
    assert!(animation.is_animating(started + 149 * MILLIS));
    assert!(!animation.is_animating(started + CONTROL_DURATION_NANOS));
    assert_eq!(f32::from_bits(PRESS_TRANSLATE), 1.0);
}

#[test]
fn control_easing_matches_its_exact_values() {
    assert_eq!(control_ease_out(0, 1), 24_574);
    assert_eq!(control_ease_out(1, 2), 447_559_002_850);
    assert_eq!(control_ease_out(1, 1), 549_755_789_314);
    assert_eq!(CONTROL_DURATION_NANOS, 150 * MILLIS);
}

#[test]
fn control_easing_never_goes_back() {
    let mut previous = 0;
    for step in 0..=300u64 {
        let eased = control_ease_out(step, 300);
        assert!(eased >= previous);
        assert!(eased <= PROGRESS_ONE);
        previous = eased;
    }
}

#[test]
fn a_resting_animation_shows_its_value() {
    let off = control_animation(false);
    let on = control_animation(true);
    assert!(!off.value());
    assert!(on.value());
    assert!(!off.is_animating(0));
    assert!(!on.is_animating(10 * MILLIS));
    assert_eq!(off.progress(123), 0);
    assert_eq!(on.progress(123), PROGRESS_ONE);
}

#[test]
fn heading_to_the_same_value_changes_nothing() {
    let mut animation = control_animation(true);
    animation.go_mut(true, 40 * MILLIS);
    assert!(!animation.is_animating(40 * MILLIS));
    assert_eq!(animation.progress(41 * MILLIS), PROGRESS_ONE);
}

#[test]
fn an_interrupted_transition_turns_back_from_where_it_is() {
    let mut animation = control_animation(false);
    animation.go_mut(true, 0);
    let halfway = animation.progress(75 * MILLIS);
    animation.go_mut(false, 75 * MILLIS);
    assert!(!animation.value());
    let turned = animation.progress(75 * MILLIS);
    assert!(turned <= halfway);
    assert!(halfway - turned < PROGRESS_ONE / 1_000_000);
    assert!(animation.progress(100 * MILLIS) < turned);
    assert!(animation.is_animating(224 * MILLIS));
    assert!(!animation.is_animating(225 * MILLIS));
    assert!(ratio(animation.progress(225 * MILLIS)) < 0.001);
}

#[test]
fn a_finished_transition_stays_near_its_value() {
    let mut animation = control_animation(false);
    animation.go_mut(true, 0);
    let done = ratio(animation.progress(CONTROL_DURATION_NANOS));
    assert!(done > 0.999 && done <= 1.0);
    assert_eq!(
        animation.progress(CONTROL_DURATION_NANOS),
        animation.progress(10 * CONTROL_DURATION_NANOS)
    );
    assert!(animation.progress(30 * MILLIS) < animation.progress(60 * MILLIS));
}

#[test]
fn control_easing_stays_at_its_end_past_one() {
    assert_eq!(control_ease_out(3, 2), control_ease_out(1, 1));
    assert_eq!(control_ease_out(u64::MAX, 1), control_ease_out(1, 1));
    assert_eq!(control_ease_out(0, 7), control_ease_out(0, 1));
}
