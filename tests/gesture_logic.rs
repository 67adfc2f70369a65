use apds9960::{
    accept_sample, classify, decide, gesture_from_samples, ratio, rotate, tri_state, Gesture,
    Sample,
};

fn sample(up: u8, down: u8, left: u8, right: u8) -> Sample {
    Sample { up, down, left, right }
}

const ROTATIONS: [u16; 4] = [0, 90, 180, 270];
const DIRECTIONS: [Gesture; 4] = [Gesture::Up, Gesture::Right, Gesture::Down, Gesture::Left];

#[test]
fn rotation_composes_over_all_valid_rotations() {
    for g in DIRECTIONS {
        for r1 in ROTATIONS {
            for r2 in ROTATIONS {
                assert_eq!(rotate(rotate(g, r1), r2), rotate(g, (r1 + r2) % 360));
            }
        }
    }
}

#[test]
fn rotation_steps_through_the_cycle() {
    assert_eq!(rotate(Gesture::Up, 0), Gesture::Up);
    assert_eq!(rotate(Gesture::Up, 90), Gesture::Right);
    assert_eq!(rotate(Gesture::Up, 180), Gesture::Down);
    assert_eq!(rotate(Gesture::Up, 270), Gesture::Left);
    assert_eq!(rotate(Gesture::Left, 90), Gesture::Up);
    assert_eq!(rotate(Gesture::Down, 270), Gesture::Right);
}

#[test]
fn no_gesture_is_fixed_by_rotation() {
    for r in ROTATIONS {
        assert_eq!(rotate(Gesture::NoGesture, r), Gesture::NoGesture);
    }
}

#[test]
fn filter_rejects_low_zero_and_saturated_samples() {
    assert!(!accept_sample(sample(29, 100, 100, 100)));
    assert!(!accept_sample(sample(100, 29, 100, 100)));
    assert!(!accept_sample(sample(100, 100, 29, 100)));
    assert!(!accept_sample(sample(100, 100, 100, 29)));
    assert!(!accept_sample(sample(0, 0, 0, 0)));
    assert!(!accept_sample(sample(255, 255, 255, 255)));
}

#[test]
fn filter_accepts_samples_at_the_floor() {
    assert!(accept_sample(sample(30, 30, 30, 30)));
    assert!(accept_sample(sample(255, 255, 255, 254)));
}

#[test]
fn ratio_exact_values() {
    assert_eq!(ratio(100, 30), 53);
    assert_eq!(ratio(30, 100), -53);
    assert_eq!(ratio(60, 60), 0);
    assert_eq!(ratio(255, 30), 78);
    assert_eq!(ratio(30, 255), -78);
    assert_eq!(ratio(255, 0), 100);
    assert_eq!(ratio(0, 255), -100);
}

#[test]
fn ratio_of_two_zero_channels_is_zero() {
    assert_eq!(ratio(0, 0), 0);
}

#[test]
fn tri_state_boundaries() {
    assert_eq!(tri_state(30), 1);
    assert_eq!(tri_state(29), 0);
    assert_eq!(tri_state(0), 0);
    assert_eq!(tri_state(-29), 0);
    assert_eq!(tri_state(-30), -1);
    assert_eq!(tri_state(-200), -1);
}

#[test]
fn decision_table_single_axis_rows() {
    assert_eq!(decide(-1, 0, -50, 0), Gesture::Up);
    assert_eq!(decide(1, 0, 50, 0), Gesture::Down);
    assert_eq!(decide(0, -1, 0, -50), Gesture::Left);
    assert_eq!(decide(0, 1, 0, 50), Gesture::Right);
    assert_eq!(decide(0, 0, 10, -10), Gesture::NoGesture);
}

#[test]
fn decision_table_diagonal_rows() {
    assert_eq!(decide(-1, 1, -80, 40), Gesture::Up);
    assert_eq!(decide(-1, 1, -40, 80), Gesture::Right);
    assert_eq!(decide(1, -1, 80, -40), Gesture::Down);
    assert_eq!(decide(1, -1, 40, -80), Gesture::Left);
    assert_eq!(decide(-1, -1, -80, -40), Gesture::Up);
    assert_eq!(decide(-1, -1, -40, -80), Gesture::Left);
    assert_eq!(decide(1, 1, 80, 40), Gesture::Down);
    assert_eq!(decide(1, 1, 40, 80), Gesture::Right);
}

#[test]
fn decision_table_equal_magnitudes_go_to_left_right() {
    assert_eq!(decide(-1, 1, -50, 50), Gesture::Right);
    assert_eq!(decide(1, -1, 50, -50), Gesture::Left);
    assert_eq!(decide(-1, -1, -50, -50), Gesture::Left);
    assert_eq!(decide(1, 1, 50, 50), Gesture::Right);
}

#[test]
fn classify_up_swipe() {
    let first = sample(100, 30, 60, 60);
    let last = sample(30, 100, 60, 60);
    assert_eq!(classify(first, last), Gesture::Up);
    assert_eq!(classify(last, first), Gesture::Down);
}

#[test]
fn classify_left_and_right_swipes() {
    let a = sample(60, 60, 100, 30);
    let b = sample(60, 60, 30, 100);
    assert_eq!(classify(a, b), Gesture::Left);
    assert_eq!(classify(b, a), Gesture::Right);
}

#[test]
fn classify_small_change_is_no_gesture() {
    assert_eq!(classify(sample(60, 50, 60, 60), sample(50, 60, 60, 60)), Gesture::NoGesture);
}

#[test]
fn fewer_than_two_samples_give_no_gesture() {
    assert_eq!(gesture_from_samples(&[]), Gesture::NoGesture);
    assert_eq!(gesture_from_samples(&[sample(100, 30, 60, 60)]), Gesture::NoGesture);
}

#[test]
fn samples_use_first_and_last_only() {
    let samples = [
        sample(100, 30, 60, 60),
        sample(60, 60, 100, 30),
        sample(60, 60, 30, 100),
        sample(30, 100, 60, 60),
    ];
    assert_eq!(gesture_from_samples(&samples), Gesture::Up);
}
