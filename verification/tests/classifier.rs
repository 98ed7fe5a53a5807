use gesticle::events::{clamp_event_value, EventSource, GestureEvent, EVENT_DELTA_LIMIT};
use gesticle::gestures::{
    GestureOutcome, GestureType, Listener, PinchDirection, RotationDirection, SwipeDirection,
};

#[test]
fn lib_it_works() {
    assert_eq!(2 + 2, 4);
}

#[test]
fn swipe_up_three_fingers() {
    let mut l = Listener::new(0, 0);
    assert_eq!(l.event(&GestureEvent::SwipeBegin { fingers: 3 }), GestureOutcome::Pending);
    assert_eq!(
        l.event(&GestureEvent::SwipeUpdate { dx: 0, dy: -50000 }),
        GestureOutcome::Pending
    );
    assert_eq!(
        l.event(&GestureEvent::SwipeEnd { cancelled: false }),
        GestureOutcome::Emitted(GestureType::Swipe(SwipeDirection::Up, 3))
    );
}

#[test]
fn swipe_down_steep_motion() {
    let mut l = Listener::new(0, 0);
    l.event(&GestureEvent::SwipeBegin { fingers: 4 });
    l.event(&GestureEvent::SwipeUpdate { dx: 1000, dy: 50000 });
    assert_eq!(
        l.event(&GestureEvent::SwipeEnd { cancelled: false }),
        GestureOutcome::Emitted(GestureType::Swipe(SwipeDirection::Down, 4))
    );
}

#[test]
fn swipe_right_shallow_motion() {
    let mut l = Listener::new(0, 0);
    l.event(&GestureEvent::SwipeBegin { fingers: 3 });
    l.event(&GestureEvent::SwipeUpdate { dx: 50000, dy: -1000 });
    assert_eq!(
        l.event(&GestureEvent::SwipeEnd { cancelled: false }),
        GestureOutcome::Emitted(GestureType::Swipe(SwipeDirection::Right, 3))
    );
}

#[test]
fn swipe_left_shallow_motion() {
    let mut l = Listener::new(0, 0);
    l.event(&GestureEvent::SwipeBegin { fingers: 3 });
    l.event(&GestureEvent::SwipeUpdate { dx: -50000, dy: 1000 });
    assert_eq!(
        l.event(&GestureEvent::SwipeEnd { cancelled: false }),
        GestureOutcome::Emitted(GestureType::Swipe(SwipeDirection::Left, 3))
    );
}

#[test]
fn swipe_perfectly_flat_is_unrecognized() {
    // A flat motion has angle exactly zero, outside the open window.
    let mut l = Listener::new(0, 0);
    l.event(&GestureEvent::SwipeBegin { fingers: 3 });
    l.event(&GestureEvent::SwipeUpdate { dx: 50000, dy: 0 });
    assert_eq!(
        l.event(&GestureEvent::SwipeEnd { cancelled: false }),
        GestureOutcome::Unrecognized
    );
}

#[test]
fn swipe_diagonal_is_unrecognized() {
    let mut l = Listener::new(0, 0);
    l.event(&GestureEvent::SwipeBegin { fingers: 3 });
    l.event(&GestureEvent::SwipeUpdate { dx: 10000, dy: 10000 });
    assert_eq!(
        l.event(&GestureEvent::SwipeEnd { cancelled: false }),
        GestureOutcome::Unrecognized
    );
}

#[test]
fn swipe_without_motion_is_unrecognized() {
    let mut l = Listener::new(0, 0);
    l.event(&GestureEvent::SwipeBegin { fingers: 3 });
    assert_eq!(
        l.event(&GestureEvent::SwipeEnd { cancelled: false }),
        GestureOutcome::Unrecognized
    );
}

#[test]
fn two_finger_swipe_goes_by_horizontal_sign_alone() {
    let mut l = Listener::new(0, 0);
    l.event(&GestureEvent::SwipeBegin { fingers: 2 });
    l.event(&GestureEvent::SwipeUpdate { dx: 5000, dy: -200000 });
    assert_eq!(
        l.event(&GestureEvent::SwipeEnd { cancelled: false }),
        GestureOutcome::Emitted(GestureType::Swipe(SwipeDirection::Right, 2))
    );

    l.event(&GestureEvent::SwipeBegin { fingers: 2 });
    l.event(&GestureEvent::SwipeUpdate { dx: -5000, dy: 200000 });
    assert_eq!(
        l.event(&GestureEvent::SwipeEnd { cancelled: false }),
        GestureOutcome::Emitted(GestureType::Swipe(SwipeDirection::Left, 2))
    );

    // With no horizontal motion at all, a two-finger swipe resolves Left.
    l.event(&GestureEvent::SwipeBegin { fingers: 2 });
    l.event(&GestureEvent::SwipeUpdate { dx: 0, dy: -50000 });
    assert_eq!(
        l.event(&GestureEvent::SwipeEnd { cancelled: false }),
        GestureOutcome::Emitted(GestureType::Swipe(SwipeDirection::Left, 2))
    );
}

#[test]
fn cancelled_swipe_emits_nothing_and_resets() {
    let mut l = Listener::new(0, 0);
    l.event(&GestureEvent::SwipeBegin { fingers: 4 });
    l.event(&GestureEvent::SwipeUpdate { dx: 30000, dy: 2000 });
    assert_eq!(
        l.event(&GestureEvent::SwipeEnd { cancelled: true }),
        GestureOutcome::Cancelled
    );
    // The builder is back to idle: another end event finds no gesture.
    assert_eq!(
        l.event(&GestureEvent::SwipeEnd { cancelled: false }),
        GestureOutcome::Orphan
    );
    // And a fresh swipe starts from zero, unaffected by the old deltas.
    l.event(&GestureEvent::SwipeBegin { fingers: 3 });
    l.event(&GestureEvent::SwipeUpdate { dx: 0, dy: -40000 });
    assert_eq!(
        l.event(&GestureEvent::SwipeEnd { cancelled: false }),
        GestureOutcome::Emitted(GestureType::Swipe(SwipeDirection::Up, 3))
    );
}

#[test]
fn update_without_begin_is_a_quiet_no_op() {
    let mut l = Listener::new(0, 0);
    assert_eq!(
        l.event(&GestureEvent::SwipeUpdate { dx: 1000, dy: 1000 }),
        GestureOutcome::Pending
    );
    assert_eq!(
        l.event(&GestureEvent::PinchUpdate { dx: 0, dy: 0, angle: 0, scale: 500 }),
        GestureOutcome::Pending
    );
    assert_eq!(
        l.event(&GestureEvent::SwipeEnd { cancelled: false }),
        GestureOutcome::Orphan
    );
    assert_eq!(
        l.event(&GestureEvent::PinchEnd { cancelled: false }),
        GestureOutcome::Orphan
    );
}

#[test]
fn pinch_in_fires_early_and_rebaselines() {
    // Pinch-in trigger threshold 0.3 in milli-scale.
    let mut l = Listener::new(300, 0);
    assert_eq!(l.event(&GestureEvent::PinchBegin { scale: 1000 }), GestureOutcome::Pending);
    // Scale 0.65: delta 0.35 crosses the 0.3 threshold at once.
    assert_eq!(
        l.event(&GestureEvent::PinchUpdate { dx: 0, dy: 0, angle: 0, scale: 650 }),
        GestureOutcome::Emitted(GestureType::Pinch(PinchDirection::In, 350))
    );
    // Still mid-gesture, re-baselined to 0.65: the end event finds a live
    // gesture whose delta is back to zero.
    assert_eq!(
        l.event(&GestureEvent::PinchEnd { cancelled: false }),
        GestureOutcome::Unrecognized
    );
}

#[test]
fn pinch_out_fires_early_at_negated_threshold() {
    let mut l = Listener::new(0, 300);
    l.event(&GestureEvent::PinchBegin { scale: 1000 });
    assert_eq!(
        l.event(&GestureEvent::PinchUpdate { dx: 0, dy: 0, angle: 0, scale: 1400 }),
        GestureOutcome::Emitted(GestureType::Pinch(PinchDirection::Out, -400))
    );
}

#[test]
fn pinch_without_threshold_emits_only_at_end() {
    let mut l = Listener::new(0, 0);
    l.event(&GestureEvent::PinchBegin { scale: 1000 });
    assert_eq!(
        l.event(&GestureEvent::PinchUpdate { dx: 0, dy: 0, angle: 0, scale: 650 }),
        GestureOutcome::Pending
    );
    assert_eq!(
        l.event(&GestureEvent::PinchEnd { cancelled: false }),
        GestureOutcome::Emitted(GestureType::Pinch(PinchDirection::In, 350))
    );
}

#[test]
fn rotation_takes_precedence_over_scale_change() {
    let mut l = Listener::new(0, 0);
    l.event(&GestureEvent::PinchBegin { scale: 1000 });
    assert_eq!(
        l.event(&GestureEvent::PinchUpdate { dx: 0, dy: 0, angle: 30000, scale: 900 }),
        GestureOutcome::Pending
    );
    // The angle accumulates to 60 degrees while the scale delta is 0.2:
    // the gesture is a rotation, not a pinch.
    assert_eq!(
        l.event(&GestureEvent::PinchUpdate { dx: 0, dy: 0, angle: 30000, scale: 800 }),
        GestureOutcome::Pending
    );
    assert_eq!(
        l.event(&GestureEvent::PinchEnd { cancelled: false }),
        GestureOutcome::Emitted(GestureType::Rotation(RotationDirection::Right, 60000))
    );
}

#[test]
fn rotation_left_for_negative_angle() {
    let mut l = Listener::new(0, 0);
    l.event(&GestureEvent::PinchBegin { scale: 1000 });
    l.event(&GestureEvent::PinchUpdate { dx: 0, dy: 0, angle: -60000, scale: 1000 });
    assert_eq!(
        l.event(&GestureEvent::PinchEnd { cancelled: false }),
        GestureOutcome::Emitted(GestureType::Rotation(RotationDirection::Left, -60000))
    );
}

#[test]
fn cancelled_pinch_emits_nothing() {
    let mut l = Listener::new(0, 0);
    l.event(&GestureEvent::PinchBegin { scale: 1000 });
    l.event(&GestureEvent::PinchUpdate { dx: 0, dy: 0, angle: 60000, scale: 650 });
    assert_eq!(
        l.event(&GestureEvent::PinchEnd { cancelled: true }),
        GestureOutcome::Cancelled
    );
}

#[test]
fn rotation_never_fires_early() {
    // Even with the pinch-in threshold crossed, a gesture wide enough to
    // be a rotation keeps accumulating instead of firing as a pinch.
    let mut l = Listener::new(300, 0);
    l.event(&GestureEvent::PinchBegin { scale: 1000 });
    assert_eq!(
        l.event(&GestureEvent::PinchUpdate { dx: 0, dy: 0, angle: 60000, scale: 650 }),
        GestureOutcome::Pending
    );
    assert_eq!(
        l.event(&GestureEvent::PinchEnd { cancelled: false }),
        GestureOutcome::Emitted(GestureType::Rotation(RotationDirection::Right, 60000))
    );
}

#[test]
fn batch_processing_collects_emissions_in_order() {
    let mut l = Listener::new(0, 0);
    let events = vec![
        GestureEvent::SwipeBegin { fingers: 3 },
        GestureEvent::SwipeUpdate { dx: 0, dy: -50000 },
        GestureEvent::SwipeEnd { cancelled: false },
        GestureEvent::PinchBegin { scale: 1000 },
        GestureEvent::PinchUpdate { dx: 0, dy: 0, angle: 0, scale: 800 },
        GestureEvent::PinchEnd { cancelled: false },
        GestureEvent::SwipeBegin { fingers: 4 },
        GestureEvent::SwipeEnd { cancelled: true },
    ];
    let emitted = EventSource::process(&mut l, &events);
    assert_eq!(
        emitted,
        vec![
            GestureType::Swipe(SwipeDirection::Up, 3),
            GestureType::Pinch(PinchDirection::In, 200),
        ]
    );
}

#[test]
fn event_values_are_clamped_to_the_limit() {
    assert_eq!(clamp_event_value(2_000_000_000), EVENT_DELTA_LIMIT);
    assert_eq!(clamp_event_value(-2_000_000_000), -EVENT_DELTA_LIMIT);
    assert_eq!(clamp_event_value(123), 123);
}

#[test]
fn config_keys_from_gesture_types() {
    assert_eq!(
        GestureType::Swipe(SwipeDirection::Up, 3).to_config(),
        "swipe.up.3".to_owned()
    );
    assert_eq!(
        GestureType::Swipe(SwipeDirection::Right, 12).to_config(),
        "swipe.right.12".to_owned()
    );
    assert_eq!(
        GestureType::Swipe(SwipeDirection::Down, -3).to_config(),
        "swipe.down.-3".to_owned()
    );
    assert_eq!(
        GestureType::Rotation(RotationDirection::Left, 60000).to_config(),
        "rotation.left".to_owned()
    );
    assert_eq!(
        GestureType::Pinch(PinchDirection::Out, -400).to_config(),
        "pinch.out".to_owned()
    );
}
