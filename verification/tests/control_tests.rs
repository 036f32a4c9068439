use point_cloud_viewer::{
    CameraAction, CameraMove, CameraPose, ConfigError, InputEvent, PanOrbitZoomControl, Vec3Milli,
};

fn v(x: i64, y: i64, z: i64) -> Vec3Milli {
    Vec3Milli { x, y, z }
}

#[test]
fn construction_accepts_valid_bounds() {
    let ctl = PanOrbitZoomControl::new(100, 3000).unwrap();
    assert_eq!(ctl.min_distance, 100);
    assert_eq!(ctl.max_distance, 3000);
    assert!(PanOrbitZoomControl::new(1, 2).is_ok());
    assert!(PanOrbitZoomControl::new(1, i64::MAX).is_ok());
}

#[test]
fn construction_rejects_invalid_bounds() {
    assert_eq!(
        PanOrbitZoomControl::new(3000, 100).unwrap_err(),
        ConfigError::InvalidBounds
    );
    assert_eq!(
        PanOrbitZoomControl::new(0, 3000).unwrap_err(),
        ConfigError::InvalidBounds
    );
    assert_eq!(
        PanOrbitZoomControl::new(-5, 3000).unwrap_err(),
        ConfigError::InvalidBounds
    );
    assert_eq!(
        PanOrbitZoomControl::new(100, 100).unwrap_err(),
        ConfigError::InvalidBounds
    );
    assert_eq!(
        PanOrbitZoomControl::new(-10, -5).unwrap_err(),
        ConfigError::InvalidBounds
    );
}

#[test]
fn speed_has_exact_affine_values() {
    // 0.01 * 1.0 + 0.001 = 0.011, in milliunits.
    assert_eq!(PanOrbitZoomControl::speed(1000), 11);
    assert_eq!(PanOrbitZoomControl::speed(2000), 21);
    assert_eq!(PanOrbitZoomControl::speed(0), 1);
    assert_eq!(PanOrbitZoomControl::speed(99), 1);
    assert_eq!(PanOrbitZoomControl::speed(100), 2);
}

#[test]
fn speed_is_monotone_in_distance() {
    let mut prev = PanOrbitZoomControl::speed(0);
    let mut d: i64 = 0;
    while d <= 10_000 {
        let s = PanOrbitZoomControl::speed(d);
        assert!(s >= prev);
        prev = s;
        d += 37;
    }
}

#[test]
fn identical_input_moves_proportionally_at_two_distances() {
    let ctl = PanOrbitZoomControl::new(100, 1_000_000).unwrap();
    // Same raw scroll of 500 at distance 1.0 and at distance 2.0.
    let near = ctl.zoomed_distance(1000, 500);
    let far = ctl.zoomed_distance(2000, 500);
    // Steps are 500 * 11 / 1000 = 5 and 500 * 21 / 1000 = 10.
    assert_eq!(1000 - near, 5);
    assert_eq!(2000 - far, 10);
    assert!(2000 - far > 1000 - near);
}

#[test]
fn zoom_moves_toward_target_and_stays_in_bounds() {
    // Bounds (0.1, 3.0), camera at distance 1.0, one scroll of magnitude
    // 0.5: the distance moves by 0.011 * 0.5 = 0.0055, floored to whole
    // milliunits.
    let ctl = PanOrbitZoomControl::new(100, 3000).unwrap();
    let after = ctl.zoomed_distance(1000, 500);
    assert_eq!(after, 995);
    assert!(after < 1000);
    assert!(100 <= after && after <= 3000);
    let away = ctl.zoomed_distance(1000, -500);
    assert_eq!(away, 1005);
    assert!(away > 1000);
}

#[test]
fn zoom_clamps_single_overshooting_steps() {
    let ctl = PanOrbitZoomControl::new(100, 3000).unwrap();
    assert_eq!(ctl.zoomed_distance(1000, 1_000_000_000), 100);
    assert_eq!(ctl.zoomed_distance(1000, -1_000_000_000), 3000);
    // Even starting outside the bounds, one step lands inside them.
    assert_eq!(ctl.zoomed_distance(0, 0), 100);
    assert_eq!(ctl.zoomed_distance(4_000_000_000, 0), 3000);
}

#[test]
fn zoom_sequence_never_leaves_bounds() {
    let ctl = PanOrbitZoomControl::new(100, 3000).unwrap();
    let deltas: Vec<i64> = vec![
        900_000_000,
        -900_000_000,
        500,
        -1_000_000_000,
        1_000_000_000,
        7,
        -7,
    ];
    let mut current: i64 = 1000;
    let mut partial: Vec<i64> = Vec::new();
    for d in deltas.iter() {
        partial.push(*d);
        current = ctl.zoomed_distance(current, *d);
        assert!(100 <= current && current <= 3000);
        assert_eq!(ctl.zoomed_distance_seq(1000, &partial), current);
    }
}

#[test]
fn handle_events_maps_each_gesture_category() {
    let ctl = PanOrbitZoomControl::new(100, 3000).unwrap();
    // Camera one unit in front of the origin target: distance 1.0 exactly.
    let pose = CameraPose {
        position: v(0, 0, 1000),
        target: v(0, 0, 0),
    };
    let events = vec![
        InputEvent::PrimaryDrag { dx: 3, dy: -4 },
        InputEvent::SecondaryDrag { dx: 5, dy: 6 },
        InputEvent::Scroll { delta: 500 },
        InputEvent::Other,
    ];
    let (moves, changed) = ctl.handle_events(&pose, &events);
    assert!(changed);
    let origin = v(0, 0, 0);
    let expected = vec![
        CameraMove {
            action: CameraAction::OrbitLeft {
                target: origin,
                speed: 11,
            },
            amount: 3,
        },
        CameraMove {
            action: CameraAction::OrbitUp {
                target: origin,
                speed: 11,
            },
            amount: -4,
        },
        CameraMove {
            action: CameraAction::Left { speed: 11 },
            amount: 5,
        },
        CameraMove {
            action: CameraAction::Up { speed: 11 },
            amount: 6,
        },
        CameraMove {
            action: CameraAction::Zoom {
                min: 100,
                max: 3000,
                speed: 11,
                target: v(0, 0, 0),
            },
            amount: 500,
        },
    ];
    assert_eq!(moves, expected);
}

#[test]
fn handle_events_ignores_unmapped_gestures() {
    let ctl = PanOrbitZoomControl::new(100, 3000).unwrap();
    let pose = CameraPose {
        position: v(250, 250, 1000),
        target: v(0, 0, 0),
    };
    let (moves, changed) = ctl.handle_events(&pose, &vec![InputEvent::Other, InputEvent::Other]);
    assert!(moves.is_empty());
    assert!(!changed);
    let (moves, changed) = ctl.handle_events(&pose, &Vec::new());
    assert!(moves.is_empty());
    assert!(!changed);
}

#[test]
fn handle_events_speed_tracks_live_distance() {
    let ctl = PanOrbitZoomControl::new(100, 3000).unwrap();
    // Degenerate pose (camera on its target): distance 0, speed is still
    // positive thanks to the additive term, and nothing panics.
    let pose = CameraPose {
        position: v(0, 0, 0),
        target: v(0, 0, 0),
    };
    let (moves, changed) = ctl.handle_events(&pose, &vec![InputEvent::Scroll { delta: 1 }]);
    assert!(changed);
    assert_eq!(
        moves[0].action,
        CameraAction::Zoom {
            min: 100,
            max: 3000,
            speed: 1,
            target: v(0, 0, 0),
        }
    );
    // Twice as far: twice-ish the sensitivity (affine rule).
    let far_pose = CameraPose {
        position: v(0, 0, 2000),
        target: v(0, 0, 0),
    };
    let (far_moves, _) = ctl.handle_events(&far_pose, &vec![InputEvent::Scroll { delta: 1 }]);
    assert_eq!(
        far_moves[0].action,
        CameraAction::Zoom {
            min: 100,
            max: 3000,
            speed: 21,
            target: v(0, 0, 0),
        }
    );
}
