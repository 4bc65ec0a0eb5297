use vdrm_emu::projection::{build_projection, ProjStep};

#[test]
fn viewport_transform_with_yaw_only() {
    let steps = build_projection(0, 100, 0, 50, true, false);
    assert_eq!(
        steps,
        vec![
            ProjStep::Shift { x: -20, y: -20, z: -20 },
            ProjStep::RotateYaw,
            ProjStep::Scale,
            ProjStep::Shift { x: 50, y: 25, z: 0 },
        ]
    );
}

#[test]
fn degenerate_viewport_skips_recentering() {
    assert_eq!(
        build_projection(0, 0, 0, 0, true, true),
        vec![ProjStep::RotateYaw, ProjStep::RotatePitch, ProjStep::Scale]
    );
    assert_eq!(build_projection(0, 0, 0, 0, false, false), vec![ProjStep::Scale]);
    assert_eq!(
        build_projection(0, 0, 0, 0, false, true),
        vec![ProjStep::RotatePitch, ProjStep::Scale]
    );
}

#[test]
fn no_rotation_without_yaw_or_pitch() {
    let steps = build_projection(0, 640, 0, 480, false, false);
    assert_eq!(
        steps,
        vec![
            ProjStep::Shift { x: -192, y: -192, z: -192 },
            ProjStep::Scale,
            ProjStep::Shift { x: 320, y: 240, z: 0 },
        ]
    );
}

#[test]
fn yaw_is_applied_before_pitch() {
    let steps = build_projection(0, 640, 0, 480, true, true);
    let yaw = steps.iter().position(|s| *s == ProjStep::RotateYaw).unwrap();
    let pitch = steps.iter().position(|s| *s == ProjStep::RotatePitch).unwrap();
    assert!(yaw < pitch);
    assert_eq!(steps.len(), 5);
}

#[test]
fn divisions_round_toward_zero() {
    assert_eq!(
        build_projection(-3, 0, -3, 0, false, false),
        vec![
            ProjStep::Shift { x: -1, y: -1, z: -1 },
            ProjStep::Scale,
            ProjStep::Shift { x: -1, y: -1, z: 0 },
        ]
    );
    assert_eq!(
        build_projection(10, 0, 0, 50, false, false),
        vec![
            ProjStep::Shift { x: 4, y: 4, z: 4 },
            ProjStep::Scale,
            ProjStep::Shift { x: 5, y: 25, z: 0 },
        ]
    );
}

#[test]
fn centered_viewport_has_no_final_move() {
    assert_eq!(
        build_projection(-50, 50, -50, 50, false, false),
        vec![ProjStep::Shift { x: -40, y: -40, z: -40 }, ProjStep::Scale]
    );
}
