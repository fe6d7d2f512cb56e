use multi_transport::input::{
    direction_steps, movement_steps, Axis, ControlKind, Direction, Inputs, PlayerActions, Step,
};

fn dir(up: bool, down: bool, left: bool, right: bool) -> Direction {
    Direction { up, down, left, right }
}

fn net(steps: &[Step], axis: Axis) -> i32 {
    steps
        .iter()
        .filter(|s| s.axis == axis)
        .map(|s| if s.positive { 1 } else { -1 })
        .sum()
}

#[test]
fn is_none_only_without_keys() {
    assert!(dir(false, false, false, false).is_none());
    assert!(!dir(true, false, false, false).is_none());
    assert!(!dir(false, false, false, true).is_none());
    assert!(Direction::default().is_none());
    assert_eq!(Inputs::default(), Inputs::Idle);
}

#[test]
fn steps_follow_key_order() {
    let all = direction_steps(&dir(true, true, true, true));
    assert_eq!(
        all,
        vec![
            Step { axis: Axis::Y, positive: true },
            Step { axis: Axis::Y, positive: false },
            Step { axis: Axis::X, positive: false },
            Step { axis: Axis::X, positive: true },
        ]
    );
    assert_eq!(
        movement_steps(&Inputs::Direction(dir(false, true, false, true))),
        vec![Step { axis: Axis::Y, positive: false }, Step { axis: Axis::X, positive: true }]
    );
    assert!(movement_steps(&Inputs::Idle).is_empty());
}

#[test]
fn idle_direction_makes_no_steps() {
    for bits in 0..16u8 {
        let d = dir(bits & 1 != 0, bits & 2 != 0, bits & 4 != 0, bits & 8 != 0);
        assert_eq!(d.is_none(), direction_steps(&d).is_empty());
    }
}

#[test]
fn net_movement_is_right_minus_left_and_up_minus_down() {
    for bits in 0..16u8 {
        let d = dir(bits & 1 != 0, bits & 2 != 0, bits & 4 != 0, bits & 8 != 0);
        let steps = direction_steps(&d);
        assert_eq!(net(&steps, Axis::X), d.right as i32 - d.left as i32);
        assert_eq!(net(&steps, Axis::Y), d.up as i32 - d.down as i32);
    }
}

#[test]
fn control_kinds() {
    assert_eq!(PlayerActions::MoveCursor.input_control_kind(), ControlKind::DualAxis);
    for a in [
        PlayerActions::Up,
        PlayerActions::Down,
        PlayerActions::Left,
        PlayerActions::Right,
        PlayerActions::Shoot,
    ] {
        assert_eq!(a.input_control_kind(), ControlKind::Button);
    }
}
