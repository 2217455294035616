use mapnav::center::{Center, Drag, ENERGY_STEP, FULL_ENERGY};
use mapnav::projector::ProjectorType;
use mapnav::units::{AdjustedPosition, Pixel, Position};
use mapnav::zoom::{total_pixels, Scale, Zoom};

fn whole_scale(level: u8) -> Scale {
    Scale::exact(Zoom::whole(level).unwrap()).unwrap()
}

fn no_drag() -> Drag {
    Drag { dragged: false, stopped: false, delta: Pixel::zero() }
}

fn dragging(delta: Pixel) -> Drag {
    Drag { dragged: true, stopped: false, delta }
}

fn released() -> Drag {
    Drag { dragged: false, stopped: true, delta: Pixel::zero() }
}

fn here() -> AdjustedPosition {
    AdjustedPosition::new(Position::new(1_000_000, 2_000_000), Pixel::new(5, 6))
}

#[test]
fn energy_constants() {
    assert_eq!(FULL_ENERGY, 100);
    assert_eq!(ENERGY_STEP, 3);
}

#[test]
fn the_map_follows_at_first() {
    assert_eq!(Center::default(), Center::FollowingExternal);
    assert_eq!(Center::default().get_adjusted_position(), None);
}

#[test]
fn every_detached_state_stores_a_position() {
    let pos = here();
    let v = Pixel::new(1, 1);
    assert_eq!(Center::Exact { pos }.get_adjusted_position(), Some(pos));
    assert_eq!(Center::Dragging { pos, velocity: v }.get_adjusted_position(), Some(pos));
    assert_eq!(Center::Coasting { pos, velocity: v, energy: 50 }.get_adjusted_position(), Some(pos));
}

#[test]
fn drag_start_detaches_at_my_position() {
    let my_position = Position::new(7, 8);
    let mut center = Center::FollowingExternal;
    let delta = Pixel::from_pixels(3, -2);
    assert!(center.recalculate_drag(dragging(delta), my_position));
    assert_eq!(
        center,
        Center::Dragging { pos: AdjustedPosition::new(my_position, Pixel::zero()), velocity: delta }
    );
}

#[test]
fn drag_start_keeps_a_stored_position() {
    let my_position = Position::new(7, 8);
    let delta = Pixel::from_pixels(3, -2);
    let v = Pixel::new(9, 9);
    for start in [
        Center::Exact { pos: here() },
        Center::Dragging { pos: here(), velocity: v },
        Center::Coasting { pos: here(), velocity: v, energy: 40 },
    ] {
        let mut center = start;
        assert!(center.recalculate_drag(dragging(delta), my_position));
        assert_eq!(center, Center::Dragging { pos: here(), velocity: delta });
    }
}

#[test]
fn drag_start_then_release_coasts_with_full_energy() {
    let my_position = Position::new(7, 8);
    let mut center = Center::FollowingExternal;
    assert!(center.recalculate_drag(dragging(Pixel::zero()), my_position));
    assert!(center.recalculate_drag(released(), my_position));
    assert_eq!(
        center,
        Center::Coasting {
            pos: AdjustedPosition::new(my_position, Pixel::zero()),
            velocity: Pixel::zero(),
            energy: 100,
        }
    );
}

#[test]
fn release_carries_the_last_velocity() {
    let my_position = Position::new(7, 8);
    let v = Pixel::from_pixels(4, 5);
    let mut center = Center::Dragging { pos: here(), velocity: v };
    assert!(center.recalculate_drag(released(), my_position));
    assert_eq!(center, Center::Coasting { pos: here(), velocity: v, energy: FULL_ENERGY });
}

#[test]
fn release_without_a_drag_changes_nothing() {
    let my_position = Position::new(7, 8);
    for start in [
        Center::FollowingExternal,
        Center::Exact { pos: here() },
        Center::Coasting { pos: here(), velocity: Pixel::new(1, 1), energy: 40 },
    ] {
        let mut center = start;
        assert!(center.recalculate_drag(released(), my_position));
        assert_eq!(center, start);
    }
}

#[test]
fn no_drag_changes_nothing() {
    let my_position = Position::new(7, 8);
    for start in [
        Center::FollowingExternal,
        Center::Exact { pos: here() },
        Center::Dragging { pos: here(), velocity: Pixel::new(1, 1) },
        Center::Coasting { pos: here(), velocity: Pixel::new(1, 1), energy: 40 },
    ] {
        let mut center = start;
        assert!(!center.recalculate_drag(no_drag(), my_position));
        assert_eq!(center, start);
    }
}

#[test]
fn a_drag_wins_over_a_release() {
    let mut center = Center::Exact { pos: here() };
    let drag = Drag { dragged: true, stopped: true, delta: Pixel::new(2, 2) };
    assert!(center.recalculate_drag(drag, Position::new(0, 0)));
    assert_eq!(center, Center::Dragging { pos: here(), velocity: Pixel::new(2, 2) });
}

#[test]
fn a_dragged_map_moves_by_its_velocity() {
    let v = Pixel::from_pixels(4, -5);
    let mut center = Center::Dragging { pos: here(), velocity: v };
    assert!(center.update_movement());
    assert_eq!(center, Center::Dragging { pos: here().shift(v), velocity: v });
    assert!(center.update_movement());
    assert_eq!(center, Center::Dragging { pos: here().shift(v).shift(v), velocity: v });
}

#[test]
fn a_map_at_rest_does_not_move() {
    for start in [Center::FollowingExternal, Center::Exact { pos: here() }] {
        let mut center = start;
        assert!(!center.update_movement());
        assert_eq!(center, start);
    }
}

#[test]
fn a_coasting_map_moves_by_velocity_times_energy() {
    let v = Pixel::new(1000, -2000);
    let mut center = Center::Coasting { pos: here(), velocity: v, energy: 100 };
    assert!(center.update_movement());
    assert_eq!(center, Center::Coasting { pos: here().shift(v), velocity: v, energy: 97 });
    assert!(center.update_movement());
    assert_eq!(
        center,
        Center::Coasting {
            pos: here().shift(v).shift(Pixel::new(970, -1940)),
            velocity: v,
            energy: 94,
        }
    );
}

#[test]
fn coasting_stops_after_thirty_four_frames() {
    let v = Pixel::from_pixels(10, 0);
    let mut center = Center::Coasting { pos: here(), velocity: v, energy: FULL_ENERGY };
    let mut expected = here();
    let mut energy = 100;
    for frame in 1..=33 {
        assert!(center.update_movement());
        expected = expected.shift(v.scaled(energy));
        energy -= 3;
        assert_eq!(
            center,
            Center::Coasting { pos: expected, velocity: v, energy },
            "frame {}",
            frame
        );
    }
    assert_eq!(energy, 1);
    assert!(center.update_movement());
    expected = expected.shift(v.scaled(1));
    assert_eq!(center, Center::Exact { pos: expected });
    assert!(!center.update_movement());
    assert_eq!(center, Center::Exact { pos: expected });
}

#[test]
fn drag_release_and_thirty_four_frames_come_to_rest() {
    let my_position = Position::new(7, 8);
    let mut center = Center::FollowingExternal;
    center.recalculate_drag(dragging(Pixel::zero()), my_position);
    center.recalculate_drag(released(), my_position);
    for _ in 0..34 {
        center.update_movement();
    }
    assert_eq!(center, Center::Exact { pos: AdjustedPosition::new(my_position, Pixel::zero()) });
}

#[test]
fn coasting_without_energy_stops_where_it_is() {
    for energy in [0, -1, -2, i32::MIN] {
        let mut center = Center::Coasting { pos: here(), velocity: Pixel::new(9, 9), energy };
        assert!(center.update_movement());
        assert_eq!(center, Center::Exact { pos: here() });
    }
}

#[test]
fn coasting_with_little_energy_moves_once_more() {
    for energy in [1, 2, 3] {
        let v = Pixel::new(1000, 1000);
        let mut center = Center::Coasting { pos: here(), velocity: v, energy };
        assert!(center.update_movement());
        assert_eq!(center, Center::Exact { pos: here().shift(v.scaled(energy)) });
    }
    let v = Pixel::new(1000, 1000);
    let mut center = Center::Coasting { pos: here(), velocity: v, energy: 4 };
    assert!(center.update_movement());
    assert_eq!(center, Center::Coasting { pos: here().shift(v.scaled(4)), velocity: v, energy: 1 });
}

#[test]
fn shift_moves_every_detached_state() {
    let d = Pixel::new(10, 20);
    let v = Pixel::new(1, 1);
    assert_eq!(Center::FollowingExternal.shift(d), Center::FollowingExternal);
    assert_eq!(Center::Exact { pos: here() }.shift(d), Center::Exact { pos: here().shift(d) });
    assert_eq!(
        Center::Dragging { pos: here(), velocity: v }.shift(d),
        Center::Dragging { pos: here().shift(d), velocity: v }
    );
    assert_eq!(
        Center::Coasting { pos: here(), velocity: v, energy: 7 }.shift(d),
        Center::Coasting { pos: here().shift(d), velocity: v, energy: 7 }
    );
}

#[test]
fn zero_offset_folds_every_detached_state() {
    let scale = whole_scale(12);
    let v = Pixel::new(1, 1);
    let width = total_pixels(12) as i64;
    let pos = AdjustedPosition::new(Position::new(500, 600), Pixel::new(2 * width, 3 * width));
    let global = AdjustedPosition::new(Position::new(498, 597), Pixel::zero());
    let local = AdjustedPosition::new(Position::new(498, 603), Pixel::zero());
    assert_eq!(Center::FollowingExternal.global_zero_offset(scale), Center::FollowingExternal);
    assert_eq!(Center::FollowingExternal.local_zero_offset(scale), Center::FollowingExternal);
    assert_eq!(Center::Exact { pos }.global_zero_offset(scale), Center::Exact { pos: global });
    assert_eq!(Center::Exact { pos }.local_zero_offset(scale), Center::Exact { pos: local });
    assert_eq!(
        Center::Dragging { pos, velocity: v }.global_zero_offset(scale),
        Center::Dragging { pos: global, velocity: v }
    );
    assert_eq!(
        Center::Dragging { pos, velocity: v }.local_zero_offset(scale),
        Center::Dragging { pos: local, velocity: v }
    );
    assert_eq!(
        Center::Coasting { pos, velocity: v, energy: 9 }.global_zero_offset(scale),
        Center::Coasting { pos: global, velocity: v, energy: 9 }
    );
    assert_eq!(
        Center::Coasting { pos, velocity: v, energy: 9 }.zero_offset(ProjectorType::Local, scale),
        Center::Coasting { pos: local, velocity: v, energy: 9 }
    );
}

#[test]
fn a_following_map_is_centred_at_my_position() {
    let scale = whole_scale(16);
    let my_position = Position::new(123, 456);
    assert_eq!(Center::FollowingExternal.global_position(my_position, scale), my_position);
    assert_eq!(Center::FollowingExternal.local_position(my_position, scale), my_position);
    assert_eq!(
        Center::FollowingExternal.position(ProjectorType::Global, my_position, scale),
        my_position
    );
}

#[test]
fn a_detached_map_is_centred_at_its_stored_position() {
    let scale = whole_scale(16);
    let width = total_pixels(16) as i64;
    let my_position = Position::new(123, 456);
    let pos = AdjustedPosition::new(Position::new(500, 600), Pixel::new(2 * width, 3 * width));
    for center in [
        Center::Exact { pos },
        Center::Dragging { pos, velocity: Pixel::zero() },
        Center::Coasting { pos, velocity: Pixel::zero(), energy: 1 },
    ] {
        assert_eq!(center.global_position(my_position, scale), Position::new(498, 597));
        assert_eq!(center.local_position(my_position, scale), Position::new(498, 603));
        assert_eq!(
            center.position(ProjectorType::Local, my_position, scale),
            Position::new(498, 603)
        );
    }
}
