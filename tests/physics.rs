use sidescroll_sync::physics::{
    die, tick, Controls, Player, SPAWN_X, SPAWN_Y, WORLD_HEIGHT, WORLD_WIDTH,
};

fn player(x: i16, y: i16, vel_y: i16) -> Player {
    Player { id: 7, x, y, vel_y }
}

fn none() -> Controls {
    Controls::released()
}

#[test]
fn spawn_is_middle_of_world() {
    let p = Player::spawn(3);
    assert_eq!(p, Player { id: 3, x: 20, y: 1, vel_y: 0 });
    assert_eq!(SPAWN_X * 2, WORLD_WIDTH);
    assert_eq!(SPAWN_Y, 1);
}

#[test]
fn die_resets_position_and_velocity() {
    let mut p = player(3, 9, -4);
    die(&mut p);
    assert_eq!(p, player(20, 1, 0));
}

#[test]
fn first_tick_from_top_gains_gravity() {
    let mut p = player(20, 0, 0);
    tick(&mut p, &none());
    assert_eq!(p, player(20, 1, 1));
}

#[test]
fn falling_player_settles_on_floor() {
    let mut p = player(20, 0, 0);
    for _ in 0..100 {
        tick(&mut p, &none());
        assert!(p.y >= 0 && p.y <= WORLD_HEIGHT);
    }
    assert_eq!(p.y, WORLD_HEIGHT);
    assert_eq!(p.vel_y, 0);
    tick(&mut p, &none());
    assert_eq!(p, player(20, 20, 0));
}

#[test]
fn drag_relaxes_velocity_on_floor() {
    let mut p = player(5, 10, 3);
    tick(&mut p, &none());
    // drag 3 -> 2, gravity 2 -> 3, y 10 -> 13
    assert_eq!(p, player(5, 13, 3));
    let mut q = player(5, 20, -3);
    tick(&mut q, &none());
    // on the floor: drag -3 -> -2, no gravity
    assert_eq!(q, player(5, 18, -2));
}

#[test]
fn left_and_right_move_one_column() {
    let mut p = player(10, 20, 0);
    tick(&mut p, &Controls { left: true, right: false, jump: false });
    assert_eq!(p, player(9, 20, 0));
    tick(&mut p, &Controls { left: false, right: true, jump: false });
    assert_eq!(p, player(10, 20, 0));
    tick(&mut p, &Controls { left: true, right: true, jump: false });
    assert_eq!(p, player(10, 20, 0));
}

#[test]
fn jump_is_an_impulse_for_the_next_tick() {
    let mut p = player(10, 20, 0);
    tick(&mut p, &Controls { left: false, right: false, jump: true });
    assert_eq!(p, player(10, 20, -6));
    tick(&mut p, &none());
    assert_eq!(p, player(10, 15, -5));
}

#[test]
fn jump_impulse_saturates() {
    let mut p = player(20, 32767, -32768);
    tick(&mut p, &Controls { left: false, right: false, jump: true });
    assert_eq!(p, player(20, 0, -32768));
}

#[test]
fn below_floor_respawns() {
    let mut p = player(10, 25, 0);
    tick(&mut p, &none());
    assert_eq!(p, player(20, 1, 0));
}

#[test]
fn above_top_respawns() {
    let mut p = player(10, -5, -2);
    tick(&mut p, &Controls { left: false, right: false, jump: true });
    assert_eq!(p, player(20, 1, 0));
}

#[test]
fn outside_columns_respawn() {
    let mut p = player(-3, 10, 0);
    tick(&mut p, &Controls { left: false, right: true, jump: false });
    assert_eq!(p, player(20, 1, 0));
    let mut q = player(45, 10, 0);
    tick(&mut q, &none());
    assert_eq!(q, player(20, 1, 0));
}

#[test]
fn walking_off_the_left_edge_respawns() {
    let mut p = player(0, 20, 0);
    tick(&mut p, &Controls { left: true, right: false, jump: false });
    assert_eq!(p, player(20, 1, 0));
}

#[test]
fn one_row_above_top_falls_back_in() {
    // the movement of this tick ends inside the world, so no respawn
    let mut p = player(10, -1, 0);
    tick(&mut p, &none());
    assert_eq!(p, player(10, 0, 1));
}

#[test]
fn same_inputs_give_same_trajectory() {
    let inputs = [
        Controls { left: true, right: false, jump: false },
        Controls { left: false, right: false, jump: true },
        Controls::released(),
        Controls { left: false, right: true, jump: true },
        Controls::released(),
        Controls { left: true, right: true, jump: false },
    ];
    let mut a = player(12, 3, 2);
    let mut b = player(12, 3, 2);
    for _ in 0..20 {
        for c in inputs.iter() {
            tick(&mut a, c);
            tick(&mut b, c);
            assert_eq!(a, b);
        }
    }
}
