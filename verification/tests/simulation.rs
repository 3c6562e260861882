use rollback_shooter::entity::{
    Bullet, LifeTime, Player, Velocity, BULLET_LIFETIME, BULLET_SPEED, PLAYER_SPEED, TIME_TO_RELOAD,
};
use rollback_shooter::input::{BoxInput, INPUT_LEFT, INPUT_RIGHT, INPUT_RIGHT2, INPUT_UP, INPUT_UP2};
use rollback_shooter::space::{Heading, Point, DIAGONAL, FPS, STEPS_PER_PIXEL, UNIT};
use rollback_shooter::world::{setup, World, PLAYER_SPACING};

fn idle() -> BoxInput {
    BoxInput { val: 0 }
}

fn lone_player() -> World {
    setup(1)
}

fn bullet(lifetime: u32) -> Bullet {
    Bullet {
        position: Point { x: 0, y: 0 },
        velocity: Velocity { val: Heading { x: UNIT, y: 0 } },
        lifetime: LifeTime { val: lifetime },
    }
}

#[test]
fn the_constants_agree_with_each_other() {
    assert_eq!(FPS, 60);
    assert_eq!(STEPS_PER_PIXEL, FPS as i64 * UNIT as i64);
    assert_eq!(TIME_TO_RELOAD, FPS / 2);
    assert_eq!(BULLET_LIFETIME, FPS);
    assert_eq!(PLAYER_SPACING, 75 * STEPS_PER_PIXEL);
    assert_eq!((PLAYER_SPEED, BULLET_SPEED), (400, 500));
}

#[test]
fn setup_puts_the_players_in_a_row() {
    let world = setup(3);
    assert_eq!(world.players.len(), 3);
    assert!(world.bullets.is_empty());
    for (i, player) in world.players.iter().enumerate() {
        assert_eq!(player.handle, i);
        assert_eq!(player.reload_time, 0);
        assert_eq!(player.position, Point { x: i as i64 * 75 * STEPS_PER_PIXEL, y: 0 });
    }
    assert_eq!(world.players[2].position.x, 9_000_000_000);
}

#[test]
fn setup_of_nobody_is_empty() {
    let world = setup(0);
    assert!(world.players.is_empty());
    assert!(world.bullets.is_empty());
}

#[test]
fn holding_up_for_thirty_frames_moves_two_hundred_pixels() {
    let mut world = lone_player();
    for _ in 0..30 {
        world.step(&vec![BoxInput { val: INPUT_UP }]);
    }
    let position = world.players[0].position;
    assert_eq!(position.x, 0);
    assert_eq!(position.y, 200 * STEPS_PER_PIXEL);
    assert_eq!(position.y as f64 / STEPS_PER_PIXEL as f64, 400.0 * (1.0 / 60.0) * 30.0);
    assert!(world.bullets.is_empty());
}

#[test]
fn one_frame_of_movement_is_speed_times_heading() {
    let mut player = Player { handle: 0, reload_time: 0, position: Point { x: 10, y: -10 } };
    assert_eq!(player.advance(BoxInput { val: INPUT_RIGHT }), None);
    assert_eq!(player.position, Point { x: 10 + 400_000_000, y: -10 });
    assert_eq!(player.advance(BoxInput { val: INPUT_UP | INPUT_LEFT }), None);
    assert_eq!(player.position, Point { x: 10 + 400_000_000 - 282_842_800, y: -10 + 282_842_800 });
    assert_eq!(282_842_800, DIAGONAL as i64 * PLAYER_SPEED as i64);
}

#[test]
fn holding_fire_for_sixty_frames_spawns_two_bullets() {
    let mut world = lone_player();
    let mut spawned = 0;
    let mut frames_of_shots = Vec::new();
    for frame in 0..60 {
        let shots = world.move_players(&vec![BoxInput { val: INPUT_UP2 }]);
        world.move_objects();
        world.age_mortals();
        if !shots.is_empty() {
            frames_of_shots.push(frame);
        }
        spawned += shots.len();
        world.bullets.extend(shots);
    }
    assert_eq!(spawned, 2);
    assert_eq!(frames_of_shots, vec![0, 30]);
    assert_eq!(world.bullets.len(), 2);
}

#[test]
fn the_third_shot_comes_on_frame_sixty() {
    let mut world = lone_player();
    for _ in 0..60 {
        world.step(&vec![BoxInput { val: INPUT_UP2 }]);
    }
    assert_eq!(world.bullets.len(), 2);
    assert_eq!(world.players[0].reload_time, 0);
    world.step(&vec![BoxInput { val: INPUT_UP2 }]);
    assert_eq!(world.players[0].reload_time, TIME_TO_RELOAD - 1);
    let lifetimes: Vec<u32> = world.bullets.iter().map(|b| b.lifetime.val).collect();
    assert_eq!(lifetimes, vec![30, 60]);
}

#[test]
fn a_bullet_is_destroyed_on_frame_sixty_after_its_spawn() {
    let mut world = lone_player();
    world.step(&vec![BoxInput { val: INPUT_RIGHT2 }]);
    assert_eq!(world.bullets.len(), 1);
    assert_eq!(world.bullets[0].lifetime.val, 60);
    for frame in 1..60 {
        world.step(&vec![idle()]);
        assert_eq!(world.bullets.len(), 1, "gone too early, on frame {}", frame);
        assert_eq!(world.bullets[0].lifetime.val, 60 - frame);
    }
    world.step(&vec![idle()]);
    assert!(world.bullets.is_empty());
}

#[test]
fn a_reloading_player_does_not_fire() {
    for reload_time in [1, 2, 29, 30, u32::MAX] {
        let mut player = Player { handle: 0, reload_time, position: Point { x: 0, y: 0 } };
        assert_eq!(player.advance(BoxInput { val: 0xf0 ^ 0x20 ^ 0x40 }), None);
        assert_eq!(player.reload_time, reload_time - 1);
    }
    let mut world = lone_player();
    world.players[0].reload_time = 1;
    world.step(&vec![BoxInput { val: INPUT_UP2 }]);
    assert!(world.bullets.is_empty());
    assert_eq!(world.players[0].reload_time, 0);
    world.step(&vec![BoxInput { val: INPUT_UP2 }]);
    assert_eq!(world.bullets.len(), 1);
}

#[test]
fn a_ready_player_without_fire_input_stays_ready() {
    let mut player = Player { handle: 0, reload_time: 0, position: Point { x: 0, y: 0 } };
    assert_eq!(player.advance(BoxInput { val: INPUT_UP }), None);
    assert_eq!(player.reload_time, 0);
}

#[test]
fn a_shot_starts_where_the_player_has_moved_to() {
    let mut player = Player { handle: 4, reload_time: 0, position: Point { x: 1, y: 2 } };
    let shot = player.advance(BoxInput { val: INPUT_RIGHT | INPUT_UP2 });
    assert_eq!(player.position, Point { x: 400_000_001, y: 2 });
    assert_eq!(
        shot,
        Some(Bullet {
            position: Point { x: 400_000_001, y: 2 },
            velocity: Velocity { val: Heading { x: 0, y: UNIT } },
            lifetime: LifeTime { val: 60 },
        })
    );
    assert_eq!(player.reload_time, 29);
    assert_eq!(player.handle, 4);
}

#[test]
fn a_bullet_moves_by_its_speed_each_frame() {
    let mut straight = bullet(10);
    straight.drift();
    assert_eq!(straight.position, Point { x: 500_000_000, y: 0 });
    assert_eq!(straight.lifetime.val, 10);
    let mut slanted = Bullet { velocity: Velocity { val: Heading { x: -DIAGONAL, y: DIAGONAL } }, ..bullet(10) };
    slanted.drift();
    assert_eq!(slanted.position, Point { x: -353_553_500, y: 353_553_500 });
    assert_eq!(500_000_000 * 60, 500 * STEPS_PER_PIXEL);
}

#[test]
fn a_new_bullet_rests_during_the_frame_of_its_spawn() {
    let mut world = lone_player();
    world.step(&vec![BoxInput { val: INPUT_RIGHT2 }]);
    assert_eq!(world.bullets[0].position, Point { x: 0, y: 0 });
    assert_eq!(world.bullets[0].lifetime.val, BULLET_LIFETIME);
    world.step(&vec![idle()]);
    assert_eq!(world.bullets[0].position, Point { x: 500_000_000, y: 0 });
    assert_eq!(world.bullets[0].lifetime.val, BULLET_LIFETIME - 1);
}

#[test]
fn a_bullet_whose_time_runs_out_leaves_in_that_frame() {
    let mut world = World { players: vec![], bullets: vec![bullet(1), bullet(2), bullet(0), bullet(3)] };
    world.age_mortals();
    let lifetimes: Vec<u32> = world.bullets.iter().map(|b| b.lifetime.val).collect();
    assert_eq!(lifetimes, vec![1, 2]);
    world.step(&vec![]);
    let lifetimes: Vec<u32> = world.bullets.iter().map(|b| b.lifetime.val).collect();
    assert_eq!(lifetimes, vec![1]);
    assert_eq!(world.bullets[0].position.x, 500_000_000);
    world.step(&vec![]);
    assert!(world.bullets.is_empty());
}

#[test]
fn ageing_tells_whether_the_bullet_lives_on() {
    let mut last_frame = bullet(1);
    assert!(!last_frame.age());
    assert_eq!(last_frame.lifetime.val, 0);
    let mut two_left = bullet(2);
    assert!(two_left.age());
    assert_eq!(two_left.lifetime.val, 1);
    let mut spent = bullet(0);
    assert!(!spent.age());
    assert_eq!(spent.lifetime.val, 0);
}

#[test]
fn shots_come_in_the_order_of_the_players() {
    let mut world = setup(3);
    let shots = world.move_players(&vec![
        BoxInput { val: INPUT_UP2 },
        idle(),
        BoxInput { val: INPUT_RIGHT2 },
    ]);
    assert_eq!(shots.len(), 2);
    assert_eq!(shots[0].position.x, 0);
    assert_eq!(shots[0].velocity.val, Heading { x: 0, y: UNIT });
    assert_eq!(shots[1].position.x, 2 * PLAYER_SPACING);
    assert_eq!(shots[1].velocity.val, Heading { x: UNIT, y: 0 });
    assert!(world.bullets.is_empty());
    let reloads: Vec<u32> = world.players.iter().map(|p| p.reload_time).collect();
    assert_eq!(reloads, vec![29, 0, 29]);
}

#[test]
fn each_player_follows_the_input_of_its_handle() {
    let mut world = setup(2);
    world.players.swap(0, 1);
    world.step(&vec![BoxInput { val: INPUT_UP }, BoxInput { val: INPUT_RIGHT }]);
    assert_eq!(world.players[0].handle, 1);
    assert_eq!(world.players[0].position, Point { x: PLAYER_SPACING + 400_000_000, y: 0 });
    assert_eq!(world.players[1].handle, 0);
    assert_eq!(world.players[1].position, Point { x: 0, y: 400_000_000 });
}

#[test]
fn a_step_is_the_three_stages_in_order() {
    let inputs = vec![BoxInput { val: INPUT_UP | INPUT_RIGHT2 }, BoxInput { val: INPUT_LEFT | INPUT_UP2 }];
    let mut whole = setup(2);
    whole.bullets = vec![bullet(1), bullet(5)];
    let mut staged = whole.snapshot();
    whole.step(&inputs);
    let mut shots = staged.move_players(&inputs);
    staged.move_objects();
    staged.age_mortals();
    staged.bullets.append(&mut shots);
    assert!(whole.same_as(&staged));
    assert_eq!(whole.bullets.len(), 3);
    assert_eq!(whole.bullets[0].lifetime.val, 4);
    assert_eq!(whole.bullets[0].position.x, 500_000_000);
}

#[test]
fn positions_stop_at_the_end_of_the_range() {
    let mut right = Player { handle: 0, reload_time: 0, position: Point { x: i64::MAX - 5, y: i64::MIN + 5 } };
    right.advance(BoxInput { val: INPUT_RIGHT });
    assert_eq!(right.position, Point { x: i64::MAX, y: i64::MIN + 5 });
    right.advance(BoxInput { val: 0x02 });
    assert_eq!(right.position, Point { x: i64::MAX, y: i64::MIN });
    let mut far = bullet(9);
    far.position = Point { x: i64::MAX - 499_999_999, y: 7 };
    far.drift();
    assert_eq!(far.position, Point { x: i64::MAX, y: 7 });
    assert_eq!(Point { x: 3, y: 4 }.shift(Heading { x: i32::MIN, y: i32::MAX }, i32::MAX),
        Point { x: 3 + (i32::MIN as i64) * (i32::MAX as i64), y: 4 + (i32::MAX as i64) * (i32::MAX as i64) });
}

#[test]
fn inputs_must_cover_every_handle() {
    let world = setup(2);
    assert!(world.covered_by(&vec![idle(), idle()]));
    assert!(world.covered_by(&vec![idle(), idle(), idle()]));
    assert!(!world.covered_by(&vec![idle()]));
    assert!(setup(0).covered_by(&vec![]));
}
