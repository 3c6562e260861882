use rollback_shooter::entity::{Bullet, LifeTime, Player, Velocity};
use rollback_shooter::input::{BoxInput, INPUT_LEFT, INPUT_RIGHT2, INPUT_UP, INPUT_UP2};
use rollback_shooter::snapshot::{DIGEST_PRIME, DIGEST_SEED};
use rollback_shooter::space::{Heading, Point};
use rollback_shooter::world::{setup, World};

fn busy_world() -> World {
    let mut world = setup(2);
    for frame in 0..45 {
        let first = if frame % 2 == 0 { INPUT_UP | INPUT_RIGHT2 } else { INPUT_LEFT };
        world.step(&vec![BoxInput { val: first }, BoxInput { val: INPUT_UP2 }]);
    }
    world
}

#[test]
fn the_digest_of_the_empty_world() {
    let world = World { players: vec![], bullets: vec![] };
    let by_hand = (DIGEST_SEED.wrapping_mul(DIGEST_PRIME)).wrapping_mul(DIGEST_PRIME);
    assert_eq!(world.checksum(), by_hand);
    assert_eq!(world.checksum(), 0x0832_8807_b4eb_6fed);
}

#[test]
fn the_digest_of_a_fresh_session() {
    assert_eq!(setup(2).checksum(), 0x23b3_5477_55a6_9abc);
}

#[test]
fn the_digest_covers_players_and_bullets() {
    let mut world = setup(1);
    world.step(&vec![BoxInput { val: INPUT_UP | INPUT_UP2 }]);
    assert_eq!(world.checksum(), 0xe08b_1b47_348c_3e1e);
    let negative = World {
        players: vec![Player { handle: 0, reload_time: 0, position: Point { x: -5, y: 0 } }],
        bullets: vec![Bullet {
            position: Point { x: 0, y: 0 },
            velocity: Velocity { val: Heading { x: -707_107, y: 707_107 } },
            lifetime: LifeTime { val: 3 },
        }],
    };
    assert_eq!(negative.checksum(), 0xdb79_69bc_0422_1003);
}

#[test]
fn every_field_changes_the_digest() {
    let base = busy_world();
    let sum = base.checksum();
    let mut changed = base.snapshot();
    changed.players[1].reload_time += 1;
    assert_ne!(changed.checksum(), sum);
    let mut changed = base.snapshot();
    changed.players[0].position.y -= 1;
    assert_ne!(changed.checksum(), sum);
    let mut changed = base.snapshot();
    changed.players[0].handle = 1;
    assert_ne!(changed.checksum(), sum);
    let mut changed = base.snapshot();
    changed.bullets[0].lifetime.val -= 1;
    assert_ne!(changed.checksum(), sum);
    let mut changed = base.snapshot();
    changed.bullets[0].velocity.val.x = 1;
    assert_ne!(changed.checksum(), sum);
    let mut changed = base.snapshot();
    changed.bullets[0].position.x += 1;
    assert_ne!(changed.checksum(), sum);
    let mut changed = base.snapshot();
    changed.bullets.pop();
    assert_ne!(changed.checksum(), sum);
}

#[test]
fn a_snapshot_is_an_equal_and_separate_copy() {
    let mut world = busy_world();
    let copy = world.snapshot();
    assert!(copy.same_as(&world));
    assert_eq!(copy.players, world.players);
    assert_eq!(copy.bullets, world.bullets);
    assert_eq!(copy.checksum(), world.checksum());
    world.step(&vec![BoxInput { val: INPUT_UP }, BoxInput { val: 0 }]);
    assert!(!copy.same_as(&world));
    assert_eq!(copy.checksum(), busy_world().checksum());
}

#[test]
fn restoring_brings_the_snapshot_back() {
    let mut world = busy_world();
    let copy = world.snapshot();
    for _ in 0..20 {
        world.step(&vec![BoxInput { val: INPUT_LEFT }, BoxInput { val: INPUT_RIGHT2 }]);
    }
    assert!(!world.same_as(&copy));
    world.restore(&copy);
    assert!(world.same_as(&copy));
    assert!(world.same_as(&busy_world()));
}

#[test]
fn worlds_differ_when_any_entity_differs() {
    let base = busy_world();
    assert!(base.same_as(&base));
    let mut other = base.snapshot();
    other.bullets.pop();
    assert!(!base.same_as(&other));
    assert!(!other.same_as(&base));
    let mut other = base.snapshot();
    other.players[1].position.x += 1;
    assert!(!base.same_as(&other));
    let mut other = base.snapshot();
    let last = other.bullets.len() - 1;
    other.bullets[last].lifetime.val += 1;
    assert!(!base.same_as(&other));
    let mut other = base.snapshot();
    other.players.pop();
    assert!(!base.same_as(&other));
}

#[test]
fn replaying_the_same_inputs_gives_the_same_world() {
    let frames: Vec<Vec<BoxInput>> = (0..200u32)
        .map(|f| vec![BoxInput { val: (f * 37 % 256) as u8 }, BoxInput { val: (f * 91 % 256) as u8 }])
        .collect();
    let mut first = setup(2);
    first.run(&frames);
    let mut second = setup(2);
    second.run(&frames);
    assert!(first.same_as(&second));
    assert_eq!(first.checksum(), second.checksum());
    assert_eq!(first.players, second.players);
    assert_eq!(first.bullets, second.bullets);
    let mut stepped = setup(2);
    for frame in &frames {
        stepped.step(frame);
    }
    assert!(stepped.same_as(&first));
}

#[test]
fn a_run_in_two_parts_is_one_run() {
    let frames: Vec<Vec<BoxInput>> =
        (0..90u32).map(|f| vec![BoxInput { val: (f * 53 % 256) as u8 }]).collect();
    let mut whole = setup(1);
    whole.run(&frames);
    let mut halves = setup(1);
    halves.run(&frames[..40].to_vec());
    halves.run(&frames[40..].to_vec());
    assert!(whole.same_as(&halves));
    let mut nothing = setup(1);
    nothing.run(&vec![]);
    assert!(nothing.same_as(&setup(1)));
}

#[test]
fn going_back_and_replaying_mends_a_wrong_guess() {
    let actual: Vec<Vec<BoxInput>> = (0..12u32)
        .map(|f| vec![BoxInput { val: INPUT_UP }, BoxInput { val: if f < 5 { INPUT_LEFT } else { INPUT_UP2 } }])
        .collect();
    let predicted: Vec<Vec<BoxInput>> =
        (0..12u32).map(|_| vec![BoxInput { val: INPUT_UP }, BoxInput { val: INPUT_LEFT }]).collect();
    let mut straight = setup(2);
    straight.run(&actual);

    let mut world = setup(2);
    let mut before_frame = Vec::new();
    for frame in &predicted {
        before_frame.push(world.snapshot());
        world.step(frame);
    }
    assert!(!world.same_as(&straight));
    world.restore(&before_frame[5]);
    world.run(&actual[5..].to_vec());
    assert!(world.same_as(&straight));
    assert_eq!(world.checksum(), straight.checksum());
    assert_eq!(world.bullets.len(), 1);
}
