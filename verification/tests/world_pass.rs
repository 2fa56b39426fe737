use rusteroids::asteroid::{Asteroid, AsteroidSpawn};
use rusteroids::render::{DrawCmd, SpriteKind};
use rusteroids::ship::ACCELERATION;
use rusteroids::util::{Direction, Rotor, Vec2};
use rusteroids::world::{World, ASTEROID_COUNT};
use rusteroids::{SCALE, TAU};

const W: i64 = 200 * SCALE;
const H: i64 = 150 * SCALE;

fn identity() -> Rotor {
    Rotor { cos: SCALE, sin: 0 }
}

fn rotor_for(angle_fp: i64) -> Rotor {
    let a = angle_fp as f64 / SCALE as f64;
    Rotor {
        cos: (a.cos() * SCALE as f64).round() as i64,
        sin: (a.sin() * SCALE as f64).round() as i64,
    }
}

fn test_asteroid(x: i64, y: i64, heading: i64) -> Asteroid {
    let spawn = AsteroidSpawn {
        position: Vec2 { x, y },
        heading,
        rotation_direction: Direction::Right,
    };
    Asteroid::new(spawn, rotor_for(heading))
}

#[test]
fn new_world_holds_one_ship_and_the_given_asteroids() {
    let asteroids = vec![test_asteroid(1_000, 2_000, 0), test_asteroid(3_000, 4_000, 500)];
    let w = World::new(asteroids);
    assert_eq!(w.ships.len(), 1);
    assert_eq!(w.asteroids.len(), 2);
    assert_eq!(w.ships[0].common.position, Vec2 { x: 100 * SCALE, y: 100 * SCALE });
    assert_eq!(w.asteroids[0].common.position, Vec2 { x: 1_000, y: 2_000 });
}

#[test]
fn startup_world_has_twenty_obstacles() {
    let mut asteroids = Vec::new();
    for _ in 0..ASTEROID_COUNT {
        let spawn = Asteroid::sample_spawn(W, H);
        let a = Asteroid::new(spawn, rotor_for(spawn.heading));
        assert!(0 <= a.common.position.x && a.common.position.x < W);
        assert!(0 <= a.common.position.y && a.common.position.y < H);
        assert!(0 <= a.common.rotation && a.common.rotation < TAU);
        asteroids.push(a);
    }
    let w = World::new(asteroids);
    assert_eq!(w.asteroids.len(), 20);
    assert_eq!(w.ships.len(), 1);
}

#[test]
fn intents_pass_through_to_the_single_ship() {
    let mut w = World::new(vec![]);
    assert_eq!(w.get_ship_turning(), None);
    w.set_ship_turning(Some(Direction::Left));
    assert_eq!(w.get_ship_turning(), Some(Direction::Left));
    assert_eq!(w.ships[0].get_turning(), Some(Direction::Left));
    w.set_ship_turning(None);
    assert_eq!(w.get_ship_turning(), None);
    w.set_ship_thruster_on(true);
    assert!(w.ships[0].thrusters_on);
}

#[test]
fn update_steps_every_ship_then_every_asteroid() {
    let mut w = World::new(vec![test_asteroid(1_000, 2_000, 0)]);
    w.set_ship_thruster_on(true);
    w.ships[0].common.rotation = 0;
    let rotors = vec![rotor_for(w.ship_next_rotation())];
    w.update(W, H, &rotors);
    assert_eq!(w.ships[0].common.velocity, Vec2 { x: 0, y: -ACCELERATION });
    // The asteroid moved by its velocity (the base vector at heading 0,
    // pointing up) and turned by its fixed step.
    assert_eq!(w.asteroids[0].common.position, Vec2 { x: 1_000, y: 1_600 });
    assert_eq!(w.asteroids[0].common.rotation, 20);
}

#[test]
fn host_driven_ticks_keep_the_ship_inside_the_world() {
    let mut w = World::new(vec![]);
    w.set_ship_thruster_on(true);
    w.set_ship_turning(Some(Direction::Right));
    for _ in 0..2_000 {
        let rotors = vec![rotor_for(w.ship_next_rotation())];
        w.update(W, H, &rotors);
        let p = w.ships[0].common.position;
        assert!(0 <= p.x && p.x < W);
        assert!(0 <= p.y && p.y < H);
        let r = w.ships[0].common.rotation;
        assert!(-TAU < r && r < TAU);
    }
}

#[test]
fn draw_emits_every_obstacle_strictly_before_any_craft() {
    let asteroids = vec![
        test_asteroid(1_000, 2_000, 0),
        test_asteroid(3_000, 4_000, 1_000),
        test_asteroid(5_000, 6_000, 2_000),
    ];
    let w = World::new(asteroids);
    let rotors = vec![identity()];
    let cmds = w.draw_commands(W, H, &rotors, true);
    assert_eq!(cmds.len(), 3 + 19);
    // An instrumented pass: record which entity each command belongs to
    // and check the order.
    let mut kinds: Vec<&str> = Vec::new();
    for c in &cmds {
        kinds.push(match c {
            DrawCmd::Sprite { kind: SpriteKind::Asteroid, .. } => "obstacle",
            DrawCmd::Sprite { kind: SpriteKind::Ship, .. } => "craft",
            DrawCmd::Label { .. } => "craft",
            DrawCmd::Marker { .. } => "craft",
        });
    }
    let first_craft = kinds.iter().position(|k| *k == "craft").unwrap();
    assert_eq!(first_craft, 3);
    assert!(kinds[..3].iter().all(|k| *k == "obstacle"));
    assert!(kinds[3..].iter().all(|k| *k == "craft"));
    // The three obstacle commands are the asteroids' own, in order.
    for i in 0..3 {
        assert_eq!(cmds[i], w.asteroids[i].draw_command());
    }
    // Without debug mode there is no marker.
    let cmds = w.draw_commands(W, H, &rotors, false);
    assert_eq!(cmds.len(), 3 + 18);
    assert!(cmds.iter().all(|c| !matches!(c, DrawCmd::Marker { .. })));
}
