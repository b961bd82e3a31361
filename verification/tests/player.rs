use dino_runner::fixnum::Number;
use dino_runner::player::gravity_for;
use dino_runner::player::Player;

const GROUND: i32 = 82 * 256;

#[test]
fn player_starts_at_rest_on_the_ground() {
    let player = Player::new();
    assert_eq!(player.position.x.to_raw(), 16 * 256);
    assert_eq!(player.position.y.to_raw(), GROUND);
    assert_eq!(player.position.floor().x, 16);
    assert_eq!(player.position.floor().y, 82);
    assert_eq!(player.vertical_speed.to_raw(), 0);
    assert!(!player.is_jumping);
}

#[test]
fn gravity_is_twice_the_height_over_the_squared_duration() {
    assert_eq!(gravity_for(45, 16).to_raw(), 90);
    assert_eq!(gravity_for(60, 18).to_raw(), 94);
    assert_eq!(gravity_for(1, 1).to_raw(), 512);
    assert_eq!(gravity_for(0, 7).to_raw(), 0);
    assert_eq!(gravity_for(65_535, 1).to_raw(), 33_553_920);
    assert_eq!(gravity_for(1, 22).to_raw(), 1);
    assert_eq!(gravity_for(1, 23).to_raw(), 0);
    assert_eq!(gravity_for(65_535, 65_535).to_raw(), 0);
    assert_eq!(gravity_for(65_535, 46_341).to_raw(), 0);
    assert_eq!(gravity_for(65_535, 5_000).to_raw(), 1);
}

#[test]
fn standing_player_does_not_move_without_a_press() {
    let mut player = Player::new();
    let jumped = player.step(false, gravity_for(45, 16), 16);
    assert!(!jumped);
    assert_eq!(player, Player::new());
}

#[test]
fn press_on_the_ground_gives_the_impulse_and_keeps_the_position() {
    let mut player = Player::new();
    let jumped = player.step(true, Number::from_raw(90), 16);
    assert!(jumped);
    assert!(player.is_jumping);
    assert_eq!(player.vertical_speed.to_raw(), -1440);
    assert_eq!(player.position, Player::new().position);
}

#[test]
fn in_the_air_motion_comes_before_acceleration() {
    let mut player = Player::new();
    player.step(true, Number::from_raw(90), 16);
    let jumped = player.step(true, Number::from_raw(90), 16);
    assert!(!jumped);
    assert_eq!(player.position.y.to_raw(), GROUND - 1440);
    assert_eq!(player.vertical_speed.to_raw(), -1350);
    player.step(false, Number::from_raw(90), 16);
    assert_eq!(player.position.y.to_raw(), GROUND - 1440 - 1350);
    assert_eq!(player.vertical_speed.to_raw(), -1260);
    assert!(player.is_jumping);
}

#[test]
fn landing_clamps_to_the_ground_and_keeps_accumulating_speed() {
    let mut player = Player::new();
    player.is_jumping = true;
    player.position.y = Number::from_raw(GROUND - 100);
    player.vertical_speed = Number::from_raw(700);
    let jumped = player.step(false, Number::from_raw(90), 16);
    assert!(!jumped);
    assert!(!player.is_jumping);
    assert_eq!(player.position.y.to_raw(), GROUND);
    assert_eq!(player.vertical_speed.to_raw(), 790);
}

#[test]
fn jump_leaves_the_ground_and_returns_exactly() {
    let gravity = gravity_for(45, 16);
    let mut player = Player::new();
    assert!(player.step(true, gravity, 16));
    let mut highest = 0;
    for frame in 1..=32 {
        player.step(false, gravity, 16);
        assert!(player.is_jumping, "in the air at frame {}", frame);
        assert!(player.position.y.to_raw() < GROUND, "above the ground at frame {}", frame);
        assert!(player.position.floor().y < 82);
        highest = highest.max(GROUND - player.position.y.to_raw());
        if frame == 1 {
            assert_eq!(player.position.y.to_raw(), GROUND - 1440);
        }
        if frame == 16 || frame == 17 {
            assert_eq!(player.position.y.to_raw(), GROUND - 12_240);
        }
    }
    player.step(false, gravity, 16);
    assert!(!player.is_jumping);
    assert_eq!(player.position.y.to_raw(), GROUND);
    assert_eq!(player.position.floor().y, 82);
    assert_eq!(highest, 12_240);
}

#[test]
fn jump_arc_follows_the_closed_form() {
    for (height, duration) in [(45u16, 16u16), (60, 18), (1, 1), (10, 3), (200, 40), (30, 100)] {
        let gravity = gravity_for(height, duration);
        let g = gravity.to_raw() as i64;
        let d = duration as i64;
        assert!(g > 0);
        let mut player = Player::new();
        player.step(true, gravity, duration);
        let mut highest = 0i64;
        for k in 1..=2 * d {
            player.step(false, gravity, duration);
            assert!(player.is_jumping);
            let climbed = (GROUND - player.position.y.to_raw()) as i64;
            assert_eq!(2 * climbed, g * k * (2 * d + 1 - k));
            assert_eq!(player.vertical_speed.to_raw() as i64, g * (k - d));
            highest = highest.max(climbed);
        }
        player.step(false, gravity, duration);
        assert!(!player.is_jumping);
        assert_eq!(player.position.y.to_raw(), GROUND);
        assert_eq!(2 * highest, g * d * (d + 1));
        assert!(2 * d * highest <= 512 * height as i64 * (d + 1));
        assert!((512 * height as i64 - d * d) * (d + 1) < 2 * d * highest);
    }
}

#[test]
fn jump_without_gravity_ends_on_the_next_frame() {
    let gravity = gravity_for(1, 23);
    assert_eq!(gravity.to_raw(), 0);
    let mut player = Player::new();
    assert!(player.step(true, gravity, 23));
    assert!(player.is_jumping);
    player.step(false, gravity, 23);
    assert_eq!(player, Player::new());
}

#[test]
fn hit_box_follows_the_floored_position() {
    let mut player = Player::new();
    let standing = player.hit_box();
    assert_eq!((standing.left, standing.top, standing.right, standing.bottom), (25, 86, 43, 113));
    player.position.y = Number::from_raw(GROUND - 1440);
    let flying = player.hit_box();
    assert_eq!((flying.left, flying.top, flying.right, flying.bottom), (25, 80, 43, 107));
}
