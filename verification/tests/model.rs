//! The session against a plain model of the game that computes with the
//! fixed-point numbers of `agb_fixnum`.
use agb_fixnum::{Num, Vector2D};
use dino_runner::enemy::EnemyKind;
use dino_runner::fixnum::Number;
use dino_runner::game::{Game, GameState, Input, Settings};
use std::collections::VecDeque;

type N = Num<i32, 8>;

#[derive(Debug, Clone, Copy, PartialEq)]
enum Kind {
    Bird,
    Cactus,
}

#[derive(Debug, Clone, Copy)]
struct E {
    kind: Kind,
    position: Vector2D<N>,
}

#[derive(Clone, Copy, PartialEq, Debug)]
enum State {
    Continue,
    Pause,
    Over(u32),
    Restart,
}

struct Model {
    max: usize,
    frames_to_level_up: u32,
    inc: N,
    jump_duration: u16,
    state: State,
    frame_count: u32,
    speed_level: u16,
    background_position: Vector2D<N>,
    scroll_velocity: N,
    gravity: N,
    player_pos: Vector2D<N>,
    vertical_speed: N,
    is_jumping: bool,
    enemies: VecDeque<E>,
    frames_current_level: u32,
    frames_since_last_spawn: u32,
    spawn_queue: VecDeque<u8>,
}

/// Whether two rectangles, each given by corner and size, share a point.
fn touches(a: (i64, i64, i64, i64), b: (i64, i64, i64, i64)) -> bool {
    a.0 <= b.0 + b.2 && a.0 + a.2 >= b.0 && a.1 <= b.1 + b.3 && a.1 + a.3 >= b.1
}

impl Model {
    fn new(v: i32, inc: i32, level: u32, h: u16, d: u16, max: usize) -> Self {
        Model {
            max,
            frames_to_level_up: level,
            inc: N::from_raw(inc),
            jump_duration: d,
            state: State::Continue,
            frame_count: 0,
            speed_level: 0,
            background_position: (0, 0).into(),
            scroll_velocity: N::from_raw(v),
            gravity: N::new(2 * h as i32) / N::new(d.pow(2) as i32),
            player_pos: (16, 82).into(),
            vertical_speed: N::new(0),
            is_jumping: false,
            enemies: VecDeque::new(),
            frames_current_level: 0,
            frames_since_last_spawn: 0,
            spawn_queue: VecDeque::new(),
        }
    }

    fn frame(&mut self, start: bool, a: bool, rnd: u32) -> State {
        if start {
            match self.state {
                State::Continue => {
                    self.state = State::Pause;
                    return self.state;
                }
                State::Pause => {
                    self.state = State::Continue;
                    return self.state;
                }
                _ => {}
            };
        }
        match self.state {
            State::Over(_) => {
                if a || start {
                    self.state = State::Restart;
                }
                return self.state;
            }
            State::Pause => {
                return self.state;
            }
            _ => {}
        }
        self.frame_count += 1;
        self.frames_current_level += 1;
        self.frames_since_last_spawn += 1;
        if self.spawn_queue.is_empty() {
            for i in 0..4 {
                self.spawn_queue.push_back(((rnd >> (i * 8)) & 0xFF) as u8);
            }
        }
        if self.frames_current_level >= self.frames_to_level_up {
            self.scroll_velocity += self.inc;
            self.speed_level += 1;
            self.frames_current_level = 0;
        }
        if self.is_jumping {
            self.player_pos.y += self.vertical_speed;
            let player_y_px = self.player_pos.y.floor();
            if player_y_px >= 82 {
                self.player_pos.y = Num::new(82);
                self.is_jumping = false;
            }
            self.vertical_speed += self.gravity;
        } else if a {
            self.vertical_speed = -self.gravity * (self.jump_duration as i32);
            self.is_jumping = true;
        }
        let front = *self.spawn_queue.front().unwrap();
        if self.frames_since_last_spawn > (front & 0b111) as u32 * 12 + 40 {
            let b = self.spawn_queue.pop_front().unwrap();
            self.frames_since_last_spawn = 0;
            if self.enemies.len() < self.max {
                let enemy = if ((b & 0b111000) >> 3) < 4 {
                    let spawn_y = (((b & 0b11000000) >> 6) as i32 + 6) * 8;
                    E { kind: Kind::Bird, position: (8 * 30, spawn_y).into() }
                } else {
                    E { kind: Kind::Cactus, position: (8 * 30, 82).into() }
                };
                self.enemies.push_back(enemy);
            }
        }
        let p = (
            9 + self.player_pos.x.floor() as i64,
            4 + self.player_pos.y.floor() as i64,
            18,
            27,
        );
        let mut total_enemies_out: usize = 0;
        let mut is_collided = false;
        for enemy in self.enemies.iter_mut() {
            if enemy.position.x.floor() < -32 {
                total_enemies_out += 1;
            } else {
                enemy.position.x -= self.scroll_velocity;
                if self.player_pos.x <= enemy.position.x + 32
                    && enemy.position.x <= self.player_pos.x + 32
                {
                    let r = match enemy.kind {
                        Kind::Bird => (1, 13, 28, 7),
                        Kind::Cactus => (1, 6, 27, 25),
                    };
                    let e = (
                        r.0 + enemy.position.x.floor() as i64,
                        r.1 + enemy.position.y.floor() as i64,
                        r.2,
                        r.3,
                    );
                    if touches(e, p) {
                        is_collided = true;
                    }
                }
            };
        }
        if is_collided {
            let score = if self.frame_count < 6000000 { self.frame_count / 6 } else { 999999 };
            self.state = State::Over(score);
        }
        self.enemies.drain(..total_enemies_out);
        self.background_position.x += self.scroll_velocity;
        self.state
    }
}

struct Draws(u64);

impl Draws {
    fn next(&mut self) -> u32 {
        self.0 = self.0.wrapping_mul(6364136223846793005).wrapping_add(1442695040888963407);
        (self.0 >> 32) as u32
    }
}

fn assert_same(game: &Game, model: &Model) {
    let state = match model.state {
        State::Continue => GameState::Continue,
        State::Pause => GameState::Pause,
        State::Over(s) => GameState::Over(s),
        State::Restart => GameState::Restart,
    };
    assert_eq!(game.state(), state);
    assert_eq!(game.frame_count(), model.frame_count);
    assert_eq!(game.speed_level(), model.speed_level);
    assert_eq!(game.scroll_velocity().to_raw(), model.scroll_velocity.to_raw());
    assert_eq!(game.gravity().to_raw(), model.gravity.to_raw());
    assert_eq!(game.background_position().x.to_raw(), model.background_position.x.to_raw());
    assert_eq!(game.player().position.x.to_raw(), model.player_pos.x.to_raw());
    assert_eq!(game.player().position.y.to_raw(), model.player_pos.y.to_raw());
    assert_eq!(game.player().vertical_speed.to_raw(), model.vertical_speed.to_raw());
    assert_eq!(game.player().is_jumping, model.is_jumping);
    assert_eq!(game.enemy_count(), model.enemies.len());
    assert_eq!(game.spawn_queue_len(), model.spawn_queue.len());
    for i in 0..model.enemies.len() {
        let e = game.enemy(i);
        assert_eq!(e.position.x.to_raw(), model.enemies[i].position.x.to_raw());
        assert_eq!(e.position.y.to_raw(), model.enemies[i].position.y.to_raw());
        let kind = match e.kind {
            EnemyKind::Bird => Kind::Bird,
            EnemyKind::Cactus => Kind::Cactus,
        };
        assert_eq!(kind, model.enemies[i].kind);
    }
}

#[test]
fn session_agrees_with_the_model_frame_by_frame() {
    let mut random = Draws(99);
    let mut sessions = 0;
    let mut overs = 0;
    for _ in 0..400u32 {
        let v = 300 + (random.next() % 1500) as i32;
        let inc = (random.next() % 100) as i32;
        let level = 50 + random.next() % 2000;
        let h = 10 + (random.next() % 80) as u16;
        let d = 4 + (random.next() % 30) as u16;
        let max = (random.next() % 5) as usize;
        let settings = Settings {
            init_scroll_velocity: Number::from_raw(v),
            scroll_velocity_increase_per_level: Number::from_raw(inc),
            frames_to_level_up: level,
            animation_interval_frames: 10,
            spawn_interval_frames: 60,
            jump_height_px: h,
            jump_duration_frames: d,
            max_enemies_displayed: max,
            hi_score: 0,
        };
        let mut game = Game::from_settings(settings);
        let mut model = Model::new(v, inc, level, h, d, max);
        sessions += 1;
        let jumpy = 2 + random.next() % 40;
        for _ in 0..3000 {
            let draw = random.next();
            let start = draw % 211 == 0;
            let a = (draw >> 8) % jumpy == 0;
            let rnd = random.next();
            let report = game.frame(Input { start_pressed: start, action_pressed: a }, rnd);
            let state = model.frame(start, a, rnd);
            assert_same(&game, &model);
            if let State::Over(_) = state {
                overs += 1;
            }
            if report.state == GameState::Restart {
                break;
            }
        }
    }
    assert!(sessions == 400 && overs > 100);
}
