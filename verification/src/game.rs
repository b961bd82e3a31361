//! The game session: one call advances the world by one frame.
//!
//! A session owns the player, the pool of enemies and the spawn queue. The
//! caller samples the buttons and draws a random value, the session decides
//! what happens, and the caller plays the sounds and scrolls the background
//! that the report names.
use vstd::prelude::*;
use std::collections::VecDeque;
use crate::enemy::advance_pool;
use crate::enemy::any_collision;
use crate::enemy::count_off_screen;
use crate::enemy::in_order;
use crate::enemy::pool_after;
use crate::enemy::prune;
use crate::enemy::Enemy;
use crate::fixnum::Number;
use crate::fixnum::Vector2D;
use crate::player::gravity_for;
use crate::player::gravity_spec;
use crate::player::Player;
use crate::spawn::spawn_batch;
use crate::spawn::spawn_batch_spec;
use crate::spawn::SpawnInfo;
use crate::spawn::SPAWN_BATCH;
use crate::spawn::SPAWN_X;

verus! {

/// Frames that one point of score takes.
pub const FRAMES_PER_POINT: u32 = 6;

/// Number of frames from which the score no longer grows.
pub const SCORE_FRAME_LIMIT: u32 = 6_000_000;

/// The highest score.
pub const MAX_SCORE: u32 = 999_999;

/// What a session is set up with. It does not change while the session lasts.
#[derive(Clone, Copy, Debug, PartialEq, Eq, Structural)]
pub struct Settings {
    /// How far the world moves on each frame of the first level.
    pub init_scroll_velocity: Number,
    /// What every level-up adds to the scroll velocity.
    pub scroll_velocity_increase_per_level: Number,
    /// Frames that a level lasts.
    pub frames_to_level_up: u32,
    /// Frames that each picture of an animation is shown for.
    pub animation_interval_frames: u16,
    /// A spawn interval for the caller's use. The session takes the delay
    /// of every spawn from its spawn queue.
    pub spawn_interval_frames: u16,
    /// Height that a jump is to reach, in pixels.
    pub jump_height_px: u16,
    /// Frames that a jump rises for. Not zero.
    pub jump_duration_frames: u16,
    /// Most enemies that the pool holds at a time.
    pub max_enemies_displayed: usize,
    /// The high score that the session was started with.
    pub hi_score: u32,
}

/// Where a session stands.
#[derive(Clone, Copy, Debug, PartialEq, Eq, Structural)]
pub enum GameState {
    /// The world advances.
    Continue,
    /// The world stands still until the pause button is pressed again.
    Pause,
    /// The player was hit. The score of the session is final.
    Over(u32),
    /// The session is finished and a new one is to be made.
    Restart,
}

/// The buttons that went down since the previous frame.
#[derive(Clone, Copy, Debug, PartialEq, Eq, Structural)]
pub struct Input {
    /// The pause button, which also restarts after the game is over.
    pub start_pressed: bool,
    /// The jump button, which also confirms a restart.
    pub action_pressed: bool,
}

/// What one frame did, for the caller to act on.
#[derive(Clone, Copy, Debug, PartialEq, Eq, Structural)]
pub struct FrameReport {
    /// The state of the session after the frame.
    pub state: GameState,
    /// The scroll velocity went up: the level-up sound is due.
    pub level_up: bool,
    /// A jump started: the jump sound is due.
    pub jumped: bool,
    /// The player was hit: the game-over sound is due.
    pub collided: bool,
    /// Where the background is to be scrolled to, in whole pixels, on the
    /// frames that advanced the world.
    pub background: Option<Vector2D<i32>>,
}

/// The score after `frame_count` frames of play: one point every six
/// frames, up to the highest score.
pub open spec fn score_spec(frame_count: u32) -> u32 {
    if frame_count < SCORE_FRAME_LIMIT {
        frame_count / FRAMES_PER_POINT
    } else {
        MAX_SCORE
    }
}

/// A counter of frames one frame later. It starts over after the last value
/// that 32 bits hold.
pub open spec fn next_count(count: u32) -> u32 {
    if count == u32::MAX {
        0
    } else {
        (count + 1) as u32
    }
}

/// A session as a plain value.
pub struct GameModel {
    pub settings: Settings,
    pub state: GameState,
    pub frame_count: u32,
    pub speed_level: u16,
    pub background_position: Vector2D<Number>,
    pub scroll_velocity: Number,
    pub gravity: Number,
    pub player: Player,
    pub enemies: Seq<Enemy>,
    pub frames_current_level: u32,
    pub frames_since_last_spawn: u32,
    pub spawn_queue: Seq<SpawnInfo>,
}

impl GameModel {
    /// A fresh session.
    pub open spec fn initial(settings: Settings) -> GameModel {
        GameModel {
            settings,
            state: GameState::Continue,
            frame_count: 0,
            speed_level: 0,
            background_position: Vector2D { x: Number { raw: 0 }, y: Number { raw: 0 } },
            scroll_velocity: settings.init_scroll_velocity,
            gravity: gravity_spec(settings.jump_height_px, settings.jump_duration_frames),
            player: Player::new_spec(),
            enemies: Seq::empty(),
            frames_current_level: 0,
            frames_since_last_spawn: 0,
            spawn_queue: Seq::empty(),
        }
    }

    /// What holds of every session: the pool is within its bound, the spawn
    /// queue holds at most one batch, and gravity is the one of the settings.
    pub open spec fn wf(self) -> bool {
        &&& self.enemies.len() <= self.settings.max_enemies_displayed
        &&& self.spawn_queue.len() <= SPAWN_BATCH
        &&& self.settings.jump_duration_frames > 0
        &&& self.gravity == gravity_spec(
            self.settings.jump_height_px,
            self.settings.jump_duration_frames,
        )
    }

    /// The score so far.
    pub open spec fn score(self) -> u32 {
        score_spec(self.frame_count)
    }

    /// Whether a frame with this input advances the world: only while the
    /// session continues, and not on the frame that pauses it.
    pub open spec fn simulates(self, input: Input) -> bool {
        self.state == GameState::Continue && !input.start_pressed
    }

    /// Whether a frame with this input uses the random value it is given:
    /// the world advances and the spawn queue is empty.
    pub open spec fn wants_random(self, input: Input) -> bool {
        self.simulates(input) && self.spawn_queue.len() == 0
    }

    /// The state after a frame that does not advance the world. The pause
    /// button toggles between play and pause; once the game is over, either
    /// button asks for a restart; a finished session stays finished.
    pub open spec fn control(self, input: Input) -> GameState {
        match self.state {
            GameState::Continue => if input.start_pressed {
                GameState::Pause
            } else {
                GameState::Continue
            },
            GameState::Pause => if input.start_pressed {
                GameState::Continue
            } else {
                GameState::Pause
            },
            GameState::Over(score) => if input.action_pressed || input.start_pressed {
                GameState::Restart
            } else {
                GameState::Over(score)
            },
            GameState::Restart => GameState::Restart,
        }
    }

    /// First step of a frame: the three frame counters go up by one.
    pub open spec fn tick(self) -> GameModel {
        GameModel {
            frame_count: next_count(self.frame_count),
            frames_current_level: next_count(self.frames_current_level),
            frames_since_last_spawn: next_count(self.frames_since_last_spawn),
            ..self
        }
    }

    /// Second step: an empty spawn queue is filled with the four decisions
    /// that the random value holds.
    pub open spec fn refill(self, random: u32) -> GameModel {
        if self.spawn_queue.len() == 0 {
            GameModel { spawn_queue: spawn_batch_spec(random), ..self }
        } else {
            self
        }
    }

    /// Whether the level is complete.
    pub open spec fn levels_up(self) -> bool {
        self.frames_current_level >= self.settings.frames_to_level_up
    }

    /// Third step: when the level is complete the world scrolls faster and
    /// the next level begins.
    pub open spec fn level_up(self) -> GameModel {
        if self.levels_up() {
            GameModel {
                scroll_velocity: self.scroll_velocity.add_spec(
                    self.settings.scroll_velocity_increase_per_level,
                ),
                speed_level: if self.speed_level == u16::MAX {
                    0
                } else {
                    (self.speed_level + 1) as u16
                },
                frames_current_level: 0,
                ..self
            }
        } else {
            self
        }
    }

    /// Fourth step: the player moves.
    pub open spec fn move_player(self, input: Input) -> GameModel {
        GameModel {
            player: self.player.step_spec(
                input.action_pressed,
                self.gravity,
                self.settings.jump_duration_frames,
            ),
            ..self
        }
    }

    /// Whether a spawn is due: more frames have passed since the last one
    /// than the decision at the front of the queue asks for.
    pub open spec fn spawn_due(self) -> bool {
        self.spawn_queue.len() > 0 && self.frames_since_last_spawn
            > self.spawn_queue[0].delay_spec()
    }

    /// Whether the pool has room for one more enemy.
    pub open spec fn has_room(self) -> bool {
        self.enemies.len() < self.settings.max_enemies_displayed
    }

    /// Fifth step: when a spawn is due, the decision at the front of the
    /// queue is used up and the wait starts over. Its enemy joins the pool
    /// at the back if the pool has room, and is dropped if not.
    pub open spec fn spawn(self) -> GameModel {
        if self.spawn_due() {
            GameModel {
                spawn_queue: self.spawn_queue.skip(1),
                frames_since_last_spawn: 0,
                enemies: if self.has_room() {
                    self.enemies.push(self.spawn_queue[0].enemy_spec())
                } else {
                    self.enemies
                },
                ..self
            }
        } else {
            self
        }
    }

    /// Whether some enemy hits the player as the pool moves.
    pub open spec fn collides(self) -> bool {
        any_collision(self.enemies, self.player, self.scroll_velocity)
    }

    /// Sixth step: every enemy on the screen moves left. A hit ends the
    /// game with the score of this frame. As many enemies as were off the
    /// screen leave the pool at its front.
    pub open spec fn move_enemies(self) -> GameModel {
        GameModel {
            enemies: pool_after(self.enemies, self.scroll_velocity),
            state: if self.collides() {
                GameState::Over(self.score())
            } else {
                self.state
            },
            ..self
        }
    }

    /// Last step: the background scrolls on.
    pub open spec fn scroll(self) -> GameModel {
        GameModel {
            background_position: Vector2D {
                x: self.background_position.x.add_spec(self.scroll_velocity),
                y: self.background_position.y,
            },
            ..self
        }
    }

    /// The session right before the enemies move, on a frame that advances
    /// the world.
    pub open spec fn before_enemies(self, input: Input, random: u32) -> GameModel {
        self.tick().refill(random).level_up().move_player(input).spawn()
    }

    /// The session one frame later.
    pub open spec fn next(self, input: Input, random: u32) -> GameModel {
        if self.simulates(input) {
            self.before_enemies(input, random).move_enemies().scroll()
        } else {
            GameModel { state: self.control(input), ..self }
        }
    }

    /// What the frame reports to the caller.
    pub open spec fn report(self, input: Input, random: u32) -> FrameReport {
        if self.simulates(input) {
            FrameReport {
                state: self.next(input, random).state,
                level_up: self.tick().refill(random).levels_up(),
                jumped: self.player.starts_jump(input.action_pressed),
                collided: self.before_enemies(input, random).collides(),
                background: Some(self.next(input, random).background_position.floor_spec()),
            }
        } else {
            FrameReport {
                state: self.control(input),
                level_up: false,
                jumped: false,
                collided: false,
                background: None,
            }
        }
    }
}

impl GameModel {
    /// The session after the frames whose inputs and random values
    /// `frames` lists, first frame first.
    pub open spec fn run(self, frames: Seq<(Input, u32)>) -> GameModel
        decreases frames.len(),
    {
        if frames.len() == 0 {
            self
        } else {
            self.run(frames.drop_last()).next(frames.last().0, frames.last().1)
        }
    }
}

/// The pool of enemies never holds more than the settings allow, whatever
/// the buttons, the random values and the spawn queue: a frame takes a pool
/// within its bound to a pool within its bound, and keeps a well-formed
/// session well-formed.
pub proof fn lemma_frame_keeps_pool_bounded(m: GameModel, input: Input, random: u32)
    requires
        m.enemies.len() <= m.settings.max_enemies_displayed,
    ensures
        m.next(input, random).enemies.len() <= m.settings.max_enemies_displayed,
        m.next(input, random).settings == m.settings,
        m.wf() ==> m.next(input, random).wf(),
{
    if m.simulates(input) {
        crate::enemy::lemma_count_off_screen_bound(m.before_enemies(input, random).enemies);
    }
}

/// From a fresh session on, after any number of frames, the pool of
/// enemies holds no more than the settings allow.
pub proof fn lemma_pool_is_always_bounded(settings: Settings, frames: Seq<(Input, u32)>)
    requires
        settings.jump_duration_frames > 0,
    ensures
        GameModel::initial(settings).run(frames).wf(),
        GameModel::initial(settings).run(frames).settings == settings,
        GameModel::initial(settings).run(frames).enemies.len() <= settings.max_enemies_displayed,
    decreases frames.len(),
{
    if frames.len() > 0 {
        lemma_pool_is_always_bounded(settings, frames.drop_last());
        lemma_frame_keeps_pool_bounded(
            GameModel::initial(settings).run(frames.drop_last()),
            frames.last().0,
            frames.last().1,
        );
    }
}

/// Enemies leave the pool in the order in which they came. On a frame
/// that advances the world the pool first grows at the back by at most one
/// enemy; then some number of entries leave at the front, and those that
/// stay keep their order. So no enemy leaves after one that came later.
/// On any other frame the pool stays as it is.
pub proof fn lemma_pool_is_first_in_first_out(m: GameModel, input: Input, random: u32)
    ensures
        !m.simulates(input) ==> m.next(input, random).enemies == m.enemies,
        m.simulates(input) ==> ({
            let pool = m.before_enemies(input, random).enemies;
            let velocity = m.before_enemies(input, random).scroll_velocity;
            let after = m.next(input, random).enemies;
            let gone = pool.len() - after.len();
            &&& pool == m.enemies || (pool.len() == m.enemies.len() + 1 && pool.drop_last()
                == m.enemies)
            &&& 0 <= gone <= pool.len()
            &&& gone == count_off_screen(pool)
            &&& forall|i: int|
                0 <= i < after.len() ==> after[i] == (#[trigger] pool[i + gone]).advance_spec(
                    velocity,
                )
        }),
{
    if m.simulates(input) {
        let pool = m.before_enemies(input, random).enemies;
        crate::enemy::lemma_count_off_screen_bound(pool);
        let fed = m.tick().refill(random).level_up().move_player(input);
        if fed.spawn_due() && fed.has_room() {
            assert(pool.drop_last() =~= m.enemies);
        }
    }
}

/// Whether the pool is in order from left to right and no enemy stands to
/// the right of where enemies appear.
pub open spec fn pool_in_order(pool: Seq<Enemy>) -> bool {
    &&& in_order(pool)
    &&& forall|i: int| 0 <= i < pool.len() ==> (#[trigger] pool[i]).position.x.raw <= SPAWN_X * 256
}

/// While the world scrolls to the left the pool stays in order, and the
/// enemies that leave it are exactly those that were off the screen.
///
/// Enemies appear at the right edge behind all others and all move left
/// alike, so the one that came first is the first to leave the screen.
/// The scroll velocity is the one of this frame, after a level-up.
pub proof fn lemma_pool_stays_in_order(m: GameModel, input: Input, random: u32)
    requires
        m.simulates(input),
        pool_in_order(m.enemies),
        0 <= m.before_enemies(input, random).scroll_velocity.raw <= 0x4000_0000,
    ensures
        ({
            let pool = m.before_enemies(input, random).enemies;
            let after = m.next(input, random).enemies;
            let gone = pool.len() - after.len();
            &&& pool_in_order(after)
            &&& 0 <= gone <= pool.len()
            &&& forall|i: int| 0 <= i < gone ==> (#[trigger] pool[i]).off_screen_spec()
            &&& forall|i: int| gone <= i < pool.len() ==> !(#[trigger] pool[i]).off_screen_spec()
        }),
{
    let before = m.before_enemies(input, random);
    let pool = before.enemies;
    let fed = m.tick().refill(random).level_up().move_player(input);
    assert(fed.enemies == m.enemies);
    if fed.spawn_due() && fed.has_room() {
        let new = fed.spawn_queue[0].enemy_spec();
        assert(pool == m.enemies.push(new));
        crate::fixnum::lemma_wrap_in_range(SPAWN_X * 256);
        assert(new.position.x.raw == SPAWN_X * 256);
        assert forall|i: int, j: int| 0 <= i <= j < pool.len() implies (
        #[trigger] pool[i]).position.x.raw <= (#[trigger] pool[j]).position.x.raw by {
            if j < m.enemies.len() {
                assert(pool[i] == m.enemies[i] && pool[j] == m.enemies[j]);
            } else if i < m.enemies.len() {
                assert(pool[i] == m.enemies[i]);
            }
        }
        assert forall|i: int| 0 <= i < pool.len() implies (#[trigger] pool[i]).position.x.raw
            <= SPAWN_X * 256 by {
            if i < m.enemies.len() {
                assert(pool[i] == m.enemies[i]);
            }
        }
    }
    assert(pool_in_order(pool));
    crate::enemy::lemma_prune_removes_the_off_screen(pool, before.scroll_velocity);
    crate::enemy::lemma_off_screen_come_first(pool);
    let after = m.next(input, random).enemies;
    let gone = pool.len() - after.len();
    assert(gone == count_off_screen(pool));
    assert forall|i: int| 0 <= i < after.len() implies (#[trigger] after[i]).position.x.raw
        <= SPAWN_X * 256 by {
        assert(after[i].position.x.raw == pool[i + gone].position.x.raw
            - before.scroll_velocity.raw);
    }
}

/// The score never goes down as frames are counted.
pub proof fn lemma_score_is_monotonic(earlier: u32, later: u32)
    requires
        earlier <= later,
    ensures
        score_spec(earlier) <= score_spec(later),
        score_spec(later) <= MAX_SCORE,
{
}

/// A frame never lowers the score: while the session continues it counts
/// one frame more, and in every other state it counts none. The counter
/// of frames starts over after the last value that 32 bits hold; the frame
/// that takes it there is left out.
pub proof fn lemma_frame_never_lowers_the_score(m: GameModel, input: Input, random: u32)
    requires
        !(m.simulates(input) && m.frame_count == u32::MAX),
    ensures
        m.next(input, random).score() >= m.score(),
        m.simulates(input) ==> m.next(input, random).frame_count == m.frame_count + 1,
        !m.simulates(input) ==> m.next(input, random).frame_count == m.frame_count,
{
}

/// A frame that advances the world ends the game exactly when some enemy
/// hits the player, and then with the score of that frame.
pub proof fn lemma_hit_ends_the_game(m: GameModel, input: Input, random: u32)
    requires
        m.simulates(input),
    ensures
        m.next(input, random).state == if m.before_enemies(input, random).collides() {
            GameState::Over(score_spec(next_count(m.frame_count)))
        } else {
            GameState::Continue
        },
        m.report(input, random).collided == m.before_enemies(input, random).collides(),
{
}

/// Once the game is over the session is frozen: whatever frames follow,
/// the final score stays what it was, the counters of frames, the player,
/// the enemies, the spawn queue and the background stay where they were,
/// and the state is still over with that score, or a restart is asked for.
pub proof fn lemma_over_is_frozen(m: GameModel, score: u32, frames: Seq<(Input, u32)>)
    requires
        m.state == GameState::Over(score),
    ensures
        m.run(frames).state == GameState::Over(score) || m.run(frames).state
            == GameState::Restart,
        m.run(frames) == (GameModel { state: m.run(frames).state, ..m }),
        m.run(frames).score() == m.score(),
    decreases frames.len(),
{
    if frames.len() > 0 {
        lemma_over_is_frozen(m, score, frames.drop_last());
    }
}

/// While the session is paused a frame changes nothing but, on a press of
/// the pause button, the state.
pub proof fn lemma_pause_is_frozen(m: GameModel, input: Input, random: u32)
    requires
        m.state == GameState::Pause,
    ensures
        m.next(input, random) == (GameModel {
            state: if input.start_pressed {
                GameState::Continue
            } else {
                GameState::Pause
            },
            ..m
        }),
{
}

/// A game session.
pub struct Game {
    settings: Settings,
    state: GameState,
    frame_count: u32,
    speed_level: u16,
    background_position: Vector2D<Number>,
    scroll_velocity: Number,
    gravity_px_per_square_frame: Number,
    player: Player,
    enemies: VecDeque<Enemy>,
    frames_current_level: u32,
    frames_since_last_spawn: u32,
    spawn_queue: VecDeque<SpawnInfo>,
}

impl View for Game {
    type V = GameModel;

    closed spec fn view(&self) -> GameModel {
        GameModel {
            settings: self.settings,
            state: self.state,
            frame_count: self.frame_count,
            speed_level: self.speed_level,
            background_position: self.background_position,
            scroll_velocity: self.scroll_velocity,
            gravity: self.gravity_px_per_square_frame,
            player: self.player,
            enemies: self.enemies@,
            frames_current_level: self.frames_current_level,
            frames_since_last_spawn: self.frames_since_last_spawn,
            spawn_queue: self.spawn_queue@,
        }
    }
}

/// A counter of frames one frame later.
fn count_up(count: u32) -> (next: u32)
    ensures
        next == next_count(count),
{
    count.wrapping_add(1)
}

impl Game {
    /// A fresh session: the player stands on the ground, no enemy is out,
    /// and the world scrolls at the initial velocity.
    pub fn from_settings(settings: Settings) -> (game: Game)
        requires
            settings.jump_duration_frames > 0,
        ensures
            game@ == GameModel::initial(settings),
            game@.wf(),
    {
        Game {
            settings,
            state: GameState::Continue,
            frame_count: 0,
            speed_level: 0,
            background_position: Vector2D::from_ints(0, 0),
            scroll_velocity: settings.init_scroll_velocity,
            gravity_px_per_square_frame: gravity_for(
                settings.jump_height_px,
                settings.jump_duration_frames,
            ),
            player: Player::new(),
            enemies: VecDeque::new(),
            frames_current_level: 0,
            frames_since_last_spawn: 0,
            spawn_queue: VecDeque::with_capacity(SPAWN_BATCH),
        }
    }

    /// The settings that the session was made with.
    pub fn settings(&self) -> (settings: Settings)
        ensures
            settings == self@.settings,
    {
        self.settings
    }

    /// Where the session stands.
    pub fn state(&self) -> (state: GameState)
        ensures
            state == self@.state,
    {
        self.state
    }

    /// Number of frames that advanced the world.
    pub fn frame_count(&self) -> (count: u32)
        ensures
            count == self@.frame_count,
    {
        self.frame_count
    }

    /// Number of times the scroll velocity went up.
    pub fn speed_level(&self) -> (level: u16)
        ensures
            level == self@.speed_level,
    {
        self.speed_level
    }

    /// How far the world moves on each frame.
    pub fn scroll_velocity(&self) -> (velocity: Number)
        ensures
            velocity == self@.scroll_velocity,
    {
        self.scroll_velocity
    }

    /// How far the background has scrolled.
    pub fn background_position(&self) -> (position: Vector2D<Number>)
        ensures
            position == self@.background_position,
    {
        self.background_position
    }

    /// The acceleration of a jump.
    pub fn gravity(&self) -> (gravity: Number)
        ensures
            gravity == self@.gravity,
    {
        self.gravity_px_per_square_frame
    }

    /// The player.
    pub fn player(&self) -> (player: Player)
        ensures
            player == self@.player,
    {
        self.player
    }

    /// Number of enemies in the pool.
    pub fn enemy_count(&self) -> (count: usize)
        ensures
            count == self@.enemies.len(),
    {
        self.enemies.len()
    }

    /// The enemy at `index` of the pool, counted from the one that came first.
    pub fn enemy(&self, index: usize) -> (enemy: Enemy)
        requires
            index < self@.enemies.len(),
        ensures
            enemy == self@.enemies[index as int],
    {
        self.enemies[index]
    }

    /// Number of spawn decisions that wait in the queue.
    pub fn spawn_queue_len(&self) -> (count: usize)
        ensures
            count == self@.spawn_queue.len(),
    {
        self.spawn_queue.len()
    }

    /// The score so far: one point every six frames, up to 999999.
    pub fn current_score(&self) -> (score: u32)
        ensures
            score == self@.score(),
    {
        if self.frame_count < SCORE_FRAME_LIMIT {
            self.frame_count / FRAMES_PER_POINT
        } else {
            MAX_SCORE
        }
    }

    /// Whether the next frame, with this input, will use the random value
    /// it is given. On every other frame any value does.
    pub fn wants_random(&self, input: Input) -> (wanted: bool)
        ensures
            wanted == self@.wants_random(input),
    {
        match self.state {
            GameState::Continue => !input.start_pressed && self.spawn_queue.len() == 0,
            _ => false,
        }
    }

    /// The report of a frame that did not advance the world.
    fn idle_report(state: GameState) -> (report: FrameReport)
        ensures
            report == (FrameReport {
                state,
                level_up: false,
                jumped: false,
                collided: false,
                background: None,
            }),
    {
        FrameReport { state, level_up: false, jumped: false, collided: false, background: None }
    }

    /// Fills an empty spawn queue from the random value.
    fn refill(&mut self, random: u32)
        ensures
            final(self)@ == old(self)@.refill(random),
    {
        if self.spawn_queue.len() == 0 {
            let batch = spawn_batch(random);
            self.spawn_queue.push_back(batch[0]);
            self.spawn_queue.push_back(batch[1]);
            self.spawn_queue.push_back(batch[2]);
            self.spawn_queue.push_back(batch[3]);
            assert(self.spawn_queue@ =~= spawn_batch_spec(random));
        }
    }

    /// Raises the scroll velocity when the level is complete.
    fn level_up(&mut self) -> (raised: bool)
        ensures
            final(self)@ == old(self)@.level_up(),
            raised == old(self)@.levels_up(),
    {
        if self.frames_current_level >= self.settings.frames_to_level_up {
            self.scroll_velocity = self.scroll_velocity.add(
                self.settings.scroll_velocity_increase_per_level,
            );
            self.speed_level = self.speed_level.wrapping_add(1);
            self.frames_current_level = 0;
            true
        } else {
            false
        }
    }

    /// Uses up the decision at the front of the spawn queue when it is due.
    fn spawn(&mut self)
        ensures
            final(self)@ == old(self)@.spawn(),
    {
        if self.spawn_queue.len() > 0 && self.frames_since_last_spawn
            > self.spawn_queue[0].delay() {
            let info = self.spawn_queue.pop_front().unwrap();
            self.frames_since_last_spawn = 0;
            if self.enemies.len() < self.settings.max_enemies_displayed {
                self.enemies.push_back(info.enemy());
            }
            assert(self.spawn_queue@ =~= old(self).spawn_queue@.skip(1));
        }
    }

    /// Advances the session by one frame.
    ///
    /// `input` holds the buttons that went down since the previous frame.
    /// `random` is used only on a frame that advances the world with an
    /// empty spawn queue, see `wants_random`.
    pub fn frame(&mut self, input: Input, random: u32) -> (report: FrameReport)
        requires
            old(self)@.wf(),
        ensures
            final(self)@ == old(self)@.next(input, random),
            report == old(self)@.report(input, random),
            final(self)@.wf(),
    {
        match self.state {
            GameState::Continue => {
                if input.start_pressed {
                    self.state = GameState::Pause;
                    return Self::idle_report(self.state);
                }
            },
            GameState::Pause => {
                if input.start_pressed {
                    self.state = GameState::Continue;
                }
                return Self::idle_report(self.state);
            },
            GameState::Over(_) => {
                if input.action_pressed || input.start_pressed {
                    self.state = GameState::Restart;
                }
                return Self::idle_report(self.state);
            },
            GameState::Restart => {
                return Self::idle_report(self.state);
            },
        }
        self.frame_count = count_up(self.frame_count);
        self.frames_current_level = count_up(self.frames_current_level);
        self.frames_since_last_spawn = count_up(self.frames_since_last_spawn);
        assert(self@ == old(self)@.tick());
        self.refill(random);
        let level_up = self.level_up();
        let jumped = self.player.step(
            input.action_pressed,
            self.gravity_px_per_square_frame,
            self.settings.jump_duration_frames,
        );
        assert(self@ == old(self)@.tick().refill(random).level_up().move_player(input));
        self.spawn();
        let ghost before = self@;
        assert(before == old(self)@.before_enemies(input, random));
        let (off_screen, collided) = advance_pool(
            &mut self.enemies,
            &self.player,
            self.scroll_velocity,
        );
        if collided {
            self.state = GameState::Over(self.current_score());
        }
        prune(&mut self.enemies, off_screen);
        assert(self@ == before.move_enemies());
        self.background_position.x = self.background_position.x.add(self.scroll_velocity);
        assert(self@ == before.move_enemies().scroll());
        FrameReport {
            state: self.state,
            level_up,
            jumped,
            collided,
            background: Some(self.background_position.floor()),
        }
    }
}

} // verus!
