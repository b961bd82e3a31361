//! The player: a body that stands on the ground or flies through a jump.
//!
//! A jump starts with an upward impulse and is then shaped by constant
//! gravity. On every frame in the air the position moves by the speed first
//! and the speed grows by gravity afterwards.
use vstd::prelude::*;
use crate::collision::dino_collision_rect;
use crate::collision::dino_collision_rect_spec;
use crate::collision::Region;
use crate::fixnum::Number;
use crate::fixnum::Vector2D;
use crate::resource::DINO_GROUNDED_Y;

verus! {

/// Horizontal position of the player, in pixels. It never changes.
pub const PLAYER_X: i32 = 16;

/// The player's body.
#[derive(Clone, Copy, Debug, PartialEq, Eq, Structural)]
pub struct Player {
    pub position: Vector2D<Number>,
    pub vertical_speed: Number,
    pub is_jumping: bool,
}

/// Acceleration of a jump that reaches `jump_height_px` pixels after
/// `jump_duration_frames` frames of rising: twice the height over the
/// squared duration, in 256ths of a pixel per squared frame, rounded down.
pub open spec fn gravity_spec(jump_height_px: u16, jump_duration_frames: u16) -> Number {
    Number {
        raw: ((512 * jump_height_px) / (jump_duration_frames * jump_duration_frames)) as i32,
    }
}

/// Acceleration of a jump of the given height and duration.
pub fn gravity_for(jump_height_px: u16, jump_duration_frames: u16) -> (g: Number)
    requires
        jump_duration_frames > 0,
    ensures
        g == gravity_spec(jump_height_px, jump_duration_frames),
        0 <= g.raw <= 512 * jump_height_px,
        g.raw * (jump_duration_frames * jump_duration_frames) <= 512 * jump_height_px,
        512 * jump_height_px < (g.raw + 1) * (jump_duration_frames * jump_duration_frames),
{
    assert(1 <= jump_duration_frames * jump_duration_frames <= 0xffff * 0xffff)
        by (nonlinear_arith)
        requires
            1 <= jump_duration_frames <= 0xffff,
    ;
    let squared: u32 = jump_duration_frames as u32 * jump_duration_frames as u32;
    let double_height: i32 = 2 * jump_height_px as i32;
    proof {
        lemma_gravity_bounds(jump_height_px, jump_duration_frames);
    }
    if squared > 0x7fff_ffff {
        proof {
            vstd::arithmetic::div_mod::lemma_basic_div(512 * jump_height_px, squared as int);
        }
        Number::new(0)
    } else {
        Number::new(double_height).div_int(squared as i32)
    }
}

impl Player {
    /// The player at rest on the ground: 16 pixels from the left and 82
    /// from the top, which are 4096 and 20992 raw units.
    pub open spec fn new_spec() -> Player {
        Player {
            position: Vector2D { x: Number { raw: 4096 }, y: Number { raw: 20992 } },
            vertical_speed: Number { raw: 0 },
            is_jumping: false,
        }
    }

    /// The player at rest on the ground.
    pub fn new() -> (p: Player)
        ensures
            p == Player::new_spec(),
    {
        Player {
            position: Vector2D::from_ints(PLAYER_X, DINO_GROUNDED_Y as i32),
            vertical_speed: Number::new(0),
            is_jumping: false,
        }
    }

    /// Whether this frame starts a jump: the button went down while the
    /// player stood on the ground.
    pub open spec fn starts_jump(self, jump_pressed: bool) -> bool {
        !self.is_jumping && jump_pressed
    }

    /// Speed right after the impulse of a jump: gravity times the duration,
    /// upward.
    pub open spec fn impulse_spec(gravity: Number, jump_duration_frames: u16) -> Number {
        gravity.neg_spec().mul_int_spec(jump_duration_frames as int)
    }

    /// The player one frame later.
    ///
    /// In the air the position moves by the speed; at or below the ground
    /// line the player lands exactly on it; then the speed grows by gravity.
    /// On the ground a press of the jump button gives the impulse and the
    /// position stays for this frame.
    pub open spec fn step_spec(
        self,
        jump_pressed: bool,
        gravity: Number,
        jump_duration_frames: u16,
    ) -> Player {
        if self.is_jumping {
            let y = self.position.y.add_spec(self.vertical_speed);
            let landed = y.floor_spec() >= DINO_GROUNDED_Y;
            Player {
                position: Vector2D {
                    x: self.position.x,
                    y: if landed {
                        Number::new_spec(DINO_GROUNDED_Y as int)
                    } else {
                        y
                    },
                },
                vertical_speed: self.vertical_speed.add_spec(gravity),
                is_jumping: !landed,
            }
        } else if jump_pressed {
            Player {
                position: self.position,
                vertical_speed: Self::impulse_spec(gravity, jump_duration_frames),
                is_jumping: true,
            }
        } else {
            self
        }
    }

    /// Advances the player by one frame. Returns whether a jump started.
    pub fn step(
        &mut self,
        jump_pressed: bool,
        gravity: Number,
        jump_duration_frames: u16,
    ) -> (jumped: bool)
        ensures
            *final(self) == old(self).step_spec(jump_pressed, gravity, jump_duration_frames),
            jumped == old(self).starts_jump(jump_pressed),
    {
        if self.is_jumping {
            self.position.y = self.position.y.add(self.vertical_speed);
            if self.position.y.floor() >= DINO_GROUNDED_Y as i32 {
                self.position.y = Number::new(DINO_GROUNDED_Y as i32);
                self.is_jumping = false;
            }
            self.vertical_speed = self.vertical_speed.add(gravity);
            false
        } else if jump_pressed {
            self.vertical_speed = gravity.neg().mul_int(jump_duration_frames as i32);
            self.is_jumping = true;
            true
        } else {
            false
        }
    }

    /// The region of the play-field that the player's hit-box covers.
    pub open spec fn hit_box_spec(self) -> Region {
        dino_collision_rect_spec().translate_spec(self.position.floor_spec())
    }

    /// The region of the play-field that the player's hit-box covers.
    pub fn hit_box(&self) -> (r: Region)
        ensures
            r == self.hit_box_spec(),
    {
        dino_collision_rect().translate(self.position.floor())
    }
}

impl Player {
    /// The player `frames` frames later when no button is pressed meanwhile.
    pub open spec fn coast_spec(
        self,
        gravity: Number,
        jump_duration_frames: u16,
        frames: nat,
    ) -> Player
        decreases frames,
    {
        if frames == 0 {
            self
        } else {
            self.coast_spec(gravity, jump_duration_frames, (frames - 1) as nat).step_spec(
                false,
                gravity,
                jump_duration_frames,
            )
        }
    }

    /// The player `frames` frames after the frame on which a jump started
    /// from rest on the ground.
    pub open spec fn jump_spec(gravity: Number, jump_duration_frames: u16, frames: nat) -> Player {
        Player::new_spec().step_spec(true, gravity, jump_duration_frames).coast_spec(
            gravity,
            jump_duration_frames,
            frames,
        )
    }
}

/// What a jump has climbed after `frames` frames in the air, counted in
/// units of gravity: the sum of `duration - j` for `j` below `frames`.
pub open spec fn climb(duration: int, frames: nat) -> int
    decreases frames,
{
    if frames == 0 {
        0
    } else {
        climb(duration, (frames - 1) as nat) + duration - (frames - 1)
    }
}

/// The climb in closed form, and its bounds while the jump lasts: the
/// player is above the ground for twice the duration, highest after
/// `duration` frames, and level with the ground one frame later.
pub proof fn lemma_climb(duration: int, frames: nat)
    requires
        duration >= 1,
    ensures
        2 * climb(duration, frames) == frames * (2 * duration + 1 - frames),
        1 <= frames <= 2 * duration ==> duration <= climb(duration, frames),
        frames <= 2 * duration + 1 ==> 0 <= climb(duration, frames),
        2 * climb(duration, frames) <= duration * (duration + 1),
        frames == duration ==> 2 * climb(duration, frames) == duration * (duration + 1),
        frames == 2 * duration + 1 ==> climb(duration, frames) == 0,
    decreases frames,
{
    if frames > 0 {
        lemma_climb(duration, (frames - 1) as nat);
    }
    let k = frames as int;
    let d = duration;
    assert(k * (2 * d + 1 - k) == (k - 1) * (2 * d + 1 - (k - 1)) + 2 * (d - (k - 1)))
        by (nonlinear_arith);
    assert(k * (2 * d + 1 - k) - 2 * d == (k - 1) * (2 * d - k)) by (nonlinear_arith);
    assert(1 <= k <= 2 * d ==> (k - 1) * (2 * d - k) >= 0) by (nonlinear_arith);
    assert(d * (d + 1) - k * (2 * d + 1 - k) == (d - k) * (d + 1 - k)) by (nonlinear_arith);
    assert((d - k) * (d + 1 - k) >= 0) by (nonlinear_arith);
    assert(k == 2 * d + 1 ==> k * (2 * d + 1 - k) == 0) by (nonlinear_arith);
    assert(k == d ==> k * (2 * d + 1 - k) == d * (d + 1)) by (nonlinear_arith);
}

/// The arc of a jump that nothing interrupts.
///
/// With the gravity that the settings give, a jump from rest on the ground
/// goes as follows, `frames` frames after the one that started it. If
/// gravity rounds down to zero the player is back on the ground after one
/// frame, without having left it. Otherwise the player is in the air for
/// twice the duration, at `gravity * climb` above the ground, and stands
/// exactly on the ground again one frame after that. The greatest height
/// is reached after `jump_duration_frames` frames; it is at most the
/// height of the settings times `(duration + 1) / duration`, and misses
/// that by less than `duration * (duration + 1) / 2` raw units.
pub proof fn lemma_jump_arc(jump_height_px: u16, jump_duration_frames: u16, frames: nat)
    requires
        jump_duration_frames > 0,
        1 <= frames <= 2 * jump_duration_frames + 1,
    ensures
        ({
            let gravity = gravity_spec(jump_height_px, jump_duration_frames);
            let d = jump_duration_frames as int;
            let p = Player::jump_spec(gravity, jump_duration_frames, frames);
            let ground = Player::new_spec().position.y.raw;
            let peak = gravity.raw * climb(d, d as nat);
            &&& p.position.x == Player::new_spec().position.x
            &&& gravity.raw == 0 ==> p == Player::new_spec()
            &&& gravity.raw > 0 && frames <= 2 * d ==> {
                &&& p.is_jumping
                &&& p.position.y.raw == ground - gravity.raw * climb(d, frames)
                &&& p.position.y.raw < ground
                &&& p.position.y.raw >= ground - peak
                &&& p.vertical_speed.raw == gravity.raw * (frames - d)
            }
            &&& gravity.raw > 0 && frames == 2 * d + 1 ==> {
                &&& !p.is_jumping
                &&& p.position.y.raw == ground
            }
            &&& 2 * d * peak <= 512 * jump_height_px * (d + 1)
            &&& (512 * jump_height_px - d * d) * (d + 1) < 2 * d * peak
        }),
    decreases frames,
{
    let gravity = gravity_spec(jump_height_px, jump_duration_frames);
    let d = jump_duration_frames as int;
    let g = gravity.raw as int;
    let ground = Player::new_spec().position.y.raw as int;
    lemma_gravity_bounds(jump_height_px, jump_duration_frames);
    lemma_climb(d, d as nat);
    let peak = g * climb(d, d as nat);
    assert(2 * d * peak <= 512 * jump_height_px * (d + 1) && (512 * jump_height_px - d * d) * (d
        + 1) < 2 * d * peak && 0 <= 2 * peak <= 1024 * jump_height_px) by (nonlinear_arith)
        requires
            peak == g * climb(d, d as nat),
            2 * climb(d, d as nat) == d * (d + 1),
            g * (d * d) <= 512 * jump_height_px,
            512 * jump_height_px < (g + 1) * (d * d),
            g >= 0,
            d >= 1,
    ;
    let start = Player::new_spec().step_spec(true, gravity, jump_duration_frames);
    assert(g * d <= 512 * jump_height_px) by (nonlinear_arith)
        requires
            g * (d * d) <= 512 * jump_height_px,
            g >= 0,
            d >= 1,
    ;
    assert((-g) * d == -(g * d) && g * (0 - d) == -(g * d)) by (nonlinear_arith);
    assert(start.vertical_speed.raw == -(g * d)) by {
        crate::fixnum::lemma_wrap_in_range(-g);
        crate::fixnum::lemma_wrap_in_range(-(g * d));
    }
    let before = Player::jump_spec(gravity, jump_duration_frames, (frames - 1) as nat);
    let p = Player::jump_spec(gravity, jump_duration_frames, frames);
    assert(p == before.step_spec(false, gravity, jump_duration_frames));
    if frames == 1 {
        assert(before == start);
        assert(climb(d, 0) == 0);
    } else {
        lemma_jump_arc(jump_height_px, jump_duration_frames, (frames - 1) as nat);
    }
    let k = frames as int;
    lemma_climb(d, frames);
    lemma_climb(d, (frames - 1) as nat);
    if g == 0 {
        crate::fixnum::lemma_wrap_in_range(ground);
        crate::fixnum::lemma_wrap_in_range(0);
        crate::fixnum::lemma_wrap_in_range(20992);
    } else {
        // One frame earlier the player was in the air, at the height and
        // with the speed of the closed form.
        let j = (frames - 1) as nat;
        assert(g * (j - d) == g * (k - 1 - d)) by (nonlinear_arith)
            requires
                j == k - 1,
        ;
        if frames == 1 {
            assert(g * climb(d, 0) == 0) by (nonlinear_arith)
                requires
                    climb(d, 0) == 0,
            ;
        }
        assert(before.is_jumping);
        assert(before.position.y.raw == ground - g * climb(d, j));
        assert(before.vertical_speed.raw == g * (k - 1 - d));
        assert(g * climb(d, (frames - 1) as nat) + g * (d - (k - 1)) == g * climb(d, frames))
            by (nonlinear_arith)
            requires
                climb(d, frames) == climb(d, (frames - 1) as nat) + d - (k - 1),
        ;
        assert(g * (k - 1 - d) == -(g * (d - (k - 1)))) by (nonlinear_arith);
        assert(0 <= 2 * (g * climb(d, frames)) <= 2 * peak) by (nonlinear_arith)
            requires
                g > 0,
                0 <= 2 * climb(d, frames) <= d * (d + 1),
                2 * climb(d, d as nat) == d * (d + 1),
                peak == g * climb(d, d as nat),
        ;
        assert(-(512 * jump_height_px) - g <= g * (k - d) <= 512 * jump_height_px + g)
            by (nonlinear_arith)
            requires
                g * d <= 512 * jump_height_px,
                0 <= k <= 2 * d + 1,
                g > 0,
        ;
        crate::fixnum::lemma_wrap_in_range(ground - g * climb(d, frames));
        crate::fixnum::lemma_wrap_in_range(g * (k - 1 - d) + g);
        crate::fixnum::lemma_wrap_in_range(20992);
        assert(g * (k - 1 - d) + g == g * (k - d)) by (nonlinear_arith);
        if k <= 2 * d {
            assert(g * climb(d, frames) >= 1) by (nonlinear_arith)
                requires
                    g >= 1,
                    climb(d, frames) >= d,
                    d >= 1,
            ;
        } else {
            assert(g * climb(d, frames) == 0) by (nonlinear_arith)
                requires
                    climb(d, frames) == 0,
            ;
        }
    }
}

/// Gravity is twice the height over the squared duration, rounded down to
/// a whole number of raw units.
pub proof fn lemma_gravity_bounds(jump_height_px: u16, jump_duration_frames: u16)
    requires
        jump_duration_frames > 0,
    ensures
        ({
            let g = gravity_spec(jump_height_px, jump_duration_frames).raw as int;
            let square = jump_duration_frames * jump_duration_frames;
            &&& 0 <= g <= 512 * jump_height_px
            &&& g * square <= 512 * jump_height_px < (g + 1) * square
        }),
{
    let n: int = 512 * jump_height_px;
    let d: int = jump_duration_frames * jump_duration_frames;
    assert(d >= 1) by (nonlinear_arith)
        requires
            d == jump_duration_frames * jump_duration_frames,
            jump_duration_frames >= 1,
    ;
    vstd::arithmetic::div_mod::lemma_fundamental_div_mod(n, d);
    vstd::arithmetic::div_mod::lemma_mod_bound(n, d);
    vstd::arithmetic::div_mod::lemma_div_pos_is_pos(n, d);
    assert(n / d <= n) by {
        vstd::arithmetic::div_mod::lemma_div_is_ordered_by_denominator(n, 1, d);
        vstd::arithmetic::div_mod::lemma_div_basics(n);
    }
    assert((n / d) * d <= n && n < (n / d + 1) * d) by (nonlinear_arith)
        requires
            n == d * (n / d) + n % d,
            0 <= n % d < d,
    ;
}

} // verus!
