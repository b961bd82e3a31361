//! The spawn scheduler: what enemy appears next, where, and after how long.
//!
//! Every decision is packed into one byte. Random bytes are drawn four at a
//! time from one 32-bit value, so that spawn timing is computed ahead and no
//! random draw happens on the frame an enemy appears.
use vstd::prelude::*;
use vstd::std_specs::convert::FromSpecImpl;
use crate::enemy::Enemy;
use crate::enemy::EnemyKind;
use crate::fixnum::Vector2D;
use crate::resource::CACTUS_Y;

verus! {

/// Shortest delay between two spawns, in frames.
pub const SPAWN_DELAY_BASE: u32 = 40;

/// Frames added to the delay by each step of the delay bucket.
pub const SPAWN_DELAY_STEP: u32 = 12;

/// Mask of the delay bucket: the low three bits.
pub const DELAY_MASK: u8 = 0b0000_0111;

/// Mask of the kind bucket: the next three bits.
pub const KIND_MASK: u8 = 0b0011_1000;

/// Shift that brings the kind bucket down to the low bits.
pub const KIND_SHIFT: u8 = 3;

/// Mask of the two-bit argument: the top two bits.
pub const ARG_MASK: u8 = 0b1100_0000;

/// Shift that brings the two-bit argument down to the low bits.
pub const ARG_SHIFT: u8 = 6;

/// Horizontal position at which enemies appear: just off the right edge.
pub const SPAWN_X: i32 = 240;

/// Number of entries that one refill puts into the spawn queue.
pub const SPAWN_BATCH: usize = 4;

/// One packed spawn decision.
///
/// The low three bits choose the delay, the next three the kind of enemy,
/// and the top two an argument that only birds use: their flight lane.
#[derive(Clone, Copy, Debug, PartialEq, Eq, Structural)]
pub struct SpawnInfo(pub u8);

/// The decoded form of a `SpawnInfo`.
#[derive(Clone, Copy, Debug, PartialEq, Eq, Structural)]
pub struct SpawnPlan {
    pub kind: EnemyKind,
    pub delay: u32,
    pub variant: u8,
}

impl SpawnInfo {
    /// Frames to wait since the previous spawn: one of eight buckets.
    pub open spec fn delay_spec(self) -> int {
        (self.0 % 8) * SPAWN_DELAY_STEP + SPAWN_DELAY_BASE
    }

    /// Birds take the lower half of the eight kind buckets, cacti the upper.
    pub open spec fn kind_spec(self) -> EnemyKind {
        if (self.0 / 8) % 8 < 4 {
            EnemyKind::Bird
        } else {
            EnemyKind::Cactus
        }
    }

    /// The two-bit argument.
    pub open spec fn arg_spec(self) -> int {
        self.0 as int / 64
    }

    /// All three fields at once.
    pub open spec fn plan_spec(self) -> SpawnPlan {
        SpawnPlan {
            kind: self.kind_spec(),
            delay: self.delay_spec() as u32,
            variant: self.arg_spec() as u8,
        }
    }

    /// Height at which the enemy appears, in pixels from the top: birds fly
    /// in one of four lanes, cacti stand on the ground.
    pub open spec fn spawn_y_spec(self) -> int {
        match self.kind_spec() {
            EnemyKind::Bird => (self.arg_spec() + 6) * 8,
            EnemyKind::Cactus => CACTUS_Y as int,
        }
    }

    /// The enemy that this decision puts into the world.
    pub open spec fn enemy_spec(self) -> Enemy {
        Enemy {
            kind: self.kind_spec(),
            position: Vector2D::from_ints_spec(SPAWN_X as int, self.spawn_y_spec()),
        }
    }

    /// Frames to wait since the previous spawn, from 40 to 124 in steps of 12.
    pub fn delay(&self) -> (d: u32)
        ensures
            d == self.delay_spec(),
            40 <= d <= 124,
    {
        let b: u8 = self.0;
        assert(b & 0b0000_0111 == b % 8) by (bit_vector);
        (self.0 & DELAY_MASK) as u32 * SPAWN_DELAY_STEP + SPAWN_DELAY_BASE
    }

    /// The kind of enemy: a bird or a cactus, each for half of the bytes.
    pub fn enemy_kind(&self) -> (k: EnemyKind)
        ensures
            k == self.kind_spec(),
    {
        let b: u8 = self.0;
        assert((b & 0b0011_1000) >> 3u8 == (b / 8) % 8) by (bit_vector);
        if ((self.0 & KIND_MASK) >> KIND_SHIFT) < 4 {
            EnemyKind::Bird
        } else {
            EnemyKind::Cactus
        }
    }

    /// The two-bit argument, from 0 to 3.
    pub fn enemy_arg_2bit(&self) -> (a: u8)
        ensures
            a == self.arg_spec(),
            a <= 3,
    {
        let b: u8 = self.0;
        assert((b & 0b1100_0000) >> 6u8 == b / 64) by (bit_vector);
        (self.0 & ARG_MASK) >> ARG_SHIFT
    }

    /// Kind, delay and argument together.
    pub fn decode(&self) -> (p: SpawnPlan)
        ensures
            p == self.plan_spec(),
    {
        SpawnPlan { kind: self.enemy_kind(), delay: self.delay(), variant: self.enemy_arg_2bit() }
    }

    /// Height at which the enemy appears, in pixels from the top.
    pub fn spawn_y(&self) -> (y: i32)
        ensures
            y == self.spawn_y_spec(),
            0 <= y <= 0x7fff,
    {
        match self.enemy_kind() {
            EnemyKind::Bird => (self.enemy_arg_2bit() as i32 + 6) * 8,
            EnemyKind::Cactus => CACTUS_Y as i32,
        }
    }

    /// The enemy that this decision puts into the world, at the right edge.
    pub fn enemy(&self) -> (e: Enemy)
        ensures
            e == self.enemy_spec(),
    {
        Enemy {
            kind: self.enemy_kind(),
            position: Vector2D::from_ints(SPAWN_X, self.spawn_y()),
        }
    }
}

/// Decoding is a function of the byte alone: equal bytes decode alike, and
/// each field reads only its own group of bits.
pub proof fn lemma_decode_reads_only_the_byte(a: SpawnInfo, b: SpawnInfo)
    ensures
        a.0 == b.0 ==> a.plan_spec() == b.plan_spec() && a.enemy_spec() == b.enemy_spec(),
        a.0 % 8 == b.0 % 8 ==> a.delay_spec() == b.delay_spec(),
        (a.0 / 8) % 8 == (b.0 / 8) % 8 ==> a.kind_spec() == b.kind_spec(),
        a.0 / 64 == b.0 / 64 ==> a.arg_spec() == b.arg_spec(),
        40 <= a.delay_spec() <= 124,
        0 <= a.arg_spec() <= 3,
{
}

impl From<u8> for SpawnInfo {
    fn from(value: u8) -> (s: SpawnInfo) {
        SpawnInfo(value)
    }
}

impl FromSpecImpl<u8> for SpawnInfo {
    open spec fn obeys_from_spec() -> bool {
        true
    }

    open spec fn from_spec(value: u8) -> SpawnInfo {
        SpawnInfo(value)
    }
}

/// Byte `i` of `random`, counted from the least significant.
pub open spec fn random_byte(random: u32, i: int) -> u8 {
    ((random as int / pow256(i)) % 256) as u8
}

/// 256 to the power `i`, for the four bytes of a 32-bit value.
pub open spec fn pow256(i: int) -> int {
    if i <= 0 {
        1
    } else if i == 1 {
        0x100
    } else if i == 2 {
        0x1_0000
    } else {
        0x100_0000
    }
}

/// The four spawn decisions that one random value holds, lowest byte first.
pub open spec fn spawn_batch_spec(random: u32) -> Seq<SpawnInfo> {
    Seq::new(4, |i: int| SpawnInfo(random_byte(random, i)))
}

/// Splits one random value into four spawn decisions, lowest byte first.
pub fn spawn_batch(random: u32) -> (batch: [SpawnInfo; 4])
    ensures
        batch@ == spawn_batch_spec(random),
{
    assert((random & 0xff) as u8 == ((random as int / 1) % 256) as u8
        && ((random >> 8u32) & 0xff) as u8 == ((random as int / 0x100) % 256) as u8
        && ((random >> 16u32) & 0xff) as u8 == ((random as int / 0x1_0000) % 256) as u8
        && ((random >> 24u32) & 0xff) as u8 == ((random as int / 0x100_0000) % 256) as u8)
        by (bit_vector);
    let batch = [
        SpawnInfo((random & 0xff) as u8),
        SpawnInfo(((random >> 8u32) & 0xff) as u8),
        SpawnInfo(((random >> 16u32) & 0xff) as u8),
        SpawnInfo(((random >> 24u32) & 0xff) as u8),
    ];
    assert(batch@ =~= spawn_batch_spec(random));
    batch
}

} // verus!
