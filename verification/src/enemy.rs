//! Enemies and the pool that holds them.
//!
//! The pool is a queue in the order of spawning. Every frame each enemy that
//! is still on the screen moves left with the scrolling world and is tested
//! against the player; enemies that were already past the left edge are
//! counted, and that many entries leave the queue at its front.
use vstd::prelude::*;
use std::collections::VecDeque;
use crate::collision::enemy_collision_rect;
use crate::collision::enemy_collision_rect_spec;
use crate::collision::Region;
use crate::fixnum::Number;
use crate::fixnum::Vector2D;
use crate::player::Player;
use crate::resource::SPRITE_CELL;

verus! {

/// An enemy whose floored horizontal position is below this is off the screen.
pub const OFF_SCREEN_X: i32 = -32;

/// What an enemy is.
#[derive(Clone, Copy, Debug, PartialEq, Eq, Structural)]
pub enum EnemyKind {
    Bird,
    Cactus,
}

/// An obstacle in the world.
#[derive(Clone, Copy, Debug, PartialEq, Eq, Structural)]
pub struct Enemy {
    pub kind: EnemyKind,
    pub position: Vector2D<Number>,
}

impl Enemy {
    /// Whether the enemy has passed the left edge of the screen.
    pub open spec fn off_screen_spec(self) -> bool {
        self.position.x.floor_spec() < OFF_SCREEN_X
    }

    /// The enemy one frame later: moved left by the scroll velocity, unless
    /// it was off the screen already.
    pub open spec fn advance_spec(self, scroll_velocity: Number) -> Enemy {
        if self.off_screen_spec() {
            self
        } else {
            Enemy {
                kind: self.kind,
                position: Vector2D {
                    x: self.position.x.sub_spec(scroll_velocity),
                    y: self.position.y,
                },
            }
        }
    }

    /// The region of the play-field that the enemy's hit-box covers.
    pub open spec fn hit_box_spec(self) -> Region {
        enemy_collision_rect_spec(self.kind).translate_spec(self.position.floor_spec())
    }

    /// The coarse test that comes before the exact one: the enemy is within
    /// one sprite cell of the player, to the left or to the right.
    pub open spec fn near_spec(self, player: Player) -> bool {
        let cell = Number::new_spec(SPRITE_CELL as int);
        &&& player.position.x.raw <= self.position.x.add_spec(cell).raw
        &&& self.position.x.raw <= player.position.x.add_spec(cell).raw
    }

    /// Whether the enemy, where it stands, hits the player.
    pub open spec fn hits_spec(self, player: Player) -> bool {
        self.near_spec(player) && self.hit_box_spec().touches_spec(player.hit_box_spec())
    }

    /// Whether the enemy hits the player on the frame that moves it.
    /// Enemies that were off the screen are neither moved nor tested.
    pub open spec fn collides_spec(self, player: Player, scroll_velocity: Number) -> bool {
        !self.off_screen_spec() && self.advance_spec(scroll_velocity).hits_spec(player)
    }

    /// Whether the enemy has passed the left edge of the screen.
    pub fn off_screen(&self) -> (b: bool)
        ensures
            b == self.off_screen_spec(),
    {
        self.position.x.floor() < OFF_SCREEN_X
    }

    /// The region of the play-field that the enemy's hit-box covers.
    pub fn hit_box(&self) -> (r: Region)
        ensures
            r == self.hit_box_spec(),
    {
        enemy_collision_rect(self.kind).translate(self.position.floor())
    }

    /// Whether the enemy, where it stands, hits the player whose hit-box
    /// covers `player_box`.
    pub fn hits(&self, player: &Player, player_box: &Region) -> (b: bool)
        requires
            *player_box == player.hit_box_spec(),
        ensures
            b == self.hits_spec(*player),
    {
        let cell = Number::new(SPRITE_CELL);
        if player.position.x.le(self.position.x.add(cell)) && self.position.x.le(
            player.position.x.add(cell),
        ) {
            self.hit_box().touches(player_box)
        } else {
            false
        }
    }
}

/// Every enemy of the pool one frame later.
pub open spec fn advance_all(pool: Seq<Enemy>, scroll_velocity: Number) -> Seq<Enemy> {
    pool.map_values(|e: Enemy| e.advance_spec(scroll_velocity))
}

/// Number of enemies of the pool that are off the screen.
pub open spec fn count_off_screen(pool: Seq<Enemy>) -> nat
    decreases pool.len(),
{
    if pool.len() == 0 {
        0
    } else {
        count_off_screen(pool.drop_last()) + if pool.last().off_screen_spec() {
            1nat
        } else {
            0nat
        }
    }
}

/// Whether some enemy of the pool hits the player on the frame that moves it.
pub open spec fn any_collision(pool: Seq<Enemy>, player: Player, scroll_velocity: Number) -> bool {
    exists|i: int|
        0 <= i < pool.len() && (#[trigger] pool[i]).collides_spec(player, scroll_velocity)
}

/// The pool one frame later: every enemy on the screen has moved, and as
/// many entries as were off the screen have left at the front.
pub open spec fn pool_after(pool: Seq<Enemy>, scroll_velocity: Number) -> Seq<Enemy> {
    advance_all(pool, scroll_velocity).skip(count_off_screen(pool) as int)
}

/// No more enemies can be off the screen than the pool holds.
pub proof fn lemma_count_off_screen_bound(pool: Seq<Enemy>)
    ensures
        count_off_screen(pool) <= pool.len(),
    decreases pool.len(),
{
    if pool.len() > 0 {
        lemma_count_off_screen_bound(pool.drop_last());
    }
}

/// Whether the pool is in order from left to right: no enemy stands to
/// the right of one that came after it.
pub open spec fn in_order(pool: Seq<Enemy>) -> bool {
    forall|i: int, j: int|
        0 <= i <= j < pool.len() ==> (#[trigger] pool[i]).position.x.raw <= (
        #[trigger] pool[j]).position.x.raw
}

/// In a pool that is in order the enemies that are off the screen stand
/// in front of all others.
pub proof fn lemma_off_screen_come_first(pool: Seq<Enemy>)
    requires
        in_order(pool),
    ensures
        count_off_screen(pool) <= pool.len(),
        forall|i: int| 0 <= i < count_off_screen(pool) ==> (#[trigger] pool[i]).off_screen_spec(),
        forall|i: int|
            count_off_screen(pool) <= i < pool.len() ==> !(#[trigger] pool[i]).off_screen_spec(),
    decreases pool.len(),
{
    if pool.len() > 0 {
        let front = pool.drop_last();
        assert forall|i: int, j: int| 0 <= i <= j < front.len() implies (
        #[trigger] front[i]).position.x.raw <= (#[trigger] front[j]).position.x.raw by {
            assert(front[i] == pool[i] && front[j] == pool[j]);
        }
        lemma_off_screen_come_first(front);
        if pool.last().off_screen_spec() {
            assert forall|i: int| 0 <= i < front.len() implies (
            #[trigger] front[i]).off_screen_spec() by {
                assert(front[i] == pool[i]);
                assert(pool[i].position.x.raw <= pool[pool.len() - 1].position.x.raw);
            }
            if count_off_screen(front) < front.len() {
                assert(!front[count_off_screen(front) as int].off_screen_spec());
            }
        }
        assert forall|i: int| 0 <= i < count_off_screen(pool) implies (
        #[trigger] pool[i]).off_screen_spec() by {
            if i < front.len() {
                assert(front[i] == pool[i]);
            }
        }
        assert forall|i: int| count_off_screen(pool) <= i < pool.len() implies !(
        #[trigger] pool[i]).off_screen_spec() by {
            if i < front.len() {
                assert(front[i] == pool[i]);
            }
        }
    }
}

/// In a pool that is in order, while the world scrolls to the left,
/// pruning removes exactly the enemies that were off the screen: every
/// enemy that stays was on the screen and has moved left by the scroll
/// velocity, and the pool is in order again.
pub proof fn lemma_prune_removes_the_off_screen(pool: Seq<Enemy>, scroll_velocity: Number)
    requires
        in_order(pool),
        0 <= scroll_velocity.raw <= 0x4000_0000,
    ensures
        ({
            let gone = count_off_screen(pool) as int;
            let after = pool_after(pool, scroll_velocity);
            &&& 0 <= gone <= pool.len()
            &&& after.len() == pool.len() - gone
            &&& forall|i: int| 0 <= i < gone ==> (#[trigger] pool[i]).off_screen_spec()
            &&& forall|i: int|
                0 <= i < after.len() ==> {
                    &&& !(#[trigger] pool[i + gone]).off_screen_spec()
                    &&& after[i].kind == pool[i + gone].kind
                    &&& after[i].position.y == pool[i + gone].position.y
                    &&& after[i].position.x.raw == pool[i + gone].position.x.raw
                        - scroll_velocity.raw
                }
            &&& in_order(after)
        }),
{
    lemma_off_screen_come_first(pool);
    let gone = count_off_screen(pool) as int;
    let after = pool_after(pool, scroll_velocity);
    assert forall|i: int| 0 <= i < after.len() implies {
        &&& !(#[trigger] pool[i + gone]).off_screen_spec()
        &&& after[i].kind == pool[i + gone].kind
        &&& after[i].position.y == pool[i + gone].position.y
        &&& after[i].position.x.raw == pool[i + gone].position.x.raw - scroll_velocity.raw
    } by {
        let earlier = pool[i + gone];
        assert(!earlier.off_screen_spec());
        assert(after[i] == earlier.advance_spec(scroll_velocity));
        crate::fixnum::lemma_wrap_in_range(earlier.position.x.raw - scroll_velocity.raw);
    }
    assert forall|i: int, j: int| 0 <= i <= j < after.len() implies (
    #[trigger] after[i]).position.x.raw <= (#[trigger] after[j]).position.x.raw by {
        assert(pool[i + gone].position.x.raw <= pool[j + gone].position.x.raw);
    }
}

/// Moves every enemy that is still on the screen and tests it against the
/// player. The whole pool is visited even after a hit. Returns the number
/// of enemies that were off the screen and whether any enemy hit the player.
pub fn advance_pool(pool: &mut VecDeque<Enemy>, player: &Player, scroll_velocity: Number) -> (r: (
    usize,
    bool,
))
    ensures
        final(pool)@ == advance_all(old(pool)@, scroll_velocity),
        r.0 == count_off_screen(old(pool)@),
        r.0 <= old(pool)@.len(),
        r.1 == any_collision(old(pool)@, *player, scroll_velocity),
{
    let ghost before = pool@;
    let player_box = player.hit_box();
    let count = pool.len();
    let mut off_screen: usize = 0;
    let mut collided = false;
    let mut i: usize = 0;
    while i < count
        invariant
            i <= count,
            count == before.len(),
            player_box == player.hit_box_spec(),
            pool@ == before.skip(i as int) + advance_all(before.take(i as int), scroll_velocity),
            off_screen == count_off_screen(before.take(i as int)),
            off_screen <= i,
            collided == any_collision(before.take(i as int), *player, scroll_velocity),
        decreases count - i,
    {
        let enemy = pool.pop_front().unwrap();
        assert(enemy == before[i as int]);
        let ghost seen = before.take(i as int + 1);
        assert(seen.drop_last() == before.take(i as int));
        assert(seen.last() == enemy);
        let mut moved = enemy;
        if enemy.off_screen() {
            off_screen += 1;
        } else {
            moved.position.x = enemy.position.x.sub(scroll_velocity);
            if moved.hits(player, &player_box) {
                collided = true;
            }
        }
        assert(moved == enemy.advance_spec(scroll_velocity));
        pool.push_back(moved);
        proof {
            assert(pool@ == before.skip(i as int + 1) + advance_all(seen, scroll_velocity)) by {
                assert(pool@ =~= before.skip(i as int + 1) + advance_all(seen, scroll_velocity));
            }
            if any_collision(seen, *player, scroll_velocity) {
                let j = choose|j: int|
                    0 <= j < seen.len() && (#[trigger] seen[j]).collides_spec(
                        *player,
                        scroll_velocity,
                    );
                if j < i {
                    assert(before.take(i as int)[j] == seen[j]);
                }
            }
            if any_collision(before.take(i as int), *player, scroll_velocity) {
                let j = choose|j: int|
                    0 <= j < i && (#[trigger] before.take(i as int)[j]).collides_spec(
                        *player,
                        scroll_velocity,
                    );
                assert(seen[j] == before.take(i as int)[j]);
            }
            if enemy.collides_spec(*player, scroll_velocity) {
                assert(seen[i as int] == enemy);
            }
        }
        i += 1;
    }
    proof {
        assert(before.take(count as int) == before);
        assert(pool@ =~= advance_all(before, scroll_velocity));
    }
    (off_screen, collided)
}

/// Removes the first `count` enemies of the pool.
pub fn prune(pool: &mut VecDeque<Enemy>, count: usize)
    requires
        count <= old(pool)@.len(),
    ensures
        final(pool)@ == old(pool)@.skip(count as int),
{
    let ghost before = pool@;
    let mut i: usize = 0;
    while i < count
        invariant
            i <= count <= before.len(),
            pool@ == before.skip(i as int),
        decreases count - i,
    {
        let _ = pool.pop_front();
        assert(pool@ =~= before.skip(i as int + 1));
        i += 1;
    }
}

} // verus!
