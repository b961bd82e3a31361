//! Hit-boxes and the overlap test.
//!
//! Each kind of sprite has one fixed rectangle inside its 32 by 32 cell.
//! Before a test the rectangle is moved to where its owner stands, in whole
//! pixels; two regions collide when they share at least one point, so
//! regions that merely touch do collide.
use vstd::prelude::*;
use crate::fixnum::Vector2D;
use crate::enemy::EnemyKind;

verus! {

/// An axis-aligned rectangle inside a sprite's cell.
#[derive(Clone, Copy, Debug, PartialEq, Eq, Structural)]
pub struct Rect {
    pub position: Vector2D<u16>,
    pub size: Vector2D<u16>,
}

/// An axis-aligned rectangle on the play-field, borders included.
#[derive(Clone, Copy, Debug, PartialEq, Eq, Structural)]
pub struct Region {
    pub left: i64,
    pub top: i64,
    pub right: i64,
    pub bottom: i64,
}

/// The player's hit-box.
pub open spec fn dino_collision_rect_spec() -> Rect {
    Rect { position: Vector2D { x: 9, y: 4 }, size: Vector2D { x: 18, y: 27 } }
}

/// A bird's hit-box.
pub open spec fn bird_collision_rect_spec() -> Rect {
    Rect { position: Vector2D { x: 1, y: 13 }, size: Vector2D { x: 28, y: 7 } }
}

/// A cactus's hit-box.
pub open spec fn cactus_collision_rect_spec() -> Rect {
    Rect { position: Vector2D { x: 1, y: 6 }, size: Vector2D { x: 27, y: 25 } }
}

/// The hit-box of an enemy of the given kind.
pub open spec fn enemy_collision_rect_spec(kind: EnemyKind) -> Rect {
    match kind {
        EnemyKind::Bird => bird_collision_rect_spec(),
        EnemyKind::Cactus => cactus_collision_rect_spec(),
    }
}

/// The player's hit-box.
pub fn dino_collision_rect() -> (r: Rect)
    ensures
        r == dino_collision_rect_spec(),
{
    Rect { position: Vector2D { x: 9, y: 4 }, size: Vector2D { x: 18, y: 27 } }
}

/// A bird's hit-box.
pub fn bird_collision_rect() -> (r: Rect)
    ensures
        r == bird_collision_rect_spec(),
{
    Rect { position: Vector2D { x: 1, y: 13 }, size: Vector2D { x: 28, y: 7 } }
}

/// A cactus's hit-box.
pub fn cactus_collision_rect() -> (r: Rect)
    ensures
        r == cactus_collision_rect_spec(),
{
    Rect { position: Vector2D { x: 1, y: 6 }, size: Vector2D { x: 27, y: 25 } }
}

/// The hit-box of an enemy of the given kind.
pub fn enemy_collision_rect(kind: EnemyKind) -> (r: Rect)
    ensures
        r == enemy_collision_rect_spec(kind),
{
    match kind {
        EnemyKind::Bird => bird_collision_rect(),
        EnemyKind::Cactus => cactus_collision_rect(),
    }
}

impl Rect {
    /// The region that the rectangle covers once its cell stands at `at`.
    pub open spec fn translate_spec(self, at: Vector2D<i32>) -> Region {
        Region {
            left: (at.x + self.position.x) as i64,
            top: (at.y + self.position.y) as i64,
            right: (at.x + self.position.x + self.size.x) as i64,
            bottom: (at.y + self.position.y + self.size.y) as i64,
        }
    }

    /// The region that the rectangle covers once its cell stands at `at`.
    pub fn translate(&self, at: Vector2D<i32>) -> (r: Region)
        ensures
            r == self.translate_spec(at),
            r.left == at.x + self.position.x,
            r.top == at.y + self.position.y,
            r.right == r.left + self.size.x,
            r.bottom == r.top + self.size.y,
    {
        let left: i64 = at.x as i64 + self.position.x as i64;
        let top: i64 = at.y as i64 + self.position.y as i64;
        Region {
            left,
            top,
            right: left + self.size.x as i64,
            bottom: top + self.size.y as i64,
        }
    }
}

impl Region {
    /// Whether the two regions share a point. Borders belong to a region, so
    /// two regions that only touch share the points of the common border.
    pub open spec fn touches_spec(self, other: Region) -> bool {
        &&& self.left <= other.right
        &&& other.left <= self.right
        &&& self.top <= other.bottom
        &&& other.top <= self.bottom
    }

    /// Whether the point `(x, y)` lies in the region, borders included.
    pub open spec fn contains(self, x: int, y: int) -> bool {
        self.left <= x <= self.right && self.top <= y <= self.bottom
    }

    /// Whether the two regions share a point.
    pub fn touches(&self, other: &Region) -> (b: bool)
        ensures
            b == self.touches_spec(*other),
    {
        self.left <= other.right && other.left <= self.right && self.top <= other.bottom
            && other.top <= self.bottom
    }
}

/// Two regions that are not empty touch exactly when some point lies in both.
pub proof fn lemma_touches_is_shared_point(a: Region, b: Region)
    requires
        a.left <= a.right,
        a.top <= a.bottom,
        b.left <= b.right,
        b.top <= b.bottom,
    ensures
        a.touches_spec(b) <==> exists|x: int, y: int| a.contains(x, y) && b.contains(x, y),
{
    if a.touches_spec(b) {
        let x = if a.left <= b.left { b.left as int } else { a.left as int };
        let y = if a.top <= b.top { b.top as int } else { a.top as int };
        assert(a.contains(x, y) && b.contains(x, y));
    }
}

} // verus!
