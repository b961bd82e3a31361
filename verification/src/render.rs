//! What a frame of the game looks like: a list of sprites and where each
//! one stands.
//!
//! The display has a limited number of object slots. Drawing fills them in
//! order and stops where they run out, so what is shown is always the
//! first part of what was to be shown.
use vstd::prelude::*;
use vstd::string::StrSliceExecFns;
use crate::enemy::Enemy;
use crate::enemy::EnemyKind;
use crate::fixnum::wrap_i32;
use crate::fixnum::wrap_to_i32;
use crate::fixnum::Vector2D;
use crate::game::Game;
use crate::game::GameModel;
use crate::game::GameState;

verus! {

/// Width of a glyph of the font, in pixels.
pub const GLYPH_WIDTH: i32 = 7;

/// Number of digits that a score is shown with.
pub const SCORE_DIGITS: u32 = 6;

/// Right edge of the two scores, in pixels.
pub const SCORE_RIGHT: i32 = 236;

/// Height of the score of the session.
pub const SCORE_Y: i32 = 15;

/// Height of the high score.
pub const HI_SCORE_Y: i32 = 6;

/// Right edge of the labels in front of the two scores.
pub const LABEL_RIGHT: i32 = 192;

/// Centre of the messages that cover the play-field.
pub const MESSAGE_X: i32 = 120;

/// Height of the first line of a message.
pub const MESSAGE_Y: i32 = 60;

/// Height of the second line of a message.
pub const MESSAGE_SECOND_Y: i32 = 75;

/// How a text lies about the position it is drawn at.
#[derive(Clone, Copy, Debug, PartialEq, Eq, Structural)]
pub enum TextAlign {
    /// The text begins at the position.
    Left,
    /// The middle of the text is at the position.
    Center,
    /// The text ends at the position.
    Right,
}

/// A picture that can be shown.
#[derive(Clone, Copy, Debug, PartialEq, Eq, Structural)]
pub enum Sprite {
    /// The player: running with the left foot down, or with the right, or hit.
    Dino(usize),
    /// A bird with its wings up, or down.
    Bird(usize),
    /// A cactus.
    Cactus,
    /// A decimal digit.
    Digit(u8),
    /// A glyph of the font.
    Letter(char),
}

/// A sprite and where its top left corner stands, in pixels.
#[derive(Clone, Copy, Debug, PartialEq, Eq, Structural)]
pub struct Placement {
    pub sprite: Sprite,
    pub position: Vector2D<i32>,
}

/// The objects of one frame of the display, with the slots that are left.
pub struct ObjectFrame {
    objects: Vec<Placement>,
    free: usize,
}

impl View for ObjectFrame {
    type V = Seq<Placement>;

    closed spec fn view(&self) -> Seq<Placement> {
        self.objects@
    }
}

/// The smaller of two counts.
pub open spec fn least(a: nat, b: nat) -> nat {
    if a <= b {
        a
    } else {
        b
    }
}

impl ObjectFrame {
    /// Number of slots that are left.
    pub closed spec fn free_spec(self) -> nat {
        self.free as nat
    }

    /// Whether `self` is `before` after `items` were drawn: as many of them
    /// as there were slots left have been shown, in order.
    pub open spec fn shows(self, before: ObjectFrame, items: Seq<Placement>) -> bool {
        let shown = least(items.len(), before.free_spec());
        &&& self@ == before@ + items.take(shown as int)
        &&& self.free_spec() == before.free_spec() - shown
    }

    /// A frame with `slots` object slots, all of them free.
    pub fn new(slots: usize) -> (frame: ObjectFrame)
        ensures
            frame@ == Seq::<Placement>::empty(),
            frame.free_spec() == slots,
    {
        ObjectFrame { objects: Vec::new(), free: slots }
    }

    /// Number of slots that are left.
    pub fn free(&self) -> (free: usize)
        ensures
            free == self.free_spec(),
    {
        self.free
    }

    /// The objects shown so far, in the order in which they were drawn.
    pub fn objects(&self) -> (objects: &Vec<Placement>)
        ensures
            objects@ == self@,
    {
        &self.objects
    }

    /// Shows one object if a slot is left, and tells whether one was.
    pub fn show(&mut self, sprite: Sprite, position: Vector2D<i32>) -> (shown: Option<()>)
        ensures
            final(self).shows(*old(self), seq![Placement { sprite, position }]),
            shown is Some <==> old(self).free_spec() > 0,
    {
        let ghost one = seq![Placement { sprite, position }];
        if self.free > 0 {
            self.objects.push(Placement { sprite, position });
            self.free = self.free - 1;
            assert(one.take(1) =~= one);
            assert(self@ =~= old(self)@ + one.take(1));
            Some(())
        } else {
            assert(self@ =~= old(self)@ + one.take(0));
            None
        }
    }
}

/// Drawing one list and then another is drawing the two lists in a row.
pub proof fn lemma_shows_in_a_row(
    first: ObjectFrame,
    second: ObjectFrame,
    third: ObjectFrame,
    items: Seq<Placement>,
    more: Seq<Placement>,
)
    requires
        second.shows(first, items),
        third.shows(second, more),
    ensures
        third.shows(first, items + more),
{
    let all = items + more;
    let a = least(items.len(), first.free_spec());
    let b = least(more.len(), second.free_spec());
    let c = least(all.len(), first.free_spec());
    assert(c == a + b);
    assert(all.take(c as int) =~= items.take(a as int) + more.take(b as int));
    assert(third@ =~= first@ + all.take(c as int));
}

/// Which picture of an animation is due: the pictures from `start` to
/// `end` take turns, each for `delay` frames.
pub open spec fn frame_ranger_spec(count: u32, start: u32, end: u32, delay: u32) -> int {
    (count / delay) as int % (end + 1 - start) + start
}

/// Which picture of an animation is due after `count` frames.
pub fn frame_ranger(count: u32, start: u32, end: u32, delay: u32) -> (index: usize)
    requires
        delay > 0,
        start <= end < u32::MAX,
    ensures
        index == frame_ranger_spec(count, start, end, delay),
        start <= index <= end,
{
    (((count / delay) % (end + 1 - start)) + start) as usize
}

/// Ten to the power `place`, for the six places of a score.
pub open spec fn pow10(place: int) -> int {
    if place <= 0 {
        1
    } else if place == 1 {
        10
    } else if place == 2 {
        100
    } else if place == 3 {
        1_000
    } else if place == 4 {
        10_000
    } else {
        100_000
    }
}

/// Where a glyph stands that is `steps` glyph widths to the right of
/// `position`. Positions wrap around at the width of `i32`.
pub open spec fn glyph_position(position: Vector2D<i32>, steps: int) -> Vector2D<i32> {
    Vector2D { x: wrap_i32(position.x + GLYPH_WIDTH * steps) as i32, y: position.y }
}

/// How many glyph widths to the right of the position the last digit of a
/// score stands.
pub open spec fn last_digit_steps(align: TextAlign) -> int {
    match align {
        TextAlign::Left => 5,
        TextAlign::Center => 2,
        TextAlign::Right => -1,
    }
}

/// The digit of `score` at the given decimal place, and where it stands.
pub open spec fn digit_placement(
    score: u32,
    position: Vector2D<i32>,
    align: TextAlign,
    place: int,
) -> Placement {
    Placement {
        sprite: Sprite::Digit(((score as int / pow10(place)) % 10) as u8),
        position: glyph_position(position, last_digit_steps(align) - place),
    }
}

/// The six lowest digits of a score, the last digit first, each one glyph
/// width to the left of the one before.
pub open spec fn digit_placements(score: u32, position: Vector2D<i32>, align: TextAlign) -> Seq<
    Placement,
> {
    Seq::new(6, |place: int| digit_placement(score, position, align, place))
}

/// The position that is `steps` glyph widths to the right of `position`.
fn glyph_at(position: Vector2D<i32>, steps: i128) -> (p: Vector2D<i32>)
    requires
        -0x1_0000_0000_0000_0000_0000 < steps < 0x1_0000_0000_0000_0000_0000,
    ensures
        p == glyph_position(position, steps as int),
{
    assert(-0x8_0000_0000_0000_0000_0000 < GLYPH_WIDTH * steps < 0x8_0000_0000_0000_0000_0000)
        by (nonlinear_arith)
        requires
            -0x1_0000_0000_0000_0000_0000 < steps < 0x1_0000_0000_0000_0000_0000,
            GLYPH_WIDTH == 7,
    ;
    Vector2D { x: wrap_to_i32(position.x as i128 + GLYPH_WIDTH as i128 * steps), y: position.y }
}

/// Draws a score with six digits, zeros in front. Stops where the frame is
/// full, and tells whether all six digits were shown.
pub fn draw_score_digits(
    score: u32,
    position: Vector2D<i32>,
    frame: &mut ObjectFrame,
    align: TextAlign,
) -> (drawn: Option<()>)
    ensures
        final(frame).shows(*old(frame), digit_placements(score, position, align)),
        drawn is Some <==> old(frame).free_spec() >= 6,
{
    let ghost all = digit_placements(score, position, align);
    let last: i128 = match align {
        TextAlign::Left => 5,
        TextAlign::Center => 2,
        TextAlign::Right => -1,
    };
    let mut divisor: u32 = 1;
    let mut place: u32 = 0;
    assert(all.take(0) =~= Seq::<Placement>::empty());
    assert(frame@ =~= old(frame)@ + all.take(0));
    while place < SCORE_DIGITS
        invariant
            place <= 6,
            last == last_digit_steps(align),
            all == digit_placements(score, position, align),
            place < 6 ==> divisor == pow10(place as int),
            place <= old(frame).free_spec(),
            frame@ == old(frame)@ + all.take(place as int),
            frame.free_spec() == old(frame).free_spec() - place,
        decreases 6 - place,
    {
        let digit: u8 = ((score / divisor) % 10) as u8;
        let ghost before = *frame;
        let shown = frame.show(Sprite::Digit(digit), glyph_at(position, last - place as i128));
        assert(all[place as int] == digit_placement(score, position, align, place as int));
        if shown.is_none() {
            assert(frame@ =~= old(frame)@ + all.take(place as int));
            return None;
        }
        assert(frame@ =~= old(frame)@ + all.take(place as int + 1)) by {
            assert(all.take(place as int + 1) =~= all.take(place as int).push(all[place as int]));
        }
        place += 1;
        if place < SCORE_DIGITS {
            divisor = divisor * 10;
        }
    }
    Some(())
}

/// The text in upper case, as the Unicode standard maps each character.
/// Some characters become more than one.
pub uninterp spec fn uppercase_of(text: Seq<char>) -> Seq<char>;

/// Whether the character is white space in the sense of the Unicode standard.
pub uninterp spec fn is_white_space(c: char) -> bool;

/// `str::to_uppercase` of the standard library: the text in upper case.
/// The result is taken as the standard library gives it; nothing is
/// claimed of it but that it depends on the text alone.
#[verifier::external_body]
fn to_uppercase(text: &str) -> (upper: String)
    ensures
        upper@ == uppercase_of(text@),
{
    text.to_uppercase()
}

/// `char::is_whitespace` of the standard library. The result is taken as
/// the standard library gives it; nothing is claimed of it but that it
/// depends on the character alone.
#[verifier::external_body]
fn is_whitespace(c: char) -> (white: bool)
    ensures
        white == is_white_space(c),
{
    c.is_whitespace()
}

/// Whether the font has a glyph of its own for the character.
pub open spec fn has_glyph(c: char) -> bool {
    c == 'G' || c == 'A' || c == 'M' || c == 'E' || c == 'O' || c == 'V' || c == 'R' || c == 'S'
        || c == 'C' || c == 'H' || c == 'I' || c == 'T' || c == 'P' || c == '?' || c == 'U' || c
        == 'D'
}

/// The glyph that a character is drawn with: its own where the font has
/// one, the question mark where it has none.
pub open spec fn glyph_spec(c: char) -> char {
    if has_glyph(c) {
        c
    } else {
        '?'
    }
}

/// The sprite that a character of a text is drawn with, if any: white
/// space leaves its place empty.
pub open spec fn letter_spec(c: char, white: bool) -> Option<Sprite> {
    if white {
        None
    } else {
        Some(Sprite::Letter(glyph_spec(c)))
    }
}

/// The sprite that a character of a text is drawn with, if any. `white`
/// tells whether the character is white space.
pub fn letter_for(c: char, white: bool) -> (sprite: Option<Sprite>)
    ensures
        sprite == letter_spec(c, white),
{
    if white {
        None
    } else {
        let glyph = match c {
            'G' | 'A' | 'M' | 'E' | 'O' | 'V' | 'R' | 'S' => c,
            'C' | 'H' | 'I' | 'T' | 'P' | '?' | 'U' | 'D' => c,
            _ => '?',
        };
        Some(Sprite::Letter(glyph))
    }
}

/// How many glyph widths to the right of the position the character at
/// `index` stands, in a text of `byte_len` bytes.
pub open spec fn letter_steps(align: TextAlign, index: int, byte_len: int) -> int {
    match align {
        TextAlign::Left => index,
        TextAlign::Center => index - byte_len / 2,
        TextAlign::Right => index - byte_len,
    }
}

/// The glyphs of a text in upper case and where each one stands. Every
/// character takes one glyph width, also white space, which shows nothing.
/// The text is laid about the position as if it had `byte_len` glyphs.
pub open spec fn text_placements(
    upper: Seq<char>,
    byte_len: int,
    position: Vector2D<i32>,
    align: TextAlign,
) -> Seq<Placement>
    decreases upper.len(),
{
    if upper.len() == 0 {
        Seq::empty()
    } else {
        let before = text_placements(upper.drop_last(), byte_len, position, align);
        match letter_spec(upper.last(), is_white_space(upper.last())) {
            None => before,
            Some(sprite) => before.push(
                Placement {
                    sprite,
                    position: glyph_position(
                        position,
                        letter_steps(align, upper.len() - 1, byte_len),
                    ),
                },
            ),
        }
    }
}

/// The glyphs of the first characters of a text are the first glyphs of
/// the whole text.
pub proof fn lemma_text_placements_prefix(
    upper: Seq<char>,
    count: int,
    byte_len: int,
    position: Vector2D<i32>,
    align: TextAlign,
)
    requires
        0 <= count <= upper.len(),
    ensures
        ({
            let part = text_placements(upper.take(count), byte_len, position, align);
            let all = text_placements(upper, byte_len, position, align);
            part.len() <= all.len() && part == all.take(part.len() as int)
        }),
    decreases upper.len(),
{
    let part = text_placements(upper.take(count), byte_len, position, align);
    let all = text_placements(upper, byte_len, position, align);
    if count == upper.len() {
        assert(upper.take(count) == upper);
        assert(all.take(all.len() as int) == all);
    } else {
        lemma_text_placements_prefix(upper.drop_last(), count, byte_len, position, align);
        assert(upper.drop_last().take(count) == upper.take(count));
        let shorter = text_placements(upper.drop_last(), byte_len, position, align);
        assert(part == shorter.take(part.len() as int));
        assert(shorter.len() <= all.len() && shorter == all.take(shorter.len() as int));
        assert(part =~= all.take(part.len() as int));
    }
}

/// Draws a text that is in upper case already. `byte_len` is the length
/// that the text is laid out with. Stops where the frame is full, and
/// tells whether every glyph was shown.
pub fn place_text(
    upper: &str,
    byte_len: usize,
    position: Vector2D<i32>,
    frame: &mut ObjectFrame,
    align: TextAlign,
) -> (drawn: Option<()>)
    ensures
        final(frame).shows(*old(frame), text_placements(upper@, byte_len as int, position, align)),
        drawn is Some <==> text_placements(upper@, byte_len as int, position, align).len() <= old(
            frame,
        ).free_spec(),
{
    let ghost all = text_placements(upper@, byte_len as int, position, align);
    let count = upper.unicode_len();
    let mut index: usize = 0;
    assert(upper@.take(0) =~= Seq::<char>::empty());
    assert(frame@ =~= old(frame)@ + Seq::<Placement>::empty());
    while index < count
        invariant
            index <= count == upper@.len(),
            all == text_placements(upper@, byte_len as int, position, align),
            frame@ == old(frame)@ + text_placements(
                upper@.take(index as int),
                byte_len as int,
                position,
                align,
            ),
            text_placements(upper@.take(index as int), byte_len as int, position, align).len()
                <= old(frame).free_spec(),
            frame.free_spec() == old(frame).free_spec() - text_placements(
                upper@.take(index as int),
                byte_len as int,
                position,
                align,
            ).len(),
        decreases count - index,
    {
        let c = upper.get_char(index);
        let ghost seen = upper@.take(index as int + 1);
        let ghost done = text_placements(
            upper@.take(index as int),
            byte_len as int,
            position,
            align,
        );
        proof {
            assert(seen.drop_last() == upper@.take(index as int));
            assert(seen.last() == c);
            let len = byte_len as int;
            lemma_text_placements_prefix(upper@, index as int + 1, len, position, align);
            lemma_text_placements_prefix(upper@, index as int, len, position, align);
        }
        match letter_for(c, is_whitespace(c)) {
            None => {},
            Some(sprite) => {
                let steps: i128 = match align {
                    TextAlign::Left => index as i128,
                    TextAlign::Center => index as i128 - (byte_len / 2) as i128,
                    TextAlign::Right => index as i128 - byte_len as i128,
                };
                let shown = frame.show(sprite, glyph_at(position, steps));
                if shown.is_none() {
                    assert(frame@ =~= old(frame)@ + done);
                    assert(done == all.take(done.len() as int));
                    return None;
                }
                assert(frame@ =~= old(frame)@ + done.push(
                    Placement {
                        sprite,
                        position: glyph_position(
                            position,
                            letter_steps(align, index as int, byte_len as int),
                        ),
                    },
                ));
            },
        }
        index += 1;
    }
    proof {
        assert(upper@.take(count as int) == upper@);
        assert(all.take(all.len() as int) == all);
    }
    Some(())
}

/// Draws a text in upper case. Characters that the font has no glyph for
/// are drawn as question marks, and white space is left empty. The text
/// is laid about the position by its length in bytes. Stops where the
/// frame is full, and tells whether every glyph was shown.
pub fn draw_str(
    text: &str,
    position: Vector2D<i32>,
    frame: &mut ObjectFrame,
    align: TextAlign,
) -> (drawn: Option<()>)
    ensures
        final(frame).shows(*old(frame), text_spec(text, position, align)),
        drawn is Some <==> text_spec(text, position, align).len() <= old(frame).free_spec(),
{
    let upper = to_uppercase(text);
    place_text(upper.as_str(), text.len(), position, frame, align)
}

/// The glyphs that a text is drawn with and where each one stands.
pub open spec fn text_spec(text: &str, position: Vector2D<i32>, align: TextAlign) -> Seq<
    Placement,
> {
    text_placements(uppercase_of(text@), text.len() as int, position, align)
}

/// The label in front of the score of the session.
pub const SCORE_LABEL: &'static str = "SCORE";

/// The label in front of the high score.
pub const HI_SCORE_LABEL: &'static str = "HI";

/// First line of the message that is shown once the game is over.
pub const OVER_TITLE: &'static str = "G A M E  O V E R";

/// Second line of the message that is shown once the game is over.
pub const OVER_HINT: &'static str = "PRESS A TO RESTART";

/// First line of the message that is shown while the game is paused.
pub const PAUSE_TITLE: &'static str = "P A U S E D";

/// Second line of the message that is shown while the game is paused.
pub const PAUSE_HINT: &'static str = "PRESS START TO RESUME";

/// The two lines of a message that covers the play-field.
pub open spec fn message_spec(title: &str, hint: &str) -> Seq<Placement> {
    text_spec(title, Vector2D { x: MESSAGE_X, y: MESSAGE_Y }, TextAlign::Center) + text_spec(
        hint,
        Vector2D { x: MESSAGE_X, y: MESSAGE_SECOND_Y },
        TextAlign::Center,
    )
}

/// A score with its label in front, both ending at fixed places.
pub open spec fn labelled_score_spec(score: u32, label: &str, y: i32) -> Seq<Placement> {
    digit_placements(score, Vector2D { x: SCORE_RIGHT, y }, TextAlign::Right) + text_spec(
        label,
        Vector2D { x: LABEL_RIGHT, y: (y + 1) as i32 },
        TextAlign::Right,
    )
}

impl GameModel {
    /// Which of the two pictures of a running or flying animation is due.
    pub open spec fn animation_index(self) -> int {
        frame_ranger_spec(self.frame_count, 0, 1, self.settings.animation_interval_frames as u32)
    }

    /// The player's picture: hit once the game is over, else in the air
    /// while jumping, else running.
    pub open spec fn player_sprite(self) -> Sprite {
        match self.state {
            GameState::Over(_) => Sprite::Dino(2),
            _ => if self.player.is_jumping {
                Sprite::Dino(1)
            } else {
                Sprite::Dino(self.animation_index() as usize)
            },
        }
    }

    /// An enemy's picture and place.
    pub open spec fn enemy_placement(self, enemy: Enemy) -> Placement {
        Placement {
            sprite: match enemy.kind {
                EnemyKind::Bird => Sprite::Bird(self.animation_index() as usize),
                EnemyKind::Cactus => Sprite::Cactus,
            },
            position: enemy.position.floor_spec(),
        }
    }

    /// The player, then the enemies in the order of the pool.
    pub open spec fn actors(self) -> Seq<Placement> {
        seq![
            Placement { sprite: self.player_sprite(), position: self.player.position.floor_spec() },
        ] + self.enemies.map_values(|enemy: Enemy| self.enemy_placement(enemy))
    }

    /// The score of the session and the high score, each with its label.
    pub open spec fn readout(self) -> Seq<Placement> {
        labelled_score_spec(self.score(), SCORE_LABEL, SCORE_Y) + labelled_score_spec(
            self.settings.hi_score,
            HI_SCORE_LABEL,
            HI_SCORE_Y,
        )
    }

    /// The message that covers the play-field while the world stands still.
    pub open spec fn message(self) -> Seq<Placement> {
        match self.state {
            GameState::Over(_) => message_spec(OVER_TITLE, OVER_HINT),
            GameState::Pause => message_spec(PAUSE_TITLE, PAUSE_HINT),
            _ => Seq::empty(),
        }
    }

    /// Everything that a frame shows, in the order in which it is drawn.
    pub open spec fn scene(self) -> Seq<Placement> {
        self.actors() + self.readout() + self.message()
    }
}

/// Draws a score with its label in front.
fn draw_labelled_score(score: u32, label: &str, y: i32, frame: &mut ObjectFrame)
    requires
        y < i32::MAX,
    ensures
        final(frame).shows(*old(frame), labelled_score_spec(score, label, y)),
{
    let _ = draw_score_digits(score, Vector2D { x: SCORE_RIGHT, y }, frame, TextAlign::Right);
    let ghost digits = *frame;
    let _ = draw_str(label, Vector2D { x: LABEL_RIGHT, y: y + 1 }, frame, TextAlign::Right);
    proof {
        lemma_shows_in_a_row(
            *old(frame),
            digits,
            *frame,
            digit_placements(score, Vector2D { x: SCORE_RIGHT, y }, TextAlign::Right),
            text_spec(label, Vector2D { x: LABEL_RIGHT, y: (y + 1) as i32 }, TextAlign::Right),
        );
    }
}

/// Draws the two lines of a message that covers the play-field.
fn draw_message(title: &str, hint: &str, frame: &mut ObjectFrame)
    ensures
        final(frame).shows(*old(frame), message_spec(title, hint)),
{
    let _ = draw_str(title, Vector2D { x: MESSAGE_X, y: MESSAGE_Y }, frame, TextAlign::Center);
    let ghost first = *frame;
    let second = Vector2D { x: MESSAGE_X, y: MESSAGE_SECOND_Y };
    let _ = draw_str(hint, second, frame, TextAlign::Center);
    proof {
        lemma_shows_in_a_row(
            *old(frame),
            first,
            *frame,
            text_spec(title, Vector2D { x: MESSAGE_X, y: MESSAGE_Y }, TextAlign::Center),
            text_spec(hint, Vector2D { x: MESSAGE_X, y: MESSAGE_SECOND_Y }, TextAlign::Center),
        );
    }
}

impl Game {
    /// Draws the session: the player, the enemies, the two scores, and the
    /// message of the state where it has one. Stops where the frame is
    /// full. Tells whether the player and every enemy were shown.
    pub fn render(&self, frame: &mut ObjectFrame) -> (drawn: Option<()>)
        requires
            self@.settings.animation_interval_frames > 0,
        ensures
            final(frame).shows(*old(frame), self@.scene()),
            drawn is Some <==> self@.actors().len() <= old(frame).free_spec(),
    {
        let ghost actors = self@.actors();
        let ghost rest = self@.readout() + self@.message();
        let sprite_index = frame_ranger(
            self.frame_count(),
            0,
            1,
            self.settings().animation_interval_frames as u32,
        );
        let player = self.player();
        let player_sprite = match self.state() {
            GameState::Over(_) => Sprite::Dino(2),
            _ => if player.is_jumping {
                Sprite::Dino(1)
            } else {
                Sprite::Dino(sprite_index)
            },
        };
        let shown = frame.show(player_sprite, player.position.floor());
        if shown.is_none() {
            assert(frame@ =~= old(frame)@ + self@.scene().take(0));
            return None;
        }
        assert(frame@ =~= old(frame)@ + actors.take(1));
        let count = self.enemy_count();
        let mut index: usize = 0;
        while index < count
            invariant
                index <= count == self@.enemies.len(),
                actors == self@.actors(),
                sprite_index == self@.animation_index(),
                1 + index <= old(frame).free_spec(),
                frame@ == old(frame)@ + actors.take(1 + index as int),
                frame.free_spec() == old(frame).free_spec() - (1 + index),
            decreases count - index,
        {
            let enemy = self.enemy(index);
            let sprite = match enemy.kind {
                EnemyKind::Bird => Sprite::Bird(sprite_index),
                EnemyKind::Cactus => Sprite::Cactus,
            };
            let shown = frame.show(sprite, enemy.position.floor());
            assert(actors[1 + index as int] == self@.enemy_placement(enemy));
            if shown.is_none() {
                assert(self@.scene().take(1 + index as int) =~= actors.take(1 + index as int));
                return None;
            }
            assert(frame@ =~= old(frame)@ + actors.take(2 + index as int)) by {
                assert(actors.take(2 + index as int) =~= actors.take(1 + index as int).push(
                    actors[1 + index as int],
                ));
            }
            index += 1;
        }
        let ghost cast = *frame;
        assert(actors.take(actors.len() as int) =~= actors);
        assert(cast.shows(*old(frame), actors));
        draw_labelled_score(self.current_score(), SCORE_LABEL, SCORE_Y, frame);
        let ghost scored = *frame;
        draw_labelled_score(self.settings().hi_score, HI_SCORE_LABEL, HI_SCORE_Y, frame);
        let ghost read = *frame;
        match self.state() {
            GameState::Over(_) => draw_message(OVER_TITLE, OVER_HINT, frame),
            GameState::Pause => draw_message(PAUSE_TITLE, PAUSE_HINT, frame),
            _ => {
                assert(frame@ =~= read@ + Seq::<Placement>::empty().take(0));
            },
        }
        proof {
            lemma_shows_in_a_row(
                cast,
                scored,
                read,
                labelled_score_spec(self@.score(), SCORE_LABEL, SCORE_Y),
                labelled_score_spec(self@.settings.hi_score, HI_SCORE_LABEL, HI_SCORE_Y),
            );
            lemma_shows_in_a_row(cast, read, *frame, self@.readout(), self@.message());
            lemma_shows_in_a_row(*old(frame), cast, *frame, actors, rest);
            assert(actors + rest =~= self@.scene());
        }
        Some(())
    }
}

} // verus!
