//! Fixed measures of the play-field, and the text form of its tile map.
//!
//! A tile map is written as numbers separated by commas and line breaks.
//! Every separator ends a cell, so an empty text has one cell and a line
//! that ends in a carriage return and a line feed has an empty cell
//! between the two. A cell that is no number stands for tile 0.
use vstd::prelude::*;
use vstd::string::StringSliceAdditionalSpecFns;

verus! {

/// Width of the background picture, in tiles.
pub const BG_TILES_WIDTH: u16 = 64;

/// Height of the background picture, in tiles.
pub const BG_TILES_HEIGHT: u16 = 14;

/// Height of the world, in tiles: the background picture with the blank
/// rows above and below it.
pub const WORLD_TILES_HEIGHT: u16 = 20;

/// Rows of blank tiles above the background picture.
pub const BG_TILES_OFFSET_Y: u16 = 3;

/// Index of the tile drawn where the background picture has none.
pub const BG_BLANK_TILE_IDX: u16 = 1;

/// Row of tiles on which the ground line lies.
pub const GROUND_TILE_Y: u16 = 14;

/// Height of the ground line, in pixels from the top.
pub const GROUND_Y: u16 = 114;

/// Height of the player's sprite when it stands on the ground.
pub const DINO_GROUNDED_Y: u16 = 82;

/// Height of a cactus's sprite.
pub const CACTUS_Y: u16 = 82;

/// Width and height of a sprite cell, in pixels.
pub const SPRITE_CELL: i32 = 32;

/// The comma.
pub const COMMA: u8 = 0x2c;

/// The carriage return.
pub const CARRIAGE_RETURN: u8 = 0x0d;

/// The line feed.
pub const LINE_FEED: u8 = 0x0a;

/// The plus sign.
pub const PLUS: u8 = 0x2b;

/// The digit zero.
pub const DIGIT_ZERO: u8 = 0x30;

/// The digit nine.
pub const DIGIT_NINE: u8 = 0x39;

/// Whether the byte ends a cell of a tile map.
pub open spec fn is_separator(byte: u8) -> bool {
    byte == COMMA || byte == CARRIAGE_RETURN || byte == LINE_FEED
}

/// Whether the byte is a decimal digit.
pub open spec fn is_digit(byte: u8) -> bool {
    DIGIT_ZERO <= byte <= DIGIT_NINE
}

/// The cells of a tile map: the stretches of bytes between separators.
pub open spec fn cells(bytes: Seq<u8>) -> Seq<Seq<u8>>
    decreases bytes.len(),
{
    if bytes.len() == 0 {
        seq![Seq::<u8>::empty()]
    } else {
        let before = cells(bytes.drop_last());
        if is_separator(bytes.last()) {
            before.push(Seq::<u8>::empty())
        } else {
            before.drop_last().push(before.last().push(bytes.last()))
        }
    }
}

/// The number that a row of decimal digits stands for, if all of the bytes
/// are digits. No digits stand for zero.
pub open spec fn digits_value(digits: Seq<u8>) -> Option<nat>
    decreases digits.len(),
{
    if digits.len() == 0 {
        Some(0nat)
    } else {
        match digits_value(digits.drop_last()) {
            Some(value) => if is_digit(digits.last()) {
                Some((value * 10 + (digits.last() - DIGIT_ZERO)) as nat)
            } else {
                None
            },
            None => None,
        }
    }
}

/// The digits of a cell: the cell without the plus sign that may come first.
pub open spec fn cell_digits(cell: Seq<u8>) -> Seq<u8> {
    if cell.len() > 0 && cell[0] == PLUS {
        cell.skip(1)
    } else {
        cell
    }
}

/// The tile that a cell names: the decimal number it holds, with or
/// without a plus sign in front. A cell that holds anything else, or a
/// number beyond the range of `usize`, stands for tile 0.
pub open spec fn cell_value(cell: Seq<u8>) -> usize {
    match digits_value(cell_digits(cell)) {
        Some(value) => if value <= usize::MAX {
            value as usize
        } else {
            0
        },
        None => 0,
    }
}

/// The tiles that the text of a tile map names, cell by cell.
pub open spec fn tile_map_spec(bytes: Seq<u8>) -> Seq<usize> {
    cells(bytes).map_values(|cell: Seq<u8>| cell_value(cell))
}

/// Digits that stand for a number begin with digits that stand for a
/// number that is not greater.
proof fn lemma_digits_prefix(digits: Seq<u8>, count: int)
    requires
        0 <= count <= digits.len(),
    ensures
        digits_value(digits) matches Some(all) ==> digits_value(digits.take(count)) matches Some(
            part,
        ) && part <= all,
    decreases digits.len(),
{
    if count == digits.len() {
        assert(digits.take(count) == digits);
    } else {
        lemma_digits_prefix(digits.drop_last(), count);
        assert(digits.drop_last().take(count) == digits.take(count));
        if let Some(shorter) = digits_value(digits.drop_last()) {
            if let Some(all) = digits_value(digits) {
                assert(shorter * 10 >= shorter) by (nonlinear_arith)
                    requires
                        shorter >= 0,
                ;
            }
        }
    }
}

/// Reads the number of one cell of a tile map.
fn parse_cell(bytes: &[u8], start: usize, end: usize) -> (tile: usize)
    requires
        start <= end <= bytes@.len(),
    ensures
        tile == cell_value(bytes@.subrange(start as int, end as int)),
{
    let ghost cell = bytes@.subrange(start as int, end as int);
    let mut index = start;
    if index < end && bytes[index] == PLUS {
        index += 1;
    }
    let first = index;
    let ghost digits = bytes@.subrange(first as int, end as int);
    assert(digits =~= cell_digits(cell));
    let mut value: usize = 0;
    assert(digits.take(0) =~= Seq::<u8>::empty());
    while index < end
        invariant
            first <= index <= end <= bytes@.len(),
            cell == bytes@.subrange(start as int, end as int),
            digits == bytes@.subrange(first as int, end as int),
            digits == cell_digits(cell),
            digits_value(digits.take(index - first)) == Some(value as nat),
        decreases end - index,
    {
        let byte = bytes[index];
        proof {
            let seen = digits.take(index - first + 1);
            assert(seen.drop_last() =~= digits.take(index - first));
            assert(seen.last() == byte);
            lemma_digits_prefix(digits, index - first + 1);
        }
        if byte < DIGIT_ZERO || byte > DIGIT_NINE {
            return 0;
        }
        let digit: usize = (byte - DIGIT_ZERO) as usize;
        match value.checked_mul(10) {
            None => {
                return 0;
            },
            Some(tens) => match tens.checked_add(digit) {
                None => {
                    return 0;
                },
                Some(next) => {
                    value = next;
                },
            },
        }
        index += 1;
    }
    assert(digits.take(end - first) == digits);
    value
}

/// Reads the tiles of a tile map from its text.
///
/// Cells are separated by commas, carriage returns and line feeds. A cell
/// holds a decimal number, with or without a plus sign in front; any other
/// cell, an empty one too, stands for tile 0.
pub fn create_tile_map(csv: &str) -> (tiles: Vec<usize>)
    ensures
        tiles@ == tile_map_spec(csv.spec_bytes()),
{
    let bytes = csv.as_bytes();
    let count = bytes.len();
    let mut tiles: Vec<usize> = Vec::new();
    let mut start: usize = 0;
    let mut index: usize = 0;
    let ghost mut done: Seq<Seq<u8>> = Seq::empty();
    assert(bytes@.take(0) =~= Seq::<u8>::empty());
    assert(cells(bytes@.take(0)) =~= done.push(bytes@.subrange(0, 0)));
    while index < count
        invariant
            start <= index <= count == bytes@.len(),
            cells(bytes@.take(index as int)) == done.push(
                bytes@.subrange(start as int, index as int),
            ),
            tiles@ == done.map_values(|cell: Seq<u8>| cell_value(cell)),
        decreases count - index,
    {
        let byte = bytes[index];
        let ghost seen = bytes@.take(index as int + 1);
        let ghost cell = bytes@.subrange(start as int, index as int);
        assert(seen.drop_last() =~= bytes@.take(index as int));
        assert(seen.last() == byte);
        assert(done.push(cell).drop_last() =~= done);
        if byte == COMMA || byte == CARRIAGE_RETURN || byte == LINE_FEED {
            let tile = parse_cell(bytes, start, index);
            tiles.push(tile);
            proof {
                done = done.push(cell);
                assert(tiles@ =~= done.map_values(|cell: Seq<u8>| cell_value(cell)));
                assert(bytes@.subrange(index as int + 1, index as int + 1) =~= Seq::<u8>::empty());
            }
            start = index + 1;
        } else {
            assert(cell.push(byte) =~= bytes@.subrange(start as int, index as int + 1));
        }
        index += 1;
    }
    let tile = parse_cell(bytes, start, count);
    tiles.push(tile);
    proof {
        assert(bytes@.take(count as int) == bytes@);
        assert(tiles@ =~= cells(bytes@).map_values(|cell: Seq<u8>| cell_value(cell)));
    }
    tiles
}

/// The tile at column `x` and row `y` of the world, which repeats in both
/// directions. Rows of the background picture come from the tile map,
/// row by row; the rows above and below it, and what the tile map lacks,
/// are blank.
pub open spec fn tile_index_spec(tile_map: Seq<usize>, x: int, y: int) -> usize {
    let column = x % (BG_TILES_WIDTH as int);
    let row = y % (WORLD_TILES_HEIGHT as int);
    let cell = column + BG_TILES_WIDTH * (row - BG_TILES_OFFSET_Y);
    if BG_TILES_OFFSET_Y <= row < BG_TILES_OFFSET_Y + BG_TILES_HEIGHT && cell < tile_map.len() {
        tile_map[cell]
    } else {
        BG_BLANK_TILE_IDX as usize
    }
}

/// The tile at column `x` and row `y` of the world.
pub fn tile_index(tile_map: &[usize], x: i32, y: i32) -> (tile: usize)
    ensures
        tile == tile_index_spec(tile_map@, x as int, y as int),
{
    let column: i32 = match x.checked_rem_euclid(BG_TILES_WIDTH as i32) {
        Some(column) => column,
        None => 0,
    };
    let row: i32 = match y.checked_rem_euclid(WORLD_TILES_HEIGHT as i32) {
        Some(row) => row,
        None => 0,
    };
    if row >= BG_TILES_OFFSET_Y as i32 && row < (BG_TILES_OFFSET_Y + BG_TILES_HEIGHT) as i32 {
        let picture_row: i32 = row - BG_TILES_OFFSET_Y as i32;
        let cell: usize = (column + BG_TILES_WIDTH as i32 * picture_row) as usize;
        if cell < tile_map.len() {
            tile_map[cell]
        } else {
            BG_BLANK_TILE_IDX as usize
        }
    } else {
        BG_BLANK_TILE_IDX as usize
    }
}

} // verus!
