use dino_runner::resource::create_tile_map;
use dino_runner::resource::tile_index;

fn by_the_standard_library(csv: &str) -> Vec<usize> {
    csv.split([',', '\r', '\n']).map(|s| usize::from_str_radix(s, 10).unwrap_or(0)).collect()
}

#[test]
fn cells_are_separated_by_commas() {
    assert_eq!(create_tile_map("1,2,3"), vec![1, 2, 3]);
    assert_eq!(create_tile_map("0,10,200,3000"), vec![0, 10, 200, 3000]);
    assert_eq!(create_tile_map("42"), vec![42]);
}

#[test]
fn empty_text_has_one_cell() {
    assert_eq!(create_tile_map(""), vec![0]);
}

#[test]
fn every_separator_ends_a_cell() {
    assert_eq!(create_tile_map(","), vec![0, 0]);
    assert_eq!(create_tile_map("1,"), vec![1, 0]);
    assert_eq!(create_tile_map(",1"), vec![0, 1]);
    assert_eq!(create_tile_map("1,,2"), vec![1, 0, 2]);
    assert_eq!(create_tile_map("1,2\n3,4"), vec![1, 2, 3, 4]);
    assert_eq!(create_tile_map("1,2\r\n3,4\r\n"), vec![1, 2, 0, 3, 4, 0, 0]);
}

#[test]
fn plus_sign_and_leading_zeros_are_accepted() {
    assert_eq!(create_tile_map("+5,007,+0,000"), vec![5, 7, 0, 0]);
}

#[test]
fn cells_that_are_no_numbers_stand_for_tile_zero() {
    assert_eq!(create_tile_map("-5,abc, 7,7 ,1.5,0x10,+,++1,1+,5-"), vec![0; 10]);
    assert_eq!(create_tile_map("1_000,٣,½,12a,a12"), vec![0; 5]);
}

#[test]
fn numbers_beyond_the_range_stand_for_tile_zero() {
    let max = usize::MAX.to_string();
    assert_eq!(create_tile_map(&max), vec![usize::MAX]);
    let beyond = format!("{}0,{}", max, max);
    assert_eq!(create_tile_map(&beyond), vec![0, usize::MAX]);
    assert_eq!(create_tile_map("99999999999999999999999999999999999999999,1"), vec![0, 1]);
    assert_eq!(create_tile_map("00000000000000000000000000000000000000012"), vec![12]);
    if usize::BITS == 64 {
        assert_eq!(create_tile_map("18446744073709551616"), vec![0]);
        assert_eq!(create_tile_map("18446744073709551615"), vec![18446744073709551615]);
    }
}

#[test]
fn agrees_with_the_standard_library() {
    let texts = [
        "",
        ",",
        "1",
        "1,2,3\r\n4,5,6\r\n",
        "\n\n\n",
        "+1,-1,+,-,++,+-1,1+1",
        " 1,1 ,\t1",
        "00,01,0010",
        "4294967295,4294967296,18446744073709551615,18446744073709551616",
        "340282366920938463463374607431768211456",
        "a,b,c,é,日本,1😀2",
        "12,٣4,5٦",
        "1,2;3,4",
        "9,8,7\r6,5\n4",
    ];
    for text in texts {
        assert_eq!(create_tile_map(text), by_the_standard_library(text), "text {:?}", text);
    }
}

#[test]
fn a_map_of_the_size_of_the_background_is_read_whole() {
    let mut text = String::new();
    for row in 0..14 {
        for column in 0..64 {
            if column > 0 {
                text.push(',');
            }
            text.push_str(&(row * 64 + column).to_string());
        }
        text.push_str("\r\n");
    }
    let tiles = create_tile_map(&text);
    assert_eq!(tiles.len(), 14 * 65 + 1);
    assert_eq!(tiles[0], 0);
    assert_eq!(tiles[63], 63);
    assert_eq!(tiles[64], 0);
    assert_eq!(tiles[65], 64);
    assert_eq!(tiles, by_the_standard_library(&text));
}

fn numbered_map() -> Vec<usize> {
    (0..64 * 14).map(|cell| cell + 100).collect()
}

#[test]
fn rows_of_the_picture_come_from_the_tile_map() {
    let map = numbered_map();
    assert_eq!(tile_index(&map, 0, 3), 100);
    assert_eq!(tile_index(&map, 1, 3), 101);
    assert_eq!(tile_index(&map, 63, 3), 163);
    assert_eq!(tile_index(&map, 0, 4), 164);
    assert_eq!(tile_index(&map, 63, 16), 100 + 895);
    assert_eq!(tile_index(&map, 30, 14), 100 + 30 + 64 * 11);
}

#[test]
fn rows_above_and_below_the_picture_are_blank() {
    let map = numbered_map();
    for x in [0, 5, 63] {
        for y in [0, 1, 2, 17, 18, 19] {
            assert_eq!(tile_index(&map, x, y), 1);
        }
    }
}

#[test]
fn world_repeats_in_both_directions() {
    let map = numbered_map();
    assert_eq!(tile_index(&map, 64, 3), 100);
    assert_eq!(tile_index(&map, 130, 23), 102);
    assert_eq!(tile_index(&map, -1, 3), 163);
    assert_eq!(tile_index(&map, -64, -17), 100);
    assert_eq!(tile_index(&map, -65, -4), 100 + 63 + 64 * 13);
    assert_eq!(tile_index(&map, 7, -1), 1);
    assert_eq!(tile_index(&map, 7, 20), 1);
    for (x, y) in [(i32::MAX, i32::MAX), (i32::MIN, i32::MIN), (i32::MIN, 5), (9, i32::MAX)] {
        let column = x.rem_euclid(64) as usize;
        let row = y.rem_euclid(20) as usize;
        let expected = if (3..17).contains(&row) { 100 + column + 64 * (row - 3) } else { 1 };
        assert_eq!(tile_index(&map, x, y), expected);
    }
}

#[test]
fn cells_that_the_tile_map_lacks_are_blank() {
    let short: Vec<usize> = (0..70).map(|cell| cell + 100).collect();
    assert_eq!(tile_index(&short, 5, 4), 169);
    assert_eq!(tile_index(&short, 6, 4), 1);
    assert_eq!(tile_index(&short, 0, 5), 1);
    assert_eq!(tile_index(&[], 0, 3), 1);
}
