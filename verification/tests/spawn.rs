use dino_runner::enemy::EnemyKind;
use dino_runner::spawn::spawn_batch;
use dino_runner::spawn::SpawnInfo;
use dino_runner::spawn::SpawnPlan;

#[test]
fn zero_byte_is_a_bird_in_the_top_lane_after_40_frames() {
    let info = SpawnInfo(0b00_000_000);
    assert_eq!(info.enemy_kind(), EnemyKind::Bird);
    assert_eq!(info.delay(), 40);
    assert_eq!(info.enemy_arg_2bit(), 0);
    assert_eq!(info.spawn_y(), 48);
    assert_eq!(info.decode(), SpawnPlan { kind: EnemyKind::Bird, delay: 40, variant: 0 });
}

#[test]
fn delay_has_eight_buckets_of_twelve_frames() {
    let expected = [40u32, 52, 64, 76, 88, 100, 112, 124];
    for low in 0..8u8 {
        assert_eq!(SpawnInfo(low).delay(), expected[low as usize]);
        assert_eq!(SpawnInfo(low | 0b1111_1000).delay(), expected[low as usize]);
    }
}

#[test]
fn kind_is_split_half_and_half() {
    for bucket in 0..8u8 {
        let kind = SpawnInfo(bucket << 3).enemy_kind();
        if bucket < 4 {
            assert_eq!(kind, EnemyKind::Bird);
        } else {
            assert_eq!(kind, EnemyKind::Cactus);
        }
    }
    let birds = (0..=255u8).filter(|b| SpawnInfo(*b).enemy_kind() == EnemyKind::Bird).count();
    assert_eq!(birds, 128);
}

#[test]
fn argument_is_the_top_two_bits() {
    assert_eq!(SpawnInfo(0b0011_1111).enemy_arg_2bit(), 0);
    assert_eq!(SpawnInfo(0b0100_0000).enemy_arg_2bit(), 1);
    assert_eq!(SpawnInfo(0b1000_0000).enemy_arg_2bit(), 2);
    assert_eq!(SpawnInfo(0b1100_0000).enemy_arg_2bit(), 3);
    assert_eq!(SpawnInfo(0b1111_1111).enemy_arg_2bit(), 3);
}

#[test]
fn every_byte_decodes_by_its_bit_fields() {
    for b in 0..=255u8 {
        let info = SpawnInfo::from(b);
        assert_eq!(info.delay(), (b & 0b111) as u32 * 12 + 40);
        let bird = ((b & 0b111000) >> 3) < 4;
        assert_eq!(info.enemy_kind() == EnemyKind::Bird, bird);
        assert_eq!(info.enemy_arg_2bit(), (b & 0b1100_0000) >> 6);
    }
}

#[test]
fn decoding_depends_on_the_byte_alone() {
    for b in 0..=255u8 {
        let first = SpawnInfo(b).decode();
        let again = SpawnInfo(b).decode();
        let copy = SpawnInfo::from(b).decode();
        assert_eq!(first, again);
        assert_eq!(first, copy);
        assert_eq!(first.kind, SpawnInfo(b).enemy_kind());
        assert_eq!(first.delay, SpawnInfo(b).delay());
        assert_eq!(first.variant, SpawnInfo(b).enemy_arg_2bit());
    }
}

#[test]
fn birds_fly_in_four_lanes_and_cacti_stand_on_the_ground() {
    assert_eq!(SpawnInfo(0b00_000_000).spawn_y(), 48);
    assert_eq!(SpawnInfo(0b01_000_000).spawn_y(), 56);
    assert_eq!(SpawnInfo(0b10_000_000).spawn_y(), 64);
    assert_eq!(SpawnInfo(0b11_000_000).spawn_y(), 72);
    assert_eq!(SpawnInfo(0b00_100_000).spawn_y(), 82);
    assert_eq!(SpawnInfo(0b11_111_111).spawn_y(), 82);
}

#[test]
fn enemies_appear_at_the_right_edge() {
    let bird = SpawnInfo(0b10_001_011).enemy();
    assert_eq!(bird.kind, EnemyKind::Bird);
    assert_eq!(bird.position.x.to_raw(), 240 * 256);
    assert_eq!(bird.position.y.to_raw(), 64 * 256);
    let cactus = SpawnInfo(0b10_101_011).enemy();
    assert_eq!(cactus.kind, EnemyKind::Cactus);
    assert_eq!(cactus.position.x.to_raw(), 240 * 256);
    assert_eq!(cactus.position.y.to_raw(), 82 * 256);
    assert_eq!(cactus.position.floor().x, 240);
}

#[test]
fn batch_takes_the_four_bytes_lowest_first() {
    let batch = spawn_batch(0x0403_0201);
    assert_eq!(batch, [SpawnInfo(1), SpawnInfo(2), SpawnInfo(3), SpawnInfo(4)]);
    assert_eq!(spawn_batch(0), [SpawnInfo(0); 4]);
    assert_eq!(spawn_batch(u32::MAX), [SpawnInfo(255); 4]);
    assert_eq!(
        spawn_batch(0xdead_beef),
        [SpawnInfo(0xef), SpawnInfo(0xbe), SpawnInfo(0xad), SpawnInfo(0xde)]
    );
}
