use smb1_level::error::DecodeError;
use smb1_level::header::{
    LevelBackground, LevelGround, LevelHeader, LevelPlatform, LevelScenery, LevelStartPosition,
    LevelTime,
};

#[test]
fn header_bit_groups_decode_to_their_table_entries() {
    let h = LevelHeader::from_bytes(&[0b01_1_00_011, 0b10_01_0110]).unwrap();
    assert_eq!(h.time, LevelTime::T400);
    assert!(h.start_autowalk);
    assert_eq!(h.start_position, LevelStartPosition::FallFromSky);
    assert_eq!(h.background, LevelBackground::Overwater);
    assert_eq!(h.platform, LevelPlatform::BulletBills);
    assert_eq!(h.scenery, LevelScenery::Clouds);
    assert_eq!(h.ground, LevelGround::FiveLayerFloorAndCeiling);
}

#[test]
fn header_all_zero_and_all_one_bits() {
    let h = LevelHeader::from_bytes(&[0x00, 0x00]).unwrap();
    assert_eq!(h.time, LevelTime::NotSet);
    assert!(!h.start_autowalk);
    assert_eq!(h.start_position, LevelStartPosition::FallFromSky);
    assert_eq!(h.background, LevelBackground::DayTime);
    assert_eq!(h.platform, LevelPlatform::GreenAndTrees);
    assert_eq!(h.scenery, LevelScenery::Nothing);
    assert_eq!(h.ground, LevelGround::Nothing);

    let h = LevelHeader::from_bytes(&[0xFF, 0xFF]).unwrap();
    assert_eq!(h.time, LevelTime::T200);
    assert!(h.start_autowalk);
    assert_eq!(h.start_position, LevelStartPosition::HalfwayOffGround);
    assert_eq!(h.background, LevelBackground::BlackAndWhite);
    assert_eq!(h.platform, LevelPlatform::Clouds);
    assert_eq!(h.scenery, LevelScenery::Fence);
    assert_eq!(h.ground, LevelGround::All);
}

#[test]
fn header_start_position_codes() {
    let pos = |b0: u8| LevelHeader::from_bytes(&[b0, 0]).unwrap().start_position;
    assert_eq!(pos(0b000_00_000), LevelStartPosition::FallFromSky);
    assert_eq!(pos(0b000_01_000), LevelStartPosition::StartOnGround);
    assert_eq!(pos(0b000_10_000), LevelStartPosition::Unknown);
    assert_eq!(pos(0b000_11_000), LevelStartPosition::HalfwayOffGround);
}

#[test]
fn header_extra_bytes_are_ignored() {
    let a = LevelHeader::from_bytes(&[0x41, 0x83]).unwrap();
    let b = LevelHeader::from_bytes(&[0x41, 0x83, 0xFD, 0x12]).unwrap();
    assert_eq!(a, b);
}

#[test]
fn header_shorter_than_two_bytes_is_malformed() {
    assert_eq!(LevelHeader::from_bytes(&[]), Err(DecodeError::MalformedHeader { len: 0 }));
    assert_eq!(LevelHeader::from_bytes(&[0x41]), Err(DecodeError::MalformedHeader { len: 1 }));
}

#[test]
fn header_fields_read_back_their_bits() {
    for b0 in 0..=255u8 {
        for b1 in 0..=255u8 {
            let h = LevelHeader::from_bytes(&[b0, b1]).unwrap();
            assert_eq!(h.time.value(), (b0 & 0b1100_0000) >> 6);
            assert_eq!(h.start_autowalk, b0 & 0b0010_0000 != 0);
            assert_eq!(h.start_position.value(), (b0 & 0b0001_1000) >> 3);
            assert_eq!(h.background.value(), b0 & 0b0000_0111);
            assert_eq!(h.platform.value(), (b1 & 0b1100_0000) >> 6);
            assert_eq!(h.scenery.value(), (b1 & 0b0011_0000) >> 4);
            assert_eq!(h.ground.value(), b1 & 0b0000_1111);
        }
    }
}

#[test]
fn header_enum_codes_round_trip() {
    for v in 0..4u8 {
        assert_eq!(LevelTime::new(v).value(), v);
        assert_eq!(LevelScenery::new(v).value(), v);
        assert_eq!(LevelPlatform::new(v).value(), v);
    }
    for v in 0..8u8 {
        assert_eq!(LevelBackground::new(v).value(), v);
    }
    for v in 0..16u8 {
        assert_eq!(LevelGround::new(v).value(), v);
    }
    assert_eq!(LevelGround::new(13), LevelGround::BasicFloorThreeLayerGapFiveLayerBricksTwoLayerGapAndCeiling);
    for v in 0..4u8 {
        assert_eq!(LevelStartPosition::new(v).value(), v);
    }
    assert_eq!(LevelStartPosition::new(2), LevelStartPosition::Unknown);
}

#[test]
fn header_distinct_start_codes_give_distinct_headers() {
    let a = LevelHeader::from_bytes(&[0x00, 0x00]).unwrap();
    let b = LevelHeader::from_bytes(&[0x10, 0x00]).unwrap();
    assert_ne!(a, b);
    assert_eq!(a.start_position, LevelStartPosition::FallFromSky);
    assert_eq!(b.start_position, LevelStartPosition::Unknown);
}
