use smb1_level::block_data::{Block, BlockType, LevelBlockData};
use smb1_level::error::{DecodeError, LevelDecodeError, LevelRegion};
use smb1_level::header::{LevelHeader, LevelTime};
use smb1_level::level::Level;
use smb1_level::object_data::{LevelObject, LevelObjectData, LevelObjectType};

#[test]
fn row_c_bridge_band() {
    let obj = LevelObject::from_bytes(&[0x3C, 0x25]);
    assert_eq!(obj.y_coordinate, 0xC);
    assert_eq!(obj.x_coordinate, 3);
    assert!(!obj.new_page_flag);
    assert_eq!(obj.kind, LevelObjectType::BridgeY7(6));
}

#[test]
fn two_entries_then_terminator() {
    let bytes = [0x10, 0x00, 0x20, 0x10, 0xFD, 0x00];
    let data = LevelObjectData::from_bytes(&bytes).unwrap();
    assert_eq!(data.objects.len(), 2);
    assert_eq!(
        data.objects[0],
        LevelObject {
            kind: LevelObjectType::QuestionBlockPowerup,
            x_coordinate: 1,
            y_coordinate: 0,
            new_page_flag: false,
        }
    );
    assert_eq!(
        data.objects[1],
        LevelObject {
            kind: LevelObjectType::IslandOrCannon(1),
            x_coordinate: 2,
            y_coordinate: 0,
            new_page_flag: false,
        }
    );
}

#[test]
fn bytes_after_terminator_are_not_read() {
    let a = LevelObjectData::from_bytes(&[0x10, 0x00, 0xFD]).unwrap();
    let b = LevelObjectData::from_bytes(&[0x10, 0x00, 0xFD, 0x77]).unwrap();
    assert_eq!(a, b);
}

#[test]
fn terminator_first_gives_no_entries() {
    let data = LevelObjectData::from_bytes(&[0xFD]).unwrap();
    assert!(data.objects.is_empty());
    let data = LevelObjectData::from_bytes(&[0xFD, 0x10, 0x00]).unwrap();
    assert!(data.objects.is_empty());
    let blocks = LevelBlockData::from_bytes(&[0xFD]).unwrap();
    assert!(blocks.blocks.is_empty());
}

#[test]
fn missing_terminator_is_truncated() {
    assert_eq!(
        LevelObjectData::from_bytes(&[]),
        Err(DecodeError::TruncatedStream { offset: 0 })
    );
    assert_eq!(
        LevelObjectData::from_bytes(&[0x10, 0x00, 0x20, 0x10]),
        Err(DecodeError::TruncatedStream { offset: 4 })
    );
    assert_eq!(
        LevelObjectData::from_bytes(&[0x10, 0x00, 0x20]),
        Err(DecodeError::TruncatedStream { offset: 2 })
    );
    assert_eq!(
        LevelBlockData::from_bytes(&[0x10, 0x00, 0x20]),
        Err(DecodeError::TruncatedStream { offset: 2 })
    );
}

#[test]
fn terminator_in_opcode_position_does_not_end_stream() {
    // 0xFD as the second byte of an entry is an opcode, not a terminator
    let data = LevelObjectData::from_bytes(&[0x10, 0xFD, 0xFD]).unwrap();
    assert_eq!(data.objects.len(), 1);
    assert!(data.objects[0].new_page_flag);
    assert_eq!(data.objects[0].kind, LevelObjectType::PipeEntry(7));
}

#[test]
fn decoding_twice_gives_equal_results() {
    let bytes = [0x3C, 0x25, 0x47, 0xF8, 0x0D, 0x02, 0xFD];
    let a = LevelObjectData::from_bytes(&bytes);
    let b = LevelObjectData::from_bytes(&bytes);
    assert_eq!(a, b);
    let a = LevelBlockData::from_bytes(&bytes);
    let b = LevelBlockData::from_bytes(&bytes);
    assert_eq!(a, b);
    let a = Level::from_regions(&[0x50, 0x31], &bytes);
    let b = Level::from_regions(&[0x50, 0x31], &bytes);
    assert_eq!(a, b);
}

#[test]
fn classify_sizes_stay_in_bounds() {
    for row in 0..16u8 {
        for opcode in 0..128u8 {
            match LevelObjectType::new(row, opcode) {
                LevelObjectType::IslandOrCannon(n)
                | LevelObjectType::HorizontalBrick(n)
                | LevelObjectType::HorizontalBlock(n)
                | LevelObjectType::HorizontalCoin(n)
                | LevelObjectType::Hole(n)
                | LevelObjectType::BalanceHorizontalRope(n)
                | LevelObjectType::BridgeY7(n)
                | LevelObjectType::BridgeY8(n)
                | LevelObjectType::BridgeY10(n)
                | LevelObjectType::FilledHole(n)
                | LevelObjectType::HorizontalQuestionBlockY3(n)
                | LevelObjectType::HorizontalQuestionBlockY7(n) => assert!((1..=16).contains(&n)),
                LevelObjectType::VerticalBrick(n) | LevelObjectType::VerticalBlock(n) => {
                    assert!((1..=12).contains(&n))
                }
                LevelObjectType::PipeNoEntry(n) | LevelObjectType::PipeEntry(n) => {
                    assert!((2..=9).contains(&n))
                }
                LevelObjectType::PageSkip(n) => assert!(n <= 0x3F),
                _ => {}
            }
        }
    }
}

#[test]
fn classify_grid_rows() {
    assert_eq!(LevelObjectType::new(0, 0x00), LevelObjectType::QuestionBlockPowerup);
    assert_eq!(LevelObjectType::new(5, 0x0B), LevelObjectType::Spring);
    assert_eq!(LevelObjectType::new(5, 0x0C), LevelObjectType::Invalid);
    assert_eq!(LevelObjectType::new(11, 0x1F), LevelObjectType::IslandOrCannon(16));
    assert_eq!(LevelObjectType::new(2, 0x23), LevelObjectType::HorizontalBrick(4));
    assert_eq!(LevelObjectType::new(2, 0x30), LevelObjectType::HorizontalBlock(1));
    assert_eq!(LevelObjectType::new(2, 0x4F), LevelObjectType::HorizontalCoin(16));
    assert_eq!(LevelObjectType::new(2, 0x5B), LevelObjectType::VerticalBrick(12));
    assert_eq!(LevelObjectType::new(2, 0x5C), LevelObjectType::Invalid);
    assert_eq!(LevelObjectType::new(2, 0x60), LevelObjectType::VerticalBlock(1));
    assert_eq!(LevelObjectType::new(2, 0x6C), LevelObjectType::Invalid);
    assert_eq!(LevelObjectType::new(2, 0x70), LevelObjectType::PipeNoEntry(2));
    assert_eq!(LevelObjectType::new(2, 0x77), LevelObjectType::PipeNoEntry(9));
    assert_eq!(LevelObjectType::new(2, 0x78), LevelObjectType::PipeEntry(2));
    assert_eq!(LevelObjectType::new(2, 0x7F), LevelObjectType::PipeEntry(9));
    assert_eq!(LevelObjectType::new(2, 0x80), LevelObjectType::Invalid);
}

#[test]
fn classify_reserved_rows() {
    assert_eq!(LevelObjectType::new(0xC, 0x00), LevelObjectType::Hole(1));
    assert_eq!(LevelObjectType::new(0xC, 0x1F), LevelObjectType::BalanceHorizontalRope(16));
    assert_eq!(LevelObjectType::new(0xC, 0x33), LevelObjectType::BridgeY8(4));
    assert_eq!(LevelObjectType::new(0xC, 0x40), LevelObjectType::BridgeY10(1));
    assert_eq!(LevelObjectType::new(0xC, 0x52), LevelObjectType::FilledHole(3));
    assert_eq!(LevelObjectType::new(0xC, 0x6A), LevelObjectType::HorizontalQuestionBlockY3(11));
    assert_eq!(LevelObjectType::new(0xC, 0x7F), LevelObjectType::HorizontalQuestionBlockY7(16));
    assert_eq!(LevelObjectType::new(0xD, 0x00), LevelObjectType::PageSkip(0));
    assert_eq!(LevelObjectType::new(0xD, 0x3F), LevelObjectType::PageSkip(0x3F));
    assert_eq!(LevelObjectType::new(0xD, 0x40), LevelObjectType::Invalid);
    assert_eq!(LevelObjectType::new(0xE, 0x00), LevelObjectType::Invalid);
    assert_eq!(LevelObjectType::new(0xF, 0x05), LevelObjectType::Invalid);
}

#[test]
fn entry_fields_from_bytes() {
    let obj = LevelObject::from_bytes(&[0xA7, 0x85]);
    assert_eq!(obj.x_coordinate, 0xA);
    assert_eq!(obj.y_coordinate, 7);
    assert!(obj.new_page_flag);
    assert_eq!(obj.kind, LevelObjectType::BrickVine);
}

#[test]
fn block_drops_size_of_kind() {
    let b = Block::from_2_bytes(&[0x3C, 0xA5]);
    assert_eq!(b.block_type, BlockType::BridgeV7);
    assert_eq!(b.x_coordinate, 3);
    assert_eq!(b.y_coordinate, 0xC);
    assert!(b.new_page_flag);
    assert_eq!(Block::from_2_bytes(&[0x02, 0x0E]).block_type, BlockType::DoNotUse);
    assert_eq!(Block::from_2_bytes(&[0x02, 0x44]).block_type, BlockType::HorizontalCoins);
    assert_eq!(
        BlockType::from_object_type(&LevelObjectType::HorizontalQuestionBlockY3(4)),
        BlockType::HorizontalQuestionBlockV3
    );
}

#[test]
fn block_and_object_views_agree() {
    let bytes = [0x3C, 0x25, 0x47, 0xF8, 0x0D, 0x02, 0x21, 0x5C, 0xFD];
    let objects = LevelObjectData::from_bytes(&bytes).unwrap().objects;
    let blocks = LevelBlockData::from_bytes(&bytes).unwrap().blocks;
    assert_eq!(objects.len(), blocks.len());
    for (o, b) in objects.iter().zip(blocks.iter()) {
        assert_eq!(BlockType::from_object_type(&o.kind), b.block_type);
        assert_eq!(o.x_coordinate, b.x_coordinate);
        assert_eq!(o.y_coordinate, b.y_coordinate);
        assert_eq!(o.new_page_flag, b.new_page_flag);
    }
}

#[test]
fn level_from_regions() {
    let level = Level::from_regions(&[0x50, 0x31], &[0x3C, 0x25, 0xFD]).unwrap();
    assert_eq!(level.level_header.time, LevelTime::T400);
    assert_eq!(level.object_data.objects.len(), 1);
    assert_eq!(level.block_data.blocks.len(), 1);
    assert_eq!(level.object_data.objects[0].kind, LevelObjectType::BridgeY7(6));
}

#[test]
fn level_errors_name_their_region() {
    assert_eq!(
        Level::from_regions(&[0x50], &[0xFD]),
        Err(LevelDecodeError {
            region: LevelRegion::Header,
            error: DecodeError::MalformedHeader { len: 1 },
        })
    );
    assert_eq!(
        Level::from_regions(&[0x50, 0x31], &[0x3C, 0x25, 0x00]),
        Err(LevelDecodeError {
            region: LevelRegion::Objects,
            error: DecodeError::TruncatedStream { offset: 2 },
        })
    );
    // a malformed header is reported before a truncated stream
    assert_eq!(
        Level::from_regions(&[], &[]),
        Err(LevelDecodeError {
            region: LevelRegion::Header,
            error: DecodeError::MalformedHeader { len: 0 },
        })
    );
}

#[test]
fn level_new_keeps_its_parts() {
    let header = LevelHeader::from_bytes(&[0x00, 0x01]).unwrap();
    let blocks = LevelBlockData::from_bytes(&[0xFD]).unwrap();
    let objects = LevelObjectData::from_bytes(&[0xFD]).unwrap();
    let level = Level::new(header, blocks.clone(), objects.clone());
    assert_eq!(level.level_header, header);
    assert_eq!(level.block_data, blocks);
    assert_eq!(level.object_data, objects);
}
