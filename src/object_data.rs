use vstd::prelude::*;
use crate::error::DecodeError;
use crate::stream::{STREAM_END, stream_entries, prefixed, lemma_prefixed_push, lemma_stream_boundaries};

verus! {

/// What a two-byte object entry places in the level. Variants that carry a
/// `u8` carry a size decoded from the entry's opcode.
#[derive(Debug, Clone, Copy, PartialEq, Eq, Structural)]
pub enum LevelObjectType {
    QuestionBlockPowerup,
    QuestionBlockCoin,
    HiddenBlockCoin,
    HiddenBlockExtraLife,
    BrickPowerup,
    BrickVine,
    BrickStar,
    BrickMultiCoinBlock,
    BrickExtraLife,
    SidewaysPipe,
    UsedBlock,
    Spring,
    ReverseLPipe,
    FlagPole,
    CastleBridge,
    Nothing,
    IslandOrCannon(u8),
    HorizontalBrick(u8),
    HorizontalBlock(u8),
    HorizontalCoin(u8),
    VerticalBrick(u8),
    VerticalBlock(u8),
    PipeNoEntry(u8),
    PipeEntry(u8),
    Hole(u8),
    BalanceHorizontalRope(u8),
    BridgeY7(u8),
    BridgeY8(u8),
    BridgeY10(u8),
    FilledHole(u8),
    HorizontalQuestionBlockY3(u8),
    HorizontalQuestionBlockY7(u8),
    PageSkip(u8),
    CastleAxe,
    AxeRope,
    ScrollStop,
    RedCheepCheep,
    ContinuousBulletBillsOrCheepCheeps,
    StopContinuation,
    LoopCommand,
    Invalid,
}

impl LevelObjectType {
    /// The fixed object with opcode `code`, for `code` below 12.
    pub open spec fn spec_singleton(code: u8) -> LevelObjectType {
        match code {
            0 => LevelObjectType::QuestionBlockPowerup,
            1 => LevelObjectType::QuestionBlockCoin,
            2 => LevelObjectType::HiddenBlockCoin,
            3 => LevelObjectType::HiddenBlockExtraLife,
            4 => LevelObjectType::BrickPowerup,
            5 => LevelObjectType::BrickVine,
            6 => LevelObjectType::BrickStar,
            7 => LevelObjectType::BrickMultiCoinBlock,
            8 => LevelObjectType::BrickExtraLife,
            9 => LevelObjectType::SidewaysPipe,
            10 => LevelObjectType::UsedBlock,
            _ => LevelObjectType::Spring,
        }
    }

    /// The object on row 12 with opcode `code`: the opcode's high nibble picks
    /// the kind and its low nibble plus one is the length.
    pub open spec fn spec_row_c(code: u8) -> LevelObjectType {
        let n = (code % 16 + 1) as u8;
        match code / 16 {
            0 => LevelObjectType::Hole(n),
            1 => LevelObjectType::BalanceHorizontalRope(n),
            2 => LevelObjectType::BridgeY7(n),
            3 => LevelObjectType::BridgeY8(n),
            4 => LevelObjectType::BridgeY10(n),
            5 => LevelObjectType::FilledHole(n),
            6 => LevelObjectType::HorizontalQuestionBlockY3(n),
            7 => LevelObjectType::HorizontalQuestionBlockY7(n),
            _ => LevelObjectType::Invalid,
        }
    }

    /// The object on one of the rows 0 to 11 with opcode `code`.
    pub open spec fn spec_grid_row(code: u8) -> LevelObjectType {
        let low = code % 16;
        let n = (low + 1) as u8;
        if code < 12 {
            LevelObjectType::spec_singleton(code)
        } else if code < 16 {
            LevelObjectType::Invalid
        } else if code < 32 {
            LevelObjectType::IslandOrCannon(n)
        } else if code < 48 {
            LevelObjectType::HorizontalBrick(n)
        } else if code < 64 {
            LevelObjectType::HorizontalBlock(n)
        } else if code < 80 {
            LevelObjectType::HorizontalCoin(n)
        } else if code < 96 {
            if low < 12 {
                LevelObjectType::VerticalBrick(n)
            } else {
                LevelObjectType::Invalid
            }
        } else if code < 112 {
            if low < 12 {
                LevelObjectType::VerticalBlock(n)
            } else {
                LevelObjectType::Invalid
            }
        } else if code < 120 {
            LevelObjectType::PipeNoEntry((low + 2) as u8)
        } else if code < 128 {
            LevelObjectType::PipeEntry((low - 6) as u8)
        } else {
            LevelObjectType::Invalid
        }
    }

    /// The object that opcode `code` stands for on row `row`. Rows 12 and 13
    /// select tables of their own; rows 14 and 15 and every opcode that no
    /// table covers give `Invalid`.
    pub open spec fn spec_new(row: u8, code: u8) -> LevelObjectType {
        if row == 12 {
            LevelObjectType::spec_row_c(code)
        } else if row == 13 {
            if code < 64 {
                LevelObjectType::PageSkip(code)
            } else {
                LevelObjectType::Invalid
            }
        } else if row < 12 {
            LevelObjectType::spec_grid_row(code)
        } else {
            LevelObjectType::Invalid
        }
    }

    /// Whether the size that this object carries, if any, lies in the range
    /// that its encoding allows.
    pub open spec fn size_in_bounds(self) -> bool {
        match self {
            LevelObjectType::IslandOrCannon(n) => 1 <= n <= 16,
            LevelObjectType::HorizontalBrick(n) => 1 <= n <= 16,
            LevelObjectType::HorizontalBlock(n) => 1 <= n <= 16,
            LevelObjectType::HorizontalCoin(n) => 1 <= n <= 16,
            LevelObjectType::VerticalBrick(n) => 1 <= n <= 12,
            LevelObjectType::VerticalBlock(n) => 1 <= n <= 12,
            LevelObjectType::PipeNoEntry(n) => 2 <= n <= 9,
            LevelObjectType::PipeEntry(n) => 2 <= n <= 9,
            LevelObjectType::Hole(n) => 1 <= n <= 16,
            LevelObjectType::BalanceHorizontalRope(n) => 1 <= n <= 16,
            LevelObjectType::BridgeY7(n) => 1 <= n <= 16,
            LevelObjectType::BridgeY8(n) => 1 <= n <= 16,
            LevelObjectType::BridgeY10(n) => 1 <= n <= 16,
            LevelObjectType::FilledHole(n) => 1 <= n <= 16,
            LevelObjectType::HorizontalQuestionBlockY3(n) => 1 <= n <= 16,
            LevelObjectType::HorizontalQuestionBlockY7(n) => 1 <= n <= 16,
            LevelObjectType::PageSkip(n) => n <= 63,
            _ => true,
        }
    }

    /// Classifies opcode `byte` (new-page flag already removed) on row
    /// `y_coordinate`. Total: a pair that no table covers gives `Invalid`.
    pub fn new(y_coordinate: u8, byte: u8) -> (r: LevelObjectType)
        ensures
            r == LevelObjectType::spec_new(y_coordinate, byte),
            r.size_in_bounds(),
    {
        let low_nibble = byte & 0x0f;
        assert(low_nibble == byte % 16) by (bit_vector)
            requires low_nibble == byte & 0x0fu8;
        match (y_coordinate, byte) {
            // row 0xc
            (0xc, 0x00..=0x0f) => LevelObjectType::Hole(low_nibble + 1),
            (0xc, 0x10..=0x1f) => LevelObjectType::BalanceHorizontalRope(low_nibble + 1),
            (0xc, 0x20..=0x2f) => LevelObjectType::BridgeY7(low_nibble + 1),
            (0xc, 0x30..=0x3f) => LevelObjectType::BridgeY8(low_nibble + 1),
            (0xc, 0x40..=0x4f) => LevelObjectType::BridgeY10(low_nibble + 1),
            (0xc, 0x50..=0x5f) => LevelObjectType::FilledHole(low_nibble + 1),
            (0xc, 0x60..=0x6f) => LevelObjectType::HorizontalQuestionBlockY3(low_nibble + 1),
            (0xc, 0x70..=0x7f) => LevelObjectType::HorizontalQuestionBlockY7(low_nibble + 1),
            // row 0xd
            (0xd, 0x00..=0x3f) => LevelObjectType::PageSkip(byte),
            // rows 0x0 to 0xb
            (0x0..=0xb, 0x00) => LevelObjectType::QuestionBlockPowerup,
            (0x0..=0xb, 0x01) => LevelObjectType::QuestionBlockCoin,
            (0x0..=0xb, 0x02) => LevelObjectType::HiddenBlockCoin,
            (0x0..=0xb, 0x03) => LevelObjectType::HiddenBlockExtraLife,
            (0x0..=0xb, 0x04) => LevelObjectType::BrickPowerup,
            (0x0..=0xb, 0x05) => LevelObjectType::BrickVine,
            (0x0..=0xb, 0x06) => LevelObjectType::BrickStar,
            (0x0..=0xb, 0x07) => LevelObjectType::BrickMultiCoinBlock,
            (0x0..=0xb, 0x08) => LevelObjectType::BrickExtraLife,
            (0x0..=0xb, 0x09) => LevelObjectType::SidewaysPipe,
            (0x0..=0xb, 0x0a) => LevelObjectType::UsedBlock,
            (0x0..=0xb, 0x0b) => LevelObjectType::Spring,
            (0x0..=0xb, 0x0c..=0x0f) => LevelObjectType::Invalid,
            (0x0..=0xb, 0x10..=0x1f) => LevelObjectType::IslandOrCannon(low_nibble + 1),
            (0x0..=0xb, 0x20..=0x2f) => LevelObjectType::HorizontalBrick(low_nibble + 1),
            (0x0..=0xb, 0x30..=0x3f) => LevelObjectType::HorizontalBlock(low_nibble + 1),
            (0x0..=0xb, 0x40..=0x4f) => LevelObjectType::HorizontalCoin(low_nibble + 1),
            // a vertical run is at most twelve tiles, the height of the screen
            (0x0..=0xb, 0x50..=0x5b) => LevelObjectType::VerticalBrick(low_nibble + 1),
            (0x0..=0xb, 0x5c..=0x5f) => LevelObjectType::Invalid,
            (0x0..=0xb, 0x60..=0x6b) => LevelObjectType::VerticalBlock(low_nibble + 1),
            (0x0..=0xb, 0x6c..=0x6f) => LevelObjectType::Invalid,
            (0x0..=0xb, 0x70..=0x77) => LevelObjectType::PipeNoEntry(low_nibble + 2),
            (0x0..=0xb, 0x78..=0x7f) => LevelObjectType::PipeEntry(low_nibble - 6),
            _ => LevelObjectType::Invalid,
        }
    }
}

/// One decoded two-byte object entry, `XXXXYYYY POOOOOOO`: column `X`, row
/// `Y`, new-page flag `P` and opcode `O`.
#[derive(Debug, Clone, Copy, PartialEq, Eq, Structural)]
pub struct LevelObject {
    pub kind: LevelObjectType,
    pub x_coordinate: u8,
    pub y_coordinate: u8,
    pub new_page_flag: bool,
}

impl LevelObject {
    /// The entry that the bytes `b0`, `b1` encode.
    pub open spec fn spec_from_pair(b0: u8, b1: u8) -> LevelObject {
        LevelObject {
            kind: LevelObjectType::spec_new(b0 % 16, b1 % 128),
            x_coordinate: b0 / 16,
            y_coordinate: b0 % 16,
            new_page_flag: b1 >= 128,
        }
    }

    /// Decodes the entry held by the first two bytes of `bytes`.
    pub fn from_bytes(bytes: &[u8]) -> (r: LevelObject)
        requires
            bytes@.len() >= 2,
        ensures
            r == LevelObject::spec_from_pair(bytes@[0], bytes@[1]),
            r.x_coordinate < 16,
            r.y_coordinate < 16,
    {
        let b0 = bytes[0];
        let b1 = bytes[1];
        let x_coordinate = b0 >> 4;
        let y_coordinate = b0 & 0b0000_1111;
        let new_page_flag = b1 & 0b1000_0000 != 0;
        assert(x_coordinate == b0 / 16 && y_coordinate == b0 % 16) by (bit_vector)
            requires
                x_coordinate == b0 >> 4u8,
                y_coordinate == b0 & 0b0000_1111u8,
        ;
        assert((b1 & 0b1000_0000u8 != 0) == (b1 >= 128)) by (bit_vector);
        let kind = Self::parse_object_kind(bytes);
        LevelObject { kind, x_coordinate, y_coordinate, new_page_flag }
    }

    fn parse_object_kind(bytes: &[u8]) -> (r: LevelObjectType)
        requires
            bytes@.len() >= 2,
        ensures
            r == LevelObjectType::spec_new(bytes@[0] % 16, bytes@[1] % 128),
    {
        let y_coordinate = bytes[0] & 0b0000_1111;
        let byte = bytes[1] & 0b0111_1111;
        proof {
            let (b0, b1) = (bytes@[0], bytes@[1]);
            assert(y_coordinate == b0 % 16 && byte == b1 % 128) by (bit_vector)
                requires
                    y_coordinate == b0 & 0b0000_1111u8,
                    byte == b1 & 0b0111_1111u8,
            ;
        }
        LevelObjectType::new(y_coordinate, byte)
    }

    /// The outcome of scanning `bytes` for object entries from offset `i`.
    pub open spec fn stream_from(bytes: Seq<u8>, i: int) -> Result<Seq<LevelObject>, int> {
        stream_entries(bytes, i, |b0: u8, b1: u8| LevelObject::spec_from_pair(b0, b1))
    }
}

/// The object entries of a level, in stream order.
#[derive(Debug, Clone, PartialEq, Eq)]
pub struct LevelObjectData {
    pub objects: Vec<LevelObject>,
}

impl LevelObjectData {
    /// The outcome of decoding an object region: its entries up to the
    /// terminator, or the offset of the entry that ran past its end.
    pub open spec fn spec_decode(bytes: Seq<u8>) -> Result<Seq<LevelObject>, int> {
        LevelObject::stream_from(bytes, 0)
    }

    /// Decodes the object entries of `bytes` up to the first entry that starts
    /// with `0xFD`. Fails with `TruncatedStream` where the bytes run out first.
    pub fn from_bytes(bytes: &[u8]) -> (r: Result<LevelObjectData, DecodeError>)
        ensures
            match r {
                Ok(d) => LevelObjectData::spec_decode(bytes@) == Ok::<Seq<LevelObject>, int>(
                    d.objects@,
                ),
                Err(e) => e matches DecodeError::TruncatedStream { offset }
                    && LevelObjectData::spec_decode(bytes@) == Err::<Seq<LevelObject>, int>(
                    offset as int,
                ),
            },
    {
        let mut objects: Vec<LevelObject> = Vec::new();
        let mut idx: usize = 0;
        loop
            invariant
                idx <= bytes@.len(),
                LevelObjectData::spec_decode(bytes@) == prefixed(
                    objects@,
                    LevelObject::stream_from(bytes@, idx as int),
                ),
            decreases bytes@.len() - idx,
        {
            if idx >= bytes.len() {
                return Err(DecodeError::TruncatedStream { offset: idx });
            }
            let byte = bytes[idx];
            if byte == STREAM_END {
                assert(objects@ + Seq::<LevelObject>::empty() =~= objects@);
                return Ok(LevelObjectData { objects });
            }
            if idx + 1 >= bytes.len() {
                return Err(DecodeError::TruncatedStream { offset: idx });
            }
            let rest = vstd::slice::slice_subrange(bytes, idx, bytes.len());
            let object = LevelObject::from_bytes(rest);
            proof {
                lemma_prefixed_push(
                    objects@,
                    object,
                    LevelObject::stream_from(bytes@, idx as int + 2),
                );
            }
            objects.push(object);
            idx += 2;
        }
    }
}

/// An object region whose first byte is `0xFD` decodes to no objects, and a
/// region that holds no `0xFD` byte at all fails as truncated.
pub proof fn lemma_object_stream_boundaries(bytes: Seq<u8>)
    ensures
        bytes.len() > 0 && bytes[0] == STREAM_END ==> LevelObjectData::spec_decode(bytes) == Ok::<
            Seq<LevelObject>,
            int,
        >(Seq::empty()),
        (forall|j: int| 0 <= j < bytes.len() ==> bytes[j] != STREAM_END)
            ==> LevelObjectData::spec_decode(bytes) is Err,
{
    lemma_stream_boundaries(bytes, |b0: u8, b1: u8| LevelObject::spec_from_pair(b0, b1));
}

} // verus!
