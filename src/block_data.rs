use vstd::prelude::*;
use crate::error::DecodeError;
use crate::object_data::LevelObjectType;
use crate::stream::{STREAM_END, stream_entries, prefixed, lemma_prefixed_push};

verus! {

/// The kind of an object entry, without the size that some kinds carry.
#[derive(Debug, Clone, Copy, PartialEq, Eq, Structural)]
pub enum BlockType {
    QuestionBlockPowerup,
    QuestionBlockCoin,
    HiddenBlockCoin,
    HiddenBlockExtraLife,
    BrickPowerup,
    BrickVine,
    BrickStar,
    BrickMultiCoinBlock,
    BrickExtraLife,
    SidewaysPipe,
    UsedBlock,
    Spring,
    ReverseLPipe,
    FlagPole,
    CastleBridge,
    Nothing,
    IslandOrCannon,
    HorizontalBrick,
    HorizontalBlock,
    HorizontalCoins,
    VerticalBrick,
    VerticalBlock,
    PipeNoEntry,
    PipeEntry,
    Hole,
    BalanceHorizontalRope,
    BridgeV7,
    BridgeV8,
    BridgeV10,
    FilledHole,
    HorizontalQuestionBlockV3,
    HorizontalQuestionBlockV7,
    PageSkip,
    CastleAxe,
    AxeRope,
    ScrollStop,
    RedCheepCheep,
    ContinuousBulletBillsOrCheepCheeps,
    StopContinuation,
    LoopCommand,
    DoNotUse,
}

impl BlockType {
    /// The kind of `kind`, its size dropped; `Invalid` becomes `DoNotUse`.
    pub open spec fn spec_of(kind: LevelObjectType) -> BlockType {
        match kind {
            LevelObjectType::QuestionBlockPowerup => BlockType::QuestionBlockPowerup,
            LevelObjectType::QuestionBlockCoin => BlockType::QuestionBlockCoin,
            LevelObjectType::HiddenBlockCoin => BlockType::HiddenBlockCoin,
            LevelObjectType::HiddenBlockExtraLife => BlockType::HiddenBlockExtraLife,
            LevelObjectType::BrickPowerup => BlockType::BrickPowerup,
            LevelObjectType::BrickVine => BlockType::BrickVine,
            LevelObjectType::BrickStar => BlockType::BrickStar,
            LevelObjectType::BrickMultiCoinBlock => BlockType::BrickMultiCoinBlock,
            LevelObjectType::BrickExtraLife => BlockType::BrickExtraLife,
            LevelObjectType::SidewaysPipe => BlockType::SidewaysPipe,
            LevelObjectType::UsedBlock => BlockType::UsedBlock,
            LevelObjectType::Spring => BlockType::Spring,
            LevelObjectType::ReverseLPipe => BlockType::ReverseLPipe,
            LevelObjectType::FlagPole => BlockType::FlagPole,
            LevelObjectType::CastleBridge => BlockType::CastleBridge,
            LevelObjectType::Nothing => BlockType::Nothing,
            LevelObjectType::IslandOrCannon(_) => BlockType::IslandOrCannon,
            LevelObjectType::HorizontalBrick(_) => BlockType::HorizontalBrick,
            LevelObjectType::HorizontalBlock(_) => BlockType::HorizontalBlock,
            LevelObjectType::HorizontalCoin(_) => BlockType::HorizontalCoins,
            LevelObjectType::VerticalBrick(_) => BlockType::VerticalBrick,
            LevelObjectType::VerticalBlock(_) => BlockType::VerticalBlock,
            LevelObjectType::PipeNoEntry(_) => BlockType::PipeNoEntry,
            LevelObjectType::PipeEntry(_) => BlockType::PipeEntry,
            LevelObjectType::Hole(_) => BlockType::Hole,
            LevelObjectType::BalanceHorizontalRope(_) => BlockType::BalanceHorizontalRope,
            LevelObjectType::BridgeY7(_) => BlockType::BridgeV7,
            LevelObjectType::BridgeY8(_) => BlockType::BridgeV8,
            LevelObjectType::BridgeY10(_) => BlockType::BridgeV10,
            LevelObjectType::FilledHole(_) => BlockType::FilledHole,
            LevelObjectType::HorizontalQuestionBlockY3(_) => BlockType::HorizontalQuestionBlockV3,
            LevelObjectType::HorizontalQuestionBlockY7(_) => BlockType::HorizontalQuestionBlockV7,
            LevelObjectType::PageSkip(_) => BlockType::PageSkip,
            LevelObjectType::CastleAxe => BlockType::CastleAxe,
            LevelObjectType::AxeRope => BlockType::AxeRope,
            LevelObjectType::ScrollStop => BlockType::ScrollStop,
            LevelObjectType::RedCheepCheep => BlockType::RedCheepCheep,
            LevelObjectType::ContinuousBulletBillsOrCheepCheeps => {
                BlockType::ContinuousBulletBillsOrCheepCheeps
            },
            LevelObjectType::StopContinuation => BlockType::StopContinuation,
            LevelObjectType::LoopCommand => BlockType::LoopCommand,
            LevelObjectType::Invalid => BlockType::DoNotUse,
        }
    }

    pub fn from_object_type(kind: &LevelObjectType) -> (r: BlockType)
        ensures
            r == BlockType::spec_of(*kind),
    {
        match kind {
            LevelObjectType::QuestionBlockPowerup => BlockType::QuestionBlockPowerup,
            LevelObjectType::QuestionBlockCoin => BlockType::QuestionBlockCoin,
            LevelObjectType::HiddenBlockCoin => BlockType::HiddenBlockCoin,
            LevelObjectType::HiddenBlockExtraLife => BlockType::HiddenBlockExtraLife,
            LevelObjectType::BrickPowerup => BlockType::BrickPowerup,
            LevelObjectType::BrickVine => BlockType::BrickVine,
            LevelObjectType::BrickStar => BlockType::BrickStar,
            LevelObjectType::BrickMultiCoinBlock => BlockType::BrickMultiCoinBlock,
            LevelObjectType::BrickExtraLife => BlockType::BrickExtraLife,
            LevelObjectType::SidewaysPipe => BlockType::SidewaysPipe,
            LevelObjectType::UsedBlock => BlockType::UsedBlock,
            LevelObjectType::Spring => BlockType::Spring,
            LevelObjectType::ReverseLPipe => BlockType::ReverseLPipe,
            LevelObjectType::FlagPole => BlockType::FlagPole,
            LevelObjectType::CastleBridge => BlockType::CastleBridge,
            LevelObjectType::Nothing => BlockType::Nothing,
            LevelObjectType::IslandOrCannon(_) => BlockType::IslandOrCannon,
            LevelObjectType::HorizontalBrick(_) => BlockType::HorizontalBrick,
            LevelObjectType::HorizontalBlock(_) => BlockType::HorizontalBlock,
            LevelObjectType::HorizontalCoin(_) => BlockType::HorizontalCoins,
            LevelObjectType::VerticalBrick(_) => BlockType::VerticalBrick,
            LevelObjectType::VerticalBlock(_) => BlockType::VerticalBlock,
            LevelObjectType::PipeNoEntry(_) => BlockType::PipeNoEntry,
            LevelObjectType::PipeEntry(_) => BlockType::PipeEntry,
            LevelObjectType::Hole(_) => BlockType::Hole,
            LevelObjectType::BalanceHorizontalRope(_) => BlockType::BalanceHorizontalRope,
            LevelObjectType::BridgeY7(_) => BlockType::BridgeV7,
            LevelObjectType::BridgeY8(_) => BlockType::BridgeV8,
            LevelObjectType::BridgeY10(_) => BlockType::BridgeV10,
            LevelObjectType::FilledHole(_) => BlockType::FilledHole,
            LevelObjectType::HorizontalQuestionBlockY3(_) => BlockType::HorizontalQuestionBlockV3,
            LevelObjectType::HorizontalQuestionBlockY7(_) => BlockType::HorizontalQuestionBlockV7,
            LevelObjectType::PageSkip(_) => BlockType::PageSkip,
            LevelObjectType::CastleAxe => BlockType::CastleAxe,
            LevelObjectType::AxeRope => BlockType::AxeRope,
            LevelObjectType::ScrollStop => BlockType::ScrollStop,
            LevelObjectType::RedCheepCheep => BlockType::RedCheepCheep,
            LevelObjectType::ContinuousBulletBillsOrCheepCheeps => {
                BlockType::ContinuousBulletBillsOrCheepCheeps
            },
            LevelObjectType::StopContinuation => BlockType::StopContinuation,
            LevelObjectType::LoopCommand => BlockType::LoopCommand,
            LevelObjectType::Invalid => BlockType::DoNotUse,
        }
    }
}

/// One two-byte object entry, `XXXXYYYY POOOOOOO`, with its kind but not
/// its size.
#[derive(Debug, Clone, Copy, PartialEq, Eq, Structural)]
pub struct Block {
    pub block_type: BlockType,
    pub x_coordinate: u8,
    pub y_coordinate: u8,
    pub new_page_flag: bool,
}

impl Block {
    /// The block that the bytes `b0`, `b1` encode.
    pub open spec fn spec_from_pair(b0: u8, b1: u8) -> Block {
        Block {
            block_type: BlockType::spec_of(LevelObjectType::spec_new(b0 % 16, b1 % 128)),
            x_coordinate: b0 / 16,
            y_coordinate: b0 % 16,
            new_page_flag: b1 >= 128,
        }
    }

    /// Decodes the block held by the first two bytes of `bytes`.
    pub fn from_2_bytes(bytes: &[u8]) -> (r: Block)
        requires
            bytes@.len() >= 2,
        ensures
            r == Block::spec_from_pair(bytes@[0], bytes@[1]),
    {
        let b0 = bytes[0];
        let b1 = bytes[1];
        let x_coordinate = b0 >> 4;
        let y_coordinate = b0 & 0b0000_1111;
        let opcode = b1 & 0b0111_1111;
        let new_page_flag = b1 & 0b1000_0000 != 0;
        assert(x_coordinate == b0 / 16 && y_coordinate == b0 % 16 && opcode == b1 % 128)
            by (bit_vector)
            requires
                x_coordinate == b0 >> 4u8,
                y_coordinate == b0 & 0b0000_1111u8,
                opcode == b1 & 0b0111_1111u8,
        ;
        assert((b1 & 0b1000_0000u8 != 0) == (b1 >= 128)) by (bit_vector);
        let kind = LevelObjectType::new(y_coordinate, opcode);
        let block_type = BlockType::from_object_type(&kind);
        Block { block_type, x_coordinate, y_coordinate, new_page_flag }
    }

    /// The outcome of scanning `bytes` for blocks from offset `i`.
    pub open spec fn stream_from(bytes: Seq<u8>, i: int) -> Result<Seq<Block>, int> {
        stream_entries(bytes, i, |b0: u8, b1: u8| Block::spec_from_pair(b0, b1))
    }
}

/// The blocks of a level, in stream order.
#[derive(Debug, Clone, PartialEq, Eq)]
pub struct LevelBlockData {
    pub blocks: Vec<Block>,
}

impl LevelBlockData {
    /// The outcome of decoding an object region as blocks.
    pub open spec fn spec_decode(bytes: Seq<u8>) -> Result<Seq<Block>, int> {
        Block::stream_from(bytes, 0)
    }

    /// Decodes the blocks of `bytes` up to the first entry that starts with
    /// `0xFD`. Fails with `TruncatedStream` where the bytes run out first.
    pub fn from_bytes(block_bytes: &[u8]) -> (r: Result<LevelBlockData, DecodeError>)
        ensures
            match r {
                Ok(d) => LevelBlockData::spec_decode(block_bytes@) == Ok::<Seq<Block>, int>(
                    d.blocks@,
                ),
                Err(e) => e matches DecodeError::TruncatedStream { offset }
                    && LevelBlockData::spec_decode(block_bytes@) == Err::<Seq<Block>, int>(
                    offset as int,
                ),
            },
    {
        let mut blocks: Vec<Block> = Vec::new();
        let mut idx: usize = 0;
        loop
            invariant
                idx <= block_bytes@.len(),
                LevelBlockData::spec_decode(block_bytes@) == prefixed(
                    blocks@,
                    Block::stream_from(block_bytes@, idx as int),
                ),
            decreases block_bytes@.len() - idx,
        {
            if idx >= block_bytes.len() {
                return Err(DecodeError::TruncatedStream { offset: idx });
            }
            let byte = block_bytes[idx];
            if byte == STREAM_END {
                assert(blocks@ + Seq::<Block>::empty() =~= blocks@);
                return Ok(LevelBlockData { blocks });
            }
            if idx + 1 >= block_bytes.len() {
                return Err(DecodeError::TruncatedStream { offset: idx });
            }
            let rest = vstd::slice::slice_subrange(block_bytes, idx, block_bytes.len());
            let block = Block::from_2_bytes(rest);
            proof {
                lemma_prefixed_push(blocks@, block, Block::stream_from(block_bytes@, idx as int + 2));
            }
            blocks.push(block);
            idx += 2;
        }
    }
}

} // verus!
