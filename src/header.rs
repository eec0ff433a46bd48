use vstd::prelude::*;
use crate::error::DecodeError;

verus! {

/// Bits 7..6 of the first header byte.
pub open spec fn time_bits(b0: u8) -> u8 {
    b0 / 64
}

/// Bit 5 of the first header byte.
pub open spec fn autowalk_bit(b0: u8) -> u8 {
    (b0 / 32) % 2
}

/// Bits 4..3 of the first header byte.
pub open spec fn start_position_bits(b0: u8) -> u8 {
    (b0 / 8) % 4
}

/// Bits 2..0 of the first header byte.
pub open spec fn background_bits(b0: u8) -> u8 {
    b0 % 8
}

/// Bits 7..6 of the second header byte.
pub open spec fn platform_bits(b1: u8) -> u8 {
    b1 / 64
}

/// Bits 5..4 of the second header byte.
pub open spec fn scenery_bits(b1: u8) -> u8 {
    (b1 / 16) % 4
}

/// Bits 3..0 of the second header byte.
pub open spec fn ground_bits(b1: u8) -> u8 {
    b1 % 16
}

/// The time limit of a level.
#[derive(Debug, Clone, Copy, PartialEq, Eq, Structural)]
pub enum LevelTime {
    NotSet,
    T400,
    T300,
    T200,
}

impl LevelTime {
    /// The raw two-bit code of this time limit.
    pub open spec fn spec_value(self) -> u8 {
        match self {
            LevelTime::NotSet => 0,
            LevelTime::T400 => 1,
            LevelTime::T300 => 2,
            LevelTime::T200 => 3,
        }
    }

    /// The time limit with the raw two-bit code `val`.
    pub open spec fn spec_new(val: u8) -> LevelTime {
        match val {
            0 => LevelTime::NotSet,
            1 => LevelTime::T400,
            2 => LevelTime::T300,
            _ => LevelTime::T200,
        }
    }

    pub fn new(val: u8) -> (r: LevelTime)
        requires
            val < 4,
        ensures
            r == LevelTime::spec_new(val),
            r.spec_value() == val,
    {
        match val {
            0 => LevelTime::NotSet,
            1 => LevelTime::T400,
            2 => LevelTime::T300,
            _ => LevelTime::T200,
        }
    }

    pub fn value(&self) -> (r: u8)
        ensures
            r == self.spec_value(),
            r < 4,
            LevelTime::spec_new(r) == *self,
    {
        match self {
            LevelTime::NotSet => 0,
            LevelTime::T400 => 1,
            LevelTime::T300 => 2,
            LevelTime::T200 => 3,
        }
    }
}

/// Where the player enters the level. Code 2 has no known meaning and
/// decodes to `Unknown`.
#[derive(Debug, Clone, Copy, PartialEq, Eq, Structural)]
pub enum LevelStartPosition {
    FallFromSky,
    StartOnGround,
    Unknown,
    HalfwayOffGround,
}

impl LevelStartPosition {
    /// The raw two-bit code of this start position.
    pub open spec fn spec_value(self) -> u8 {
        match self {
            LevelStartPosition::FallFromSky => 0,
            LevelStartPosition::StartOnGround => 1,
            LevelStartPosition::Unknown => 2,
            LevelStartPosition::HalfwayOffGround => 3,
        }
    }

    /// The start position with the raw two-bit code `val`.
    pub open spec fn spec_new(val: u8) -> LevelStartPosition {
        match val {
            0 => LevelStartPosition::FallFromSky,
            1 => LevelStartPosition::StartOnGround,
            2 => LevelStartPosition::Unknown,
            _ => LevelStartPosition::HalfwayOffGround,
        }
    }

    pub fn new(val: u8) -> (r: LevelStartPosition)
        requires
            val < 4,
        ensures
            r == LevelStartPosition::spec_new(val),
            r.spec_value() == val,
    {
        match val {
            0 => LevelStartPosition::FallFromSky,
            1 => LevelStartPosition::StartOnGround,
            2 => LevelStartPosition::Unknown,
            _ => LevelStartPosition::HalfwayOffGround,
        }
    }

    pub fn value(&self) -> (r: u8)
        ensures
            r == self.spec_value(),
            r < 4,
            LevelStartPosition::spec_new(r) == *self,
    {
        match self {
            LevelStartPosition::FallFromSky => 0,
            LevelStartPosition::StartOnGround => 1,
            LevelStartPosition::Unknown => 2,
            LevelStartPosition::HalfwayOffGround => 3,
        }
    }
}

/// The background (or season) of a level.
#[derive(Debug, Clone, Copy, PartialEq, Eq, Structural)]
pub enum LevelBackground {
    DayTime,
    Underwater,
    CastleWall,
    Overwater,
    NightTime,
    DayTimeSnow,
    NightTimeSnow,
    BlackAndWhite,
}

impl LevelBackground {
    /// The raw three-bit code of this background.
    pub open spec fn spec_value(self) -> u8 {
        match self {
            LevelBackground::DayTime => 0,
            LevelBackground::Underwater => 1,
            LevelBackground::CastleWall => 2,
            LevelBackground::Overwater => 3,
            LevelBackground::NightTime => 4,
            LevelBackground::DayTimeSnow => 5,
            LevelBackground::NightTimeSnow => 6,
            LevelBackground::BlackAndWhite => 7,
        }
    }

    /// The background with the raw three-bit code `val`.
    pub open spec fn spec_new(val: u8) -> LevelBackground {
        match val {
            0 => LevelBackground::DayTime,
            1 => LevelBackground::Underwater,
            2 => LevelBackground::CastleWall,
            3 => LevelBackground::Overwater,
            4 => LevelBackground::NightTime,
            5 => LevelBackground::DayTimeSnow,
            6 => LevelBackground::NightTimeSnow,
            _ => LevelBackground::BlackAndWhite,
        }
    }

    pub fn new(val: u8) -> (r: LevelBackground)
        requires
            val < 8,
        ensures
            r == LevelBackground::spec_new(val),
            r.spec_value() == val,
    {
        match val {
            0 => LevelBackground::DayTime,
            1 => LevelBackground::Underwater,
            2 => LevelBackground::CastleWall,
            3 => LevelBackground::Overwater,
            4 => LevelBackground::NightTime,
            5 => LevelBackground::DayTimeSnow,
            6 => LevelBackground::NightTimeSnow,
            _ => LevelBackground::BlackAndWhite,
        }
    }

    pub fn value(&self) -> (r: u8)
        ensures
            r == self.spec_value(),
            r < 8,
            LevelBackground::spec_new(r) == *self,
    {
        match self {
            LevelBackground::DayTime => 0,
            LevelBackground::Underwater => 1,
            LevelBackground::CastleWall => 2,
            LevelBackground::Overwater => 3,
            LevelBackground::NightTime => 4,
            LevelBackground::DayTimeSnow => 5,
            LevelBackground::NightTimeSnow => 6,
            LevelBackground::BlackAndWhite => 7,
        }
    }
}

/// The scenery drawn behind a level.
#[derive(Debug, Clone, Copy, PartialEq, Eq, Structural)]
pub enum LevelScenery {
    Nothing,
    Clouds,
    Mountains,
    Fence,
}

impl LevelScenery {
    /// The raw two-bit code of this scenery.
    pub open spec fn spec_value(self) -> u8 {
        match self {
            LevelScenery::Nothing => 0,
            LevelScenery::Clouds => 1,
            LevelScenery::Mountains => 2,
            LevelScenery::Fence => 3,
        }
    }

    /// The scenery with the raw two-bit code `val`.
    pub open spec fn spec_new(val: u8) -> LevelScenery {
        match val {
            0 => LevelScenery::Nothing,
            1 => LevelScenery::Clouds,
            2 => LevelScenery::Mountains,
            _ => LevelScenery::Fence,
        }
    }

    pub fn new(val: u8) -> (r: LevelScenery)
        requires
            val < 4,
        ensures
            r == LevelScenery::spec_new(val),
            r.spec_value() == val,
    {
        match val {
            0 => LevelScenery::Nothing,
            1 => LevelScenery::Clouds,
            2 => LevelScenery::Mountains,
            _ => LevelScenery::Fence,
        }
    }

    pub fn value(&self) -> (r: u8)
        ensures
            r == self.spec_value(),
            r < 4,
            LevelScenery::spec_new(r) == *self,
    {
        match self {
            LevelScenery::Nothing => 0,
            LevelScenery::Clouds => 1,
            LevelScenery::Mountains => 2,
            LevelScenery::Fence => 3,
        }
    }
}

/// The style of the platforms of a level.
#[derive(Debug, Clone, Copy, PartialEq, Eq, Structural)]
pub enum LevelPlatform {
    GreenAndTrees,
    OrangeAndMushrooms,
    BulletBills,
    Clouds,
}

impl LevelPlatform {
    /// The raw two-bit code of this platform style.
    pub open spec fn spec_value(self) -> u8 {
        match self {
            LevelPlatform::GreenAndTrees => 0,
            LevelPlatform::OrangeAndMushrooms => 1,
            LevelPlatform::BulletBills => 2,
            LevelPlatform::Clouds => 3,
        }
    }

    /// The platform style with the raw two-bit code `val`.
    pub open spec fn spec_new(val: u8) -> LevelPlatform {
        match val {
            0 => LevelPlatform::GreenAndTrees,
            1 => LevelPlatform::OrangeAndMushrooms,
            2 => LevelPlatform::BulletBills,
            _ => LevelPlatform::Clouds,
        }
    }

    pub fn new(val: u8) -> (r: LevelPlatform)
        requires
            val < 4,
        ensures
            r == LevelPlatform::spec_new(val),
            r.spec_value() == val,
    {
        match val {
            0 => LevelPlatform::GreenAndTrees,
            1 => LevelPlatform::OrangeAndMushrooms,
            2 => LevelPlatform::BulletBills,
            _ => LevelPlatform::Clouds,
        }
    }

    pub fn value(&self) -> (r: u8)
        ensures
            r == self.spec_value(),
            r < 4,
            LevelPlatform::spec_new(r) == *self,
    {
        match self {
            LevelPlatform::GreenAndTrees => 0,
            LevelPlatform::OrangeAndMushrooms => 1,
            LevelPlatform::BulletBills => 2,
            LevelPlatform::Clouds => 3,
        }
    }
}

/// The ground and ceiling structure of a level.
#[derive(Debug, Clone, Copy, PartialEq, Eq, Structural)]
pub enum LevelGround {
    Nothing,
    BasicFloor,
    BasicFloorAndCeiling,
    BasicFloorAndThreeLayerCeiling,
    BasicFloorAndFourLayerCeiling,
    BasicFloorAndEightLayerCeiling,
    FiveLayerFloorAndCeiling,
    FiveLayerFloorAndThreeLayerCeiling,
    FiveLayerFloorAndFourLayerCeiling,
    SixLayerFloorAndCeiling,
    Ceiling,
    SixLayerFloorAndFourLayerCeiling,
    NineLayerFloorAndCeiling,
    BasicFloorThreeLayerGapFiveLayerBricksTwoLayerGapAndCeiling,
    BasicFloorThreeLayerGapFourLayerBricksThreeLayerGapAndCeiling,
    All,
}

impl LevelGround {
    /// The raw four-bit code of this ground structure.
    pub open spec fn spec_value(self) -> u8 {
        match self {
            LevelGround::Nothing => 0,
            LevelGround::BasicFloor => 1,
            LevelGround::BasicFloorAndCeiling => 2,
            LevelGround::BasicFloorAndThreeLayerCeiling => 3,
            LevelGround::BasicFloorAndFourLayerCeiling => 4,
            LevelGround::BasicFloorAndEightLayerCeiling => 5,
            LevelGround::FiveLayerFloorAndCeiling => 6,
            LevelGround::FiveLayerFloorAndThreeLayerCeiling => 7,
            LevelGround::FiveLayerFloorAndFourLayerCeiling => 8,
            LevelGround::SixLayerFloorAndCeiling => 9,
            LevelGround::Ceiling => 10,
            LevelGround::SixLayerFloorAndFourLayerCeiling => 11,
            LevelGround::NineLayerFloorAndCeiling => 12,
            LevelGround::BasicFloorThreeLayerGapFiveLayerBricksTwoLayerGapAndCeiling => 13,
            LevelGround::BasicFloorThreeLayerGapFourLayerBricksThreeLayerGapAndCeiling => 14,
            LevelGround::All => 15,
        }
    }

    /// The ground structure with the raw four-bit code `val`.
    pub open spec fn spec_new(val: u8) -> LevelGround {
        match val {
            0 => LevelGround::Nothing,
            1 => LevelGround::BasicFloor,
            2 => LevelGround::BasicFloorAndCeiling,
            3 => LevelGround::BasicFloorAndThreeLayerCeiling,
            4 => LevelGround::BasicFloorAndFourLayerCeiling,
            5 => LevelGround::BasicFloorAndEightLayerCeiling,
            6 => LevelGround::FiveLayerFloorAndCeiling,
            7 => LevelGround::FiveLayerFloorAndThreeLayerCeiling,
            8 => LevelGround::FiveLayerFloorAndFourLayerCeiling,
            9 => LevelGround::SixLayerFloorAndCeiling,
            10 => LevelGround::Ceiling,
            11 => LevelGround::SixLayerFloorAndFourLayerCeiling,
            12 => LevelGround::NineLayerFloorAndCeiling,
            13 => LevelGround::BasicFloorThreeLayerGapFiveLayerBricksTwoLayerGapAndCeiling,
            14 => LevelGround::BasicFloorThreeLayerGapFourLayerBricksThreeLayerGapAndCeiling,
            _ => LevelGround::All,
        }
    }

    pub fn new(val: u8) -> (r: LevelGround)
        requires
            val < 16,
        ensures
            r == LevelGround::spec_new(val),
            r.spec_value() == val,
    {
        match val {
            0 => LevelGround::Nothing,
            1 => LevelGround::BasicFloor,
            2 => LevelGround::BasicFloorAndCeiling,
            3 => LevelGround::BasicFloorAndThreeLayerCeiling,
            4 => LevelGround::BasicFloorAndFourLayerCeiling,
            5 => LevelGround::BasicFloorAndEightLayerCeiling,
            6 => LevelGround::FiveLayerFloorAndCeiling,
            7 => LevelGround::FiveLayerFloorAndThreeLayerCeiling,
            8 => LevelGround::FiveLayerFloorAndFourLayerCeiling,
            9 => LevelGround::SixLayerFloorAndCeiling,
            10 => LevelGround::Ceiling,
            11 => LevelGround::SixLayerFloorAndFourLayerCeiling,
            12 => LevelGround::NineLayerFloorAndCeiling,
            13 => LevelGround::BasicFloorThreeLayerGapFiveLayerBricksTwoLayerGapAndCeiling,
            14 => LevelGround::BasicFloorThreeLayerGapFourLayerBricksThreeLayerGapAndCeiling,
            _ => LevelGround::All,
        }
    }

    pub fn value(&self) -> (r: u8)
        ensures
            r == self.spec_value(),
            r < 16,
            LevelGround::spec_new(r) == *self,
    {
        match self {
            LevelGround::Nothing => 0,
            LevelGround::BasicFloor => 1,
            LevelGround::BasicFloorAndCeiling => 2,
            LevelGround::BasicFloorAndThreeLayerCeiling => 3,
            LevelGround::BasicFloorAndFourLayerCeiling => 4,
            LevelGround::BasicFloorAndEightLayerCeiling => 5,
            LevelGround::FiveLayerFloorAndCeiling => 6,
            LevelGround::FiveLayerFloorAndThreeLayerCeiling => 7,
            LevelGround::FiveLayerFloorAndFourLayerCeiling => 8,
            LevelGround::SixLayerFloorAndCeiling => 9,
            LevelGround::Ceiling => 10,
            LevelGround::SixLayerFloorAndFourLayerCeiling => 11,
            LevelGround::NineLayerFloorAndCeiling => 12,
            LevelGround::BasicFloorThreeLayerGapFiveLayerBricksTwoLayerGapAndCeiling => 13,
            LevelGround::BasicFloorThreeLayerGapFourLayerBricksThreeLayerGapAndCeiling => 14,
            LevelGround::All => 15,
        }
    }
}

/// The decoded two-byte level header.
///
/// Layout, most significant bit first: `TTAYYBBB PPSSGGGG`, where `T` is the
/// time limit, `A` the autowalk flag, `Y` the start position, `B` the
/// background, `P` the platform style, `S` the scenery and `G` the ground.
#[derive(Debug, Clone, Copy, PartialEq, Eq, Structural)]
pub struct LevelHeader {
    pub time: LevelTime,
    pub start_position: LevelStartPosition,
    pub start_autowalk: bool,
    pub background: LevelBackground,
    pub scenery: LevelScenery,
    pub platform: LevelPlatform,
    pub ground: LevelGround,
}

impl LevelHeader {
    /// The header that the bytes `b0`, `b1` encode.
    pub open spec fn spec_from_pair(b0: u8, b1: u8) -> LevelHeader {
        LevelHeader {
            time: LevelTime::spec_new(time_bits(b0)),
            start_position: LevelStartPosition::spec_new(start_position_bits(b0)),
            start_autowalk: autowalk_bit(b0) == 1,
            background: LevelBackground::spec_new(background_bits(b0)),
            scenery: LevelScenery::spec_new(scenery_bits(b1)),
            platform: LevelPlatform::spec_new(platform_bits(b1)),
            ground: LevelGround::spec_new(ground_bits(b1)),
        }
    }

    /// The outcome of decoding a header region: the first two bytes are the
    /// header; a shorter region is malformed.
    pub open spec fn spec_decode(bytes: Seq<u8>) -> Result<LevelHeader, DecodeError> {
        if bytes.len() < 2 {
            Err(DecodeError::MalformedHeader { len: bytes.len() as usize })
        } else {
            Ok(LevelHeader::spec_from_pair(bytes[0], bytes[1]))
        }
    }

    /// Decodes the header from the first two bytes of `bytes`; any further
    /// bytes are ignored.
    pub fn from_bytes(bytes: &[u8]) -> (r: Result<LevelHeader, DecodeError>)
        ensures
            r == LevelHeader::spec_decode(bytes@),
    {
        if bytes.len() < 2 {
            return Err(DecodeError::MalformedHeader { len: bytes.len() });
        }
        let time = Self::parse_level_time(bytes);
        let start_position = Self::parse_level_start_position(bytes);
        let start_autowalk = Self::parse_level_start_autowalk(bytes);
        let background = Self::parse_level_background(bytes);
        let scenery = Self::parse_level_scenery(bytes);
        let platform = Self::parse_level_platform(bytes);
        let ground = Self::parse_level_ground(bytes);
        Ok(LevelHeader {
            time,
            start_position,
            start_autowalk,
            background,
            scenery,
            platform,
            ground,
        })
    }

    /// `TTxxxxxx xxxxxxxx`
    fn parse_level_time(bytes: &[u8]) -> (r: LevelTime)
        requires
            bytes@.len() >= 1,
        ensures
            r == LevelTime::spec_new(time_bits(bytes@[0])),
    {
        let b = bytes[0];
        let t = (b & 0b1100_0000) >> 6;
        assert(t == b / 64 && t < 4) by (bit_vector)
            requires t == (b & 0b1100_0000u8) >> 6u8;
        LevelTime::new(t)
    }

    /// `xxAxxxxx xxxxxxxx`
    fn parse_level_start_autowalk(bytes: &[u8]) -> (r: bool)
        requires
            bytes@.len() >= 1,
        ensures
            r == (autowalk_bit(bytes@[0]) == 1),
    {
        let b = bytes[0];
        let t = (b & 0b0010_0000) >> 5;
        assert(t == (b / 32) % 2) by (bit_vector)
            requires t == (b & 0b0010_0000u8) >> 5u8;
        t == 1
    }

    /// `xxxYYxxx xxxxxxxx`
    fn parse_level_start_position(bytes: &[u8]) -> (r: LevelStartPosition)
        requires
            bytes@.len() >= 1,
        ensures
            r == LevelStartPosition::spec_new(start_position_bits(bytes@[0])),
    {
        let b = bytes[0];
        let t = (b & 0b0001_1000) >> 3;
        assert(t == (b / 8) % 4 && t < 4) by (bit_vector)
            requires t == (b & 0b0001_1000u8) >> 3u8;
        LevelStartPosition::new(t)
    }

    /// `xxxxxBBB xxxxxxxx`
    fn parse_level_background(bytes: &[u8]) -> (r: LevelBackground)
        requires
            bytes@.len() >= 1,
        ensures
            r == LevelBackground::spec_new(background_bits(bytes@[0])),
    {
        let b = bytes[0];
        let t = b & 0b0000_0111;
        assert(t == b % 8 && t < 8) by (bit_vector)
            requires t == b & 0b0000_0111u8;
        LevelBackground::new(t)
    }

    /// `xxxxxxxx PPxxxxxx`
    fn parse_level_platform(bytes: &[u8]) -> (r: LevelPlatform)
        requires
            bytes@.len() >= 2,
        ensures
            r == LevelPlatform::spec_new(platform_bits(bytes@[1])),
    {
        let b = bytes[1];
        let t = (b & 0b1100_0000) >> 6;
        assert(t == b / 64 && t < 4) by (bit_vector)
            requires t == (b & 0b1100_0000u8) >> 6u8;
        LevelPlatform::new(t)
    }

    /// `xxxxxxxx xxSSxxxx`
    fn parse_level_scenery(bytes: &[u8]) -> (r: LevelScenery)
        requires
            bytes@.len() >= 2,
        ensures
            r == LevelScenery::spec_new(scenery_bits(bytes@[1])),
    {
        let b = bytes[1];
        let t = (b & 0b0011_0000) >> 4;
        assert(t == (b / 16) % 4 && t < 4) by (bit_vector)
            requires t == (b & 0b0011_0000u8) >> 4u8;
        LevelScenery::new(t)
    }

    /// `xxxxxxxx xxxxGGGG`
    fn parse_level_ground(bytes: &[u8]) -> (r: LevelGround)
        requires
            bytes@.len() >= 2,
        ensures
            r == LevelGround::spec_new(ground_bits(bytes@[1])),
    {
        let b = bytes[1];
        let t = b & 0b0000_1111;
        assert(t == b % 16 && t < 16) by (bit_vector)
            requires t == b & 0b0000_1111u8;
        LevelGround::new(t)
    }
}

/// Every header field is a function of its own bit range, the ranges are
/// disjoint and together cover both bytes, and reading back each decoded
/// field's code recovers the bits it came from.
pub proof fn lemma_header_fields_recover_bits(b0: u8, b1: u8)
    ensures
        ({
            let h = LevelHeader::spec_from_pair(b0, b1);
            &&& h.time.spec_value() == time_bits(b0)
            &&& (h.start_autowalk <==> autowalk_bit(b0) == 1)
            &&& h.start_position.spec_value() == start_position_bits(b0)
            &&& h.background.spec_value() == background_bits(b0)
            &&& h.platform.spec_value() == platform_bits(b1)
            &&& h.scenery.spec_value() == scenery_bits(b1)
            &&& h.ground.spec_value() == ground_bits(b1)
            &&& b0 as int == 64 * time_bits(b0) + 32 * autowalk_bit(b0) + 8 * start_position_bits(
                b0,
            ) + background_bits(b0)
            &&& b1 as int == 64 * platform_bits(b1) + 16 * scenery_bits(b1) + ground_bits(b1)
        }),
{
    assert(b0 / 64 < 4 && (b0 / 8) % 4 < 4 && b0 % 8 < 8);
    assert(b1 / 64 < 4 && (b1 / 16) % 4 < 4 && b1 % 16 < 16);
    assert(b0 as int == 64 * (b0 / 64) + 32 * ((b0 / 32) % 2) + 8 * ((b0 / 8) % 4) + b0 % 8)
        by (nonlinear_arith);
    assert(b1 as int == 64 * (b1 / 64) + 16 * ((b1 / 16) % 4) + b1 % 16) by (nonlinear_arith);
}

/// Distinct header bytes decode to distinct headers: no bit of the header is
/// lost in decoding.
pub proof fn lemma_header_decoding_is_injective(a0: u8, a1: u8, c0: u8, c1: u8)
    requires
        LevelHeader::spec_from_pair(a0, a1) == LevelHeader::spec_from_pair(c0, c1),
    ensures
        a0 == c0,
        a1 == c1,
{
    lemma_header_fields_recover_bits(a0, a1);
    lemma_header_fields_recover_bits(c0, c1);
}

} // verus!
