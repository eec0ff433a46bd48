use vstd::prelude::*;
use crate::block_data::{Block, BlockType, LevelBlockData};
use crate::error::{DecodeError, LevelDecodeError, LevelRegion};
use crate::header::LevelHeader;
use crate::object_data::{LevelObject, LevelObjectData};
use crate::stream::{STREAM_END, lemma_stream_shape, stream_entries};

verus! {

/// A decoded level: its header, and its object region both as blocks and as
/// sized objects.
#[derive(Debug, Clone, PartialEq, Eq)]
pub struct Level {
    pub level_header: LevelHeader,
    pub block_data: LevelBlockData,
    pub object_data: LevelObjectData,
}

/// The block and object views of one object region succeed or fail together,
/// at the same offset. On success they have the same length, and each block
/// is the object at its position with the object's size dropped.
pub proof fn lemma_block_and_object_views_agree(bytes: Seq<u8>)
    ensures
        (LevelBlockData::spec_decode(bytes) is Ok) == (LevelObjectData::spec_decode(bytes) is Ok),
        LevelBlockData::spec_decode(bytes) matches Err(e) ==> LevelObjectData::spec_decode(bytes)
            == Err::<Seq<LevelObject>, int>(e),
        LevelBlockData::spec_decode(bytes) matches Ok(bs) ==> LevelObjectData::spec_decode(
            bytes,
        ) matches Ok(os) && bs.len() == os.len() && forall|k: int|
            0 <= k < bs.len() ==> (#[trigger] bs[k]).block_type == BlockType::spec_of(os[k].kind)
                && bs[k].x_coordinate == os[k].x_coordinate && bs[k].y_coordinate
                == os[k].y_coordinate && bs[k].new_page_flag == os[k].new_page_flag,
{
    let fb = |b0: u8, b1: u8| Block::spec_from_pair(b0, b1);
    let fo = |b0: u8, b1: u8| LevelObject::spec_from_pair(b0, b1);
    lemma_stream_shape(bytes, fb);
    lemma_stream_shape(bytes, fo);
    assert(LevelBlockData::spec_decode(bytes) == stream_entries(bytes, 0, fb));
    assert(LevelObjectData::spec_decode(bytes) == stream_entries(bytes, 0, fo));
    if let Ok(bs) = LevelBlockData::spec_decode(bytes) {
        if let Ok(os) = LevelObjectData::spec_decode(bytes) {
            if bs.len() != os.len() {
                let j = 2 * vstd::math::min(bs.len() as int, os.len() as int);
                assert(bytes[j] == STREAM_END);
            }
            assert forall|k: int| 0 <= k < bs.len() implies (#[trigger] bs[k]).block_type
                == BlockType::spec_of(os[k].kind) && bs[k].x_coordinate == os[k].x_coordinate
                && bs[k].y_coordinate == os[k].y_coordinate && bs[k].new_page_flag
                == os[k].new_page_flag by {
                assert(bs[k] == fb(bytes[2 * k], bytes[2 * k + 1]));
                assert(os[k] == fo(bytes[2 * k], bytes[2 * k + 1]));
            }
        }
    }
}

/// Decoding depends on the bytes alone: two decodings of the same header
/// region, or of the same object region, give equal results.
pub proof fn lemma_decoding_is_repeatable(
    header_bytes: Seq<u8>,
    object_bytes: Seq<u8>,
    first: (
        Result<LevelHeader, DecodeError>,
        Result<Seq<LevelObject>, int>,
        Result<Seq<Block>, int>,
    ),
    second: (
        Result<LevelHeader, DecodeError>,
        Result<Seq<LevelObject>, int>,
        Result<Seq<Block>, int>,
    ),
)
    requires
        first == (
            LevelHeader::spec_decode(header_bytes),
            LevelObjectData::spec_decode(object_bytes),
            LevelBlockData::spec_decode(object_bytes),
        ),
        second == (
            LevelHeader::spec_decode(header_bytes),
            LevelObjectData::spec_decode(object_bytes),
            LevelBlockData::spec_decode(object_bytes),
        ),
    ensures
        first == second,
{
}

impl Level {
    pub fn new(
        level_header: LevelHeader,
        block_data: LevelBlockData,
        object_data: LevelObjectData,
    ) -> (r: Level)
        ensures
            r.level_header == level_header,
            r.block_data == block_data,
            r.object_data == object_data,
    {
        Level { level_header, block_data, object_data }
    }

    /// Decodes a level from its header region and its object region. A
    /// malformed header is reported before a truncated object stream.
    pub fn from_regions(header_bytes: &[u8], object_bytes: &[u8]) -> (r: Result<
        Level,
        LevelDecodeError,
    >)
        ensures
            match r {
                Ok(level) => {
                    &&& LevelHeader::spec_decode(header_bytes@) == Ok::<LevelHeader, DecodeError>(
                        level.level_header,
                    )
                    &&& LevelBlockData::spec_decode(object_bytes@) == Ok::<Seq<Block>, int>(
                        level.block_data.blocks@,
                    )
                    &&& LevelObjectData::spec_decode(object_bytes@) == Ok::<
                        Seq<LevelObject>,
                        int,
                    >(level.object_data.objects@)
                },
                Err(e) => match e.region {
                    LevelRegion::Header => LevelHeader::spec_decode(header_bytes@) == Err::<
                        LevelHeader,
                        DecodeError,
                    >(e.error),
                    LevelRegion::Objects => {
                        &&& LevelHeader::spec_decode(header_bytes@) is Ok
                        &&& e.error matches DecodeError::TruncatedStream { offset }
                        &&& LevelObjectData::spec_decode(object_bytes@) == Err::<
                            Seq<LevelObject>,
                            int,
                        >(offset as int)
                    },
                },
            },
    {
        let level_header = match LevelHeader::from_bytes(header_bytes) {
            Ok(h) => h,
            Err(error) => {
                return Err(LevelDecodeError { region: LevelRegion::Header, error });
            },
        };
        let object_data = match LevelObjectData::from_bytes(object_bytes) {
            Ok(d) => d,
            Err(error) => {
                return Err(LevelDecodeError { region: LevelRegion::Objects, error });
            },
        };
        proof {
            lemma_block_and_object_views_agree(object_bytes@);
        }
        let block_data = match LevelBlockData::from_bytes(object_bytes) {
            Ok(d) => d,
            Err(error) => {
                return Err(LevelDecodeError { region: LevelRegion::Objects, error });
            },
        };
        Ok(Level::new(level_header, block_data, object_data))
    }
}

} // verus!
