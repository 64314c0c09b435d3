use vstd::prelude::*;

use crate::codec::base64_decoded;
use crate::codec::decode_base64;
use crate::codec::decompress;
use crate::codec::decompressed;
use crate::codec::encoded_tiles;
use crate::codec::le_bytes_of;
use crate::codec::lemma_le_bytes_read_back;
use crate::codec::Compression;
use crate::error::Error;

verus! {

/// A layer's tile data as a document holds it: either the indices
/// themselves, or base64 text that encodes them.
#[derive(Debug, Clone, PartialEq, Eq)]
pub enum DataSource {
    Raw(Vec<i32>),
    Encoded(String),
}

/// An absent compression tag means the bytes are stored as they are.
pub open spec fn compression_or_none(compression: Option<Compression>) -> Compression {
    match compression {
        Some(kind) => kind,
        None => Compression::Uncompressed,
    }
}

/// `r` is what decoding base64 `text` and restoring it with `kind` owes:
/// the tile indices where every stage succeeds, else the error of the first
/// stage that fails.
pub open spec fn decoded_as_stated(
    text: Seq<char>,
    kind: Compression,
    r: Result<Vec<i32>, Error>,
) -> bool {
    &&& match r {
        Ok(tiles) => encoded_tiles(text, kind) == Some(tiles@),
        Err(_) => encoded_tiles(text, kind) is None,
    }
    &&& match base64_decoded(text) {
        None => r matches Err(Error::InvalidBase64(_)),
        Some(bytes) => match decompressed(kind, bytes) {
            None => r matches Err(Error::Decompression { codec, .. }) && codec == kind,
            Some(raw) => raw.len() % 4 != 0 ==> r == Err::<Vec<i32>, Error>(
                Error::ByteAlignment { len: raw.len() as usize, element_size: 4 },
            ),
        },
    }
}

/// A copy of `tiles`.
fn copy_tiles(tiles: &Vec<i32>) -> (r: Vec<i32>)
    ensures
        r@ == tiles@,
{
    let mut out: Vec<i32> = Vec::new();
    let mut i: usize = 0;
    while i < tiles.len()
        invariant
            i <= tiles@.len(),
            out@ == tiles@.subrange(0, i as int),
        decreases tiles@.len() - i,
    {
        out.push(tiles[i]);
        i = i + 1;
        assert(out@ =~= tiles@.subrange(0, i as int));
    }
    assert(out@ =~= tiles@);
    out
}

impl DataSource {
    /// The tile indices that this value stands for under `compression`:
    /// raw indices stand for themselves whatever the tag says.
    pub open spec fn extracted(&self, compression: Option<Compression>) -> Option<Seq<i32>> {
        match self {
            DataSource::Raw(tiles) => Some(tiles@),
            DataSource::Encoded(text) => encoded_tiles(text@, compression_or_none(compression)),
        }
    }

    /// The raw bytes that encoded text decodes to, with no decompression.
    pub fn decode(&self) -> (r: Result<Vec<u8>, Error>)
        ensures
            match self {
                DataSource::Raw(_) => r == Err::<Vec<u8>, Error>(Error::InvalidSourceShape),
                DataSource::Encoded(text) => match r {
                    Ok(bytes) => base64_decoded(text@) == Some(bytes@),
                    Err(e) => base64_decoded(text@) is None && e is InvalidBase64,
                },
            },
    {
        match self {
            DataSource::Raw(_) => Error::InvalidSourceShape.fail(),
            DataSource::Encoded(text) => decode_base64(text.as_str()),
        }
    }

    /// Decodes encoded text, restores it with `kind` and reads the result as
    /// tile indices. Raw indices are refused.
    pub fn decode_and_decompress(&self, kind: Compression) -> (r: Result<Vec<i32>, Error>)
        ensures
            match self {
                DataSource::Raw(_) => r == Err::<Vec<i32>, Error>(Error::InvalidSourceShape),
                DataSource::Encoded(text) => decoded_as_stated(text@, kind, r),
            },
    {
        match self {
            DataSource::Raw(_) => Error::InvalidSourceShape.fail(),
            DataSource::Encoded(text) => {
                let bytes = decode_base64(text.as_str())?;
                decompress(bytes.as_slice(), kind)
            },
        }
    }

    /// The tile indices under `compression` (absent means uncompressed).
    /// Raw indices come back unchanged and the tag is ignored for them.
    pub fn extract_tiles(&self, compression: Option<Compression>) -> (r: Result<Vec<i32>, Error>)
        ensures
            match r {
                Ok(tiles) => self.extracted(compression) == Some(tiles@),
                Err(_) => self.extracted(compression) is None,
            },
            match self {
                DataSource::Raw(tiles) => r matches Ok(v) && v@ == tiles@,
                DataSource::Encoded(text) => decoded_as_stated(
                    text@,
                    compression_or_none(compression),
                    r,
                ),
            },
    {
        match self {
            DataSource::Raw(tiles) => Ok(copy_tiles(tiles)),
            DataSource::Encoded(_) => {
                let kind = match compression {
                    Some(kind) => kind,
                    None => Compression::Uncompressed,
                };
                self.decode_and_decompress(kind)
            },
        }
    }

    /// The raw indices; encoded text is refused.
    pub fn raw_tiles(&self) -> (r: Result<Vec<i32>, Error>)
        ensures
            match self {
                DataSource::Raw(tiles) => r matches Ok(v) && v@ == tiles@,
                DataSource::Encoded(_) => r == Err::<Vec<i32>, Error>(
                    Error::UnsupportedShapeForOperation,
                ),
            },
    {
        match self {
            DataSource::Raw(tiles) => Ok(copy_tiles(tiles)),
            DataSource::Encoded(_) => Error::UnsupportedShapeForOperation.fail(),
        }
    }
}

/// Raw tile indices are extracted unchanged under every compression tag,
/// absent or present.
pub proof fn lemma_raw_ignores_compression(tiles: Vec<i32>, compression: Option<Compression>)
    ensures
        DataSource::Raw(tiles).extracted(compression) == Some(tiles@),
{
}

/// Round trip through each codec: where `text` base64-decodes to `packed`
/// and `kind` restores `packed` to the little-endian bytes of `tiles`,
/// extracting the encoded text under `kind` gives `tiles` back.
pub proof fn lemma_codec_round_trip(
    text: String,
    packed: Seq<u8>,
    kind: Compression,
    tiles: Seq<i32>,
)
    requires
        base64_decoded(text@) == Some(packed),
        decompressed(kind, packed) == Some(le_bytes_of(tiles)),
    ensures
        DataSource::Encoded(text).extracted(Some(kind)) == Some(tiles),
{
    lemma_le_bytes_read_back(tiles);
}

impl std::str::FromStr for DataSource {
    type Err = Error;

    /// A string field always holds encoded tile data.
    fn from_str(s: &str) -> (r: Result<Self, Self::Err>)
        ensures
            r matches Ok(DataSource::Encoded(t)) && t@ == s@,
    {
        Ok(DataSource::Encoded(s.to_owned()))
    }
}

} // verus!
