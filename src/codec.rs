use vstd::prelude::*;

use base64::Engine;
use std::io::Read;

use crate::error::Error;
use crate::utils::le_bytes_to_vec;
use crate::utils::le_elements;
use crate::utils::u32_from_le;
use crate::utils::u32_le_bytes;

verus! {

/// The compression applied to a layer's bytes before base64 encoding.
#[derive(Debug, Clone, Copy, PartialEq, Eq, Structural)]
pub enum Compression {
    Uncompressed,
    Zlib,
    Gzip,
    Zstd,
}

/// The ASCII bytes of the document token that names `kind` ("zlib",
/// "gzip", "zstd"); an empty token marks uncompressed data.
pub open spec fn token_of(kind: Compression) -> Seq<u8> {
    match kind {
        Compression::Uncompressed => seq![],
        Compression::Zlib => seq![122u8, 108u8, 105u8, 98u8],
        Compression::Gzip => seq![103u8, 122u8, 105u8, 112u8],
        Compression::Zstd => seq![122u8, 115u8, 116u8, 100u8],
    }
}

impl Compression {
    /// The compression that a document's token names, if any.
    pub fn from_token(token: &[u8]) -> (r: Option<Compression>)
        ensures
            match r {
                Some(kind) => token@ == token_of(kind),
                None => forall|kind: Compression| token@ != #[trigger] token_of(kind),
            },
    {
        let n = token.len();
        if n == 0 {
            assert(token@ =~= token_of(Compression::Uncompressed));
            return Some(Compression::Uncompressed);
        }
        if n != 4 {
            return None;
        }
        let (c0, c1, c2, c3) = (token[0], token[1], token[2], token[3]);
        let kind = if c0 == 122u8 && c1 == 108u8 && c2 == 105u8 && c3 == 98u8 {
            Compression::Zlib
        } else if c0 == 103u8 && c1 == 122u8 && c2 == 105u8 && c3 == 112u8 {
            Compression::Gzip
        } else if c0 == 122u8 && c1 == 115u8 && c2 == 116u8 && c3 == 100u8 {
            Compression::Zstd
        } else {
            assert forall|kind: Compression| token@ != #[trigger] token_of(kind) by {
                if token@ == token_of(kind) {
                    assert(token@[0] == token_of(kind)[0]);
                    assert(token@[3] == token_of(kind)[3]);
                }
            }
            return None;
        };
        assert(token@ =~= token_of(kind));
        Some(kind)
    }
}

/// What the standard, padded base64 decoder makes of `text`; `None` where it
/// rejects the text.
pub uninterp spec fn base64_decoded(text: Seq<char>) -> Option<Seq<u8>>;

/// What a zlib stream decoder makes of `bytes`; `None` where it fails.
pub uninterp spec fn zlib_inflated(bytes: Seq<u8>) -> Option<Seq<u8>>;

/// What a single-member gzip decoder makes of `bytes`; `None` where it fails.
pub uninterp spec fn gzip_inflated(bytes: Seq<u8>) -> Option<Seq<u8>>;

/// What a zstd frame decoder makes of `bytes`; `None` where it fails.
pub uninterp spec fn zstd_decoded(bytes: Seq<u8>) -> Option<Seq<u8>>;

/// Relies on base64's `STANDARD` engine `decode` (standard alphabet, canonical
/// padding required): its outcome depends on the text alone.
#[verifier::external_body]
fn base64_decode(text: &str) -> (r: Result<Vec<u8>, String>)
    ensures
        match r {
            Ok(bytes) => base64_decoded(text@) == Some(bytes@),
            Err(_) => base64_decoded(text@) is None,
        },
{
    match base64::engine::general_purpose::STANDARD.decode(text) {
        Ok(bytes) => Ok(bytes),
        Err(e) => Err(e.to_string()),
    }
}

/// Relies on flate2's `read::ZlibDecoder`, read to the end over an in-memory
/// buffer: its outcome depends on the bytes alone.
#[verifier::external_body]
fn zlib_inflate(bytes: &[u8]) -> (r: Result<Vec<u8>, String>)
    ensures
        match r {
            Ok(out) => zlib_inflated(bytes@) == Some(out@),
            Err(_) => zlib_inflated(bytes@) is None,
        },
{
    let mut out = Vec::new();
    match flate2::read::ZlibDecoder::new(bytes).read_to_end(&mut out) {
        Ok(_) => Ok(out),
        Err(e) => Err(e.to_string()),
    }
}

/// Relies on flate2's `read::GzDecoder`, read to the end over an in-memory
/// buffer: its outcome depends on the bytes alone.
#[verifier::external_body]
fn gzip_inflate(bytes: &[u8]) -> (r: Result<Vec<u8>, String>)
    ensures
        match r {
            Ok(out) => gzip_inflated(bytes@) == Some(out@),
            Err(_) => gzip_inflated(bytes@) is None,
        },
{
    let mut out = Vec::new();
    match flate2::read::GzDecoder::new(bytes).read_to_end(&mut out) {
        Ok(_) => Ok(out),
        Err(e) => Err(e.to_string()),
    }
}

/// Relies on zstd's `stream::decode_all` (a frame `Decoder` read to the end)
/// over an in-memory buffer: its outcome depends on the bytes alone.
#[verifier::external_body]
fn zstd_decode(bytes: &[u8]) -> (r: Result<Vec<u8>, String>)
    ensures
        match r {
            Ok(out) => zstd_decoded(bytes@) == Some(out@),
            Err(_) => zstd_decoded(bytes@) is None,
        },
{
    match zstd::stream::decode_all(bytes) {
        Ok(out) => Ok(out),
        Err(e) => Err(e.to_string()),
    }
}

/// The tile indices whose little-endian bytes make up `bytes`.
pub open spec fn tiles_of(bytes: Seq<u8>) -> Seq<i32> {
    le_elements::<i32>(bytes)
}

/// The little-endian bytes of `tiles`, four per index, in order.
pub open spec fn le_bytes_of(tiles: Seq<i32>) -> Seq<u8> {
    Seq::new(4 * tiles.len(), |j: int| u32_le_bytes(tiles[j / 4] as u32)[j % 4])
}

proof fn lemma_i32_le_bytes_read_back(x: i32)
    ensures
        u32_from_le(u32_le_bytes(x as u32)) as i32 == x,
{
    let u = x as u32;
    let b = u32_le_bytes(u);
    assert(b[0] == u as u8 && b[1] == (u >> 8u32) as u8 && b[2] == (u >> 16u32) as u8 && b[3] == (u
        >> 24u32) as u8);
    assert(((u as u8) as u32) | ((((u >> 8u32) as u8) as u32) << 8u32) | ((((u >> 16u32) as u8) as u32)
        << 16u32) | ((((u >> 24u32) as u8) as u32) << 24u32) == u) by (bit_vector);
    assert(u as i32 == x) by (bit_vector)
        requires
            u == x as u32,
    ;
}

/// Reading back the little-endian bytes of any sequence of tile indices
/// gives that sequence, and its byte length is always a multiple of four.
pub proof fn lemma_le_bytes_read_back(tiles: Seq<i32>)
    ensures
        le_bytes_of(tiles).len() % 4 == 0,
        reinterpreted(le_bytes_of(tiles)) == Some(tiles),
{
    let b = le_bytes_of(tiles);
    assert forall|i: int| 0 <= i < tiles.len() implies #[trigger] tiles_of(b)[i] == tiles[i] by {
        let chunk = b.subrange(i * 4, i * 4 + 4);
        assert forall|j: int| 0 <= j < 4 implies chunk[j] == u32_le_bytes(tiles[i] as u32)[j] by {
            assert((i * 4 + j) / 4 == i && (i * 4 + j) % 4 == j);
        }
        assert(chunk =~= u32_le_bytes(tiles[i] as u32));
        lemma_i32_le_bytes_read_back(tiles[i]);
    }
    assert(tiles_of(b) =~= tiles);
}

/// The tile indices read from `bytes`, or `None` when its length is not a
/// multiple of four.
pub open spec fn reinterpreted(bytes: Seq<u8>) -> Option<Seq<i32>> {
    if bytes.len() % 4 == 0 {
        Some(tiles_of(bytes))
    } else {
        None
    }
}

/// The bytes that `kind` restores from `bytes`; `None` where the codec fails.
pub open spec fn decompressed(kind: Compression, bytes: Seq<u8>) -> Option<Seq<u8>> {
    match kind {
        Compression::Uncompressed => Some(bytes),
        Compression::Zlib => zlib_inflated(bytes),
        Compression::Gzip => gzip_inflated(bytes),
        Compression::Zstd => zstd_decoded(bytes),
    }
}

/// The tile indices that `bytes` holds under `kind`, where both the codec and
/// the reinterpretation succeed.
pub open spec fn decompressed_tiles(kind: Compression, bytes: Seq<u8>) -> Option<Seq<i32>> {
    match decompressed(kind, bytes) {
        Some(raw) => reinterpreted(raw),
        None => None,
    }
}

/// The tile indices that base64 `text` holds under `kind`.
pub open spec fn encoded_tiles(text: Seq<char>, kind: Compression) -> Option<Seq<i32>> {
    match base64_decoded(text) {
        Some(bytes) => decompressed_tiles(kind, bytes),
        None => None,
    }
}

/// Base64-decodes `text` (standard alphabet, padding required).
pub fn decode_base64(text: &str) -> (r: Result<Vec<u8>, Error>)
    ensures
        match r {
            Ok(bytes) => base64_decoded(text@) == Some(bytes@),
            Err(e) => base64_decoded(text@) is None && e is InvalidBase64,
        },
{
    match base64_decode(text) {
        Ok(bytes) => Ok(bytes),
        Err(message) => Err(Error::InvalidBase64(message)),
    }
}

/// Reads a buffer as tile indices: four little-endian bytes each.
pub fn tiles_from_bytes(bytes: &[u8]) -> (r: Result<Vec<i32>, Error>)
    ensures
        match r {
            Ok(tiles) => reinterpreted(bytes@) == Some(tiles@),
            Err(e) => reinterpreted(bytes@) is None && e == (Error::ByteAlignment {
                len: bytes@.len() as usize,
                element_size: 4,
            }),
        },
{
    le_bytes_to_vec::<i32>(bytes)
}

/// Turns what a codec handed back into tile indices: its output is
/// reinterpreted, its failure is reported under `kind`.
pub fn tiles_from_codec_output(kind: Compression, output: Result<Vec<u8>, String>) -> (r: Result<
    Vec<i32>,
    Error,
>)
    ensures
        match output {
            Ok(bytes) => match r {
                Ok(tiles) => reinterpreted(bytes@) == Some(tiles@),
                Err(e) => reinterpreted(bytes@) is None && e == (Error::ByteAlignment {
                    len: bytes@.len() as usize,
                    element_size: 4,
                }),
            },
            Err(message) => r == Err::<Vec<i32>, Error>(
                Error::Decompression { codec: kind, message },
            ),
        },
{
    match output {
        Ok(bytes) => tiles_from_bytes(bytes.as_slice()),
        Err(message) => Err(Error::Decompression { codec: kind, message }),
    }
}

/// Restores `buf` with the codec `kind` and reads the result as tile indices.
pub fn decompress(buf: &[u8], kind: Compression) -> (r: Result<Vec<i32>, Error>)
    ensures
        match r {
            Ok(tiles) => decompressed_tiles(kind, buf@) == Some(tiles@),
            Err(_) => decompressed_tiles(kind, buf@) is None,
        },
        decompressed(kind, buf@) is None <==> (r matches Err(Error::Decompression { codec, .. })
            && codec == kind),
        match decompressed(kind, buf@) {
            Some(raw) => raw.len() % 4 != 0 ==> r == Err::<Vec<i32>, Error>(
                Error::ByteAlignment { len: raw.len() as usize, element_size: 4 },
            ),
            None => true,
        },
{
    match kind {
        Compression::Uncompressed => tiles_from_bytes(buf),
        Compression::Zlib => tiles_from_codec_output(kind, zlib_inflate(buf)),
        Compression::Gzip => tiles_from_codec_output(kind, gzip_inflate(buf)),
        Compression::Zstd => tiles_from_codec_output(kind, zstd_decode(buf)),
    }
}

} // verus!
