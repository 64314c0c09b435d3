use std::io::Write;
use std::str::FromStr;

use base64::Engine;
use tme::codec::decode_base64;
use tme::codec::decompress;
use tme::codec::tiles_from_bytes;
use tme::codec::tiles_from_codec_output;
use tme::Compression;
use tme::DataSource;
use tme::Error;

const ALL_TAGS: [Option<Compression>; 5] = [
    None,
    Some(Compression::Uncompressed),
    Some(Compression::Zlib),
    Some(Compression::Gzip),
    Some(Compression::Zstd),
];

fn le_bytes(tiles: &[i32]) -> Vec<u8> {
    tiles.iter().flat_map(|t| t.to_le_bytes()).collect()
}

fn b64(bytes: &[u8]) -> String {
    base64::engine::general_purpose::STANDARD.encode(bytes)
}

fn zlib(bytes: &[u8]) -> Vec<u8> {
    let mut e = flate2::write::ZlibEncoder::new(Vec::new(), flate2::Compression::default());
    e.write_all(bytes).unwrap();
    e.finish().unwrap()
}

fn gzip(bytes: &[u8]) -> Vec<u8> {
    let mut e = flate2::write::GzEncoder::new(Vec::new(), flate2::Compression::default());
    e.write_all(bytes).unwrap();
    e.finish().unwrap()
}

fn zstd_frame(bytes: &[u8]) -> Vec<u8> {
    zstd::stream::encode_all(bytes, 3).unwrap()
}

#[test]
fn decodes_into_tiles() {
    assert_eq!(
        DataSource::Raw(vec![2]).extract_tiles(None).unwrap(),
        vec![2]
    );

    // Raw data source should ignore compression if specified
    assert_eq!(
        DataSource::Raw(vec![2])
            .extract_tiles(Some(Compression::Zlib))
            .unwrap(),
        vec![2]
    );

    assert_eq!(
        DataSource::Encoded("AgAAAAIAAAA=".to_owned())
            .extract_tiles(None)
            .unwrap(),
        vec![2, 2]
    );

    assert_eq!(
        DataSource::Encoded("eJxjYmBgAAAADAAD".to_owned())
            .extract_tiles(Some(Compression::Zlib))
            .unwrap(),
        vec![2]
    );

    assert_eq!(
        DataSource::Encoded("KLUv/SAEIQAAAgAAAA==".to_owned())
            .extract_tiles(Some(Compression::Zstd))
            .unwrap(),
        vec![2]
    );

    assert_eq!(
        DataSource::Encoded("H4sIAAAAAAAACmNiYGAAAJcXTYsEAAAA".to_owned())
            .extract_tiles(Some(Compression::Gzip))
            .unwrap(),
        vec![2]
    );
}

#[test]
fn raw_indices_ignore_every_tag() {
    let tiles = vec![0, 7, -3, i32::MAX, i32::MIN];
    for tag in ALL_TAGS {
        assert_eq!(DataSource::Raw(tiles.clone()).extract_tiles(tag).unwrap(), tiles);
    }
    assert_eq!(DataSource::Raw(vec![]).extract_tiles(Some(Compression::Zstd)).unwrap(), vec![]);
}

#[test]
fn explicit_uncompressed_tag_matches_absent_tag() {
    let ds = DataSource::Encoded("AgAAAAIAAAA=".to_owned());
    assert_eq!(ds.extract_tiles(Some(Compression::Uncompressed)).unwrap(), vec![2, 2]);
}

#[test]
fn invalid_base64_character_is_reported() {
    let ds = DataSource::Encoded("AgAA!AAIAAAA=".to_owned());
    for tag in ALL_TAGS {
        assert!(matches!(ds.extract_tiles(tag), Err(Error::InvalidBase64(_))));
    }
    assert!(matches!(decode_base64("AgAAAAIAAAA"), Err(Error::InvalidBase64(_))));
}

#[test]
fn misaligned_bytes_are_reported() {
    let ds = DataSource::Encoded(b64(&[1, 2, 3]));
    assert_eq!(
        ds.extract_tiles(None),
        Err(Error::ByteAlignment { len: 3, element_size: 4 })
    );
    let ds = DataSource::Encoded(b64(&zlib(&[1, 2, 3, 4, 5])));
    assert_eq!(
        ds.extract_tiles(Some(Compression::Zlib)),
        Err(Error::ByteAlignment { len: 5, element_size: 4 })
    );
    assert_eq!(
        tiles_from_bytes(&[9, 9, 9, 9, 9, 9]),
        Err(Error::ByteAlignment { len: 6, element_size: 4 })
    );
}

#[test]
fn corrupt_streams_are_reported_with_their_codec() {
    let ds = DataSource::Encoded("AgAAAAIAAAA=".to_owned());
    for kind in [Compression::Zlib, Compression::Gzip, Compression::Zstd] {
        match ds.extract_tiles(Some(kind)) {
            Err(Error::Decompression { codec, .. }) => assert_eq!(codec, kind),
            other => panic!("expected a decompression error, got {:?}", other),
        }
    }
}

#[test]
fn truncated_zlib_stream_is_not_a_result() {
    let packed = zlib(&le_bytes(&[1, 2, 3, 4, 5, 6, 7, 8]));
    let cut = &packed[..packed.len() / 2];
    assert!(decompress(cut, Compression::Zlib).is_err());
}

#[test]
fn empty_text_holds_no_tiles() {
    let ds = DataSource::Encoded(String::new());
    assert_eq!(ds.extract_tiles(None).unwrap(), Vec::<i32>::new());
}

#[test]
fn bytes_read_back_as_their_indices() {
    let tiles = vec![0, 1, -1, 256, 65536, i32::MAX, i32::MIN, 0x2000_0001];
    assert_eq!(tiles_from_bytes(&le_bytes(&tiles)).unwrap(), tiles);
    assert_eq!(tiles_from_bytes(&[0xff, 0xff, 0xff, 0xff]).unwrap(), vec![-1]);
    assert_eq!(tiles_from_bytes(&[0x01, 0x02, 0x03, 0x04]).unwrap(), vec![0x0403_0201]);
    assert_eq!(tiles_from_bytes(&[]).unwrap(), Vec::<i32>::new());
}

#[test]
fn round_trip_through_each_codec() {
    let tiles = vec![1, 0, 0, 5, -2147483647, 0x4000_0003, 12];
    let bytes = le_bytes(&tiles);
    let cases = [
        (Compression::Uncompressed, bytes.clone()),
        (Compression::Zlib, zlib(&bytes)),
        (Compression::Gzip, gzip(&bytes)),
        (Compression::Zstd, zstd_frame(&bytes)),
    ];
    for (kind, packed) in cases {
        let ds = DataSource::Encoded(b64(&packed));
        assert_eq!(ds.decode_and_decompress(kind).unwrap(), tiles);
        assert_eq!(ds.extract_tiles(Some(kind)).unwrap(), tiles);
    }
}

#[test]
fn decode_gives_the_raw_bytes() {
    let ds = DataSource::Encoded("AgAAAAIAAAA=".to_owned());
    assert_eq!(ds.decode().unwrap(), vec![2, 0, 0, 0, 2, 0, 0, 0]);
    let ds = DataSource::Encoded("eJxjYmBgAAAADAAD".to_owned());
    assert_eq!(ds.decode().unwrap(), zlib(&[2, 0, 0, 0]));
}

#[test]
fn encoded_only_operations_refuse_raw_indices() {
    let ds = DataSource::Raw(vec![2]);
    assert_eq!(ds.decode(), Err(Error::InvalidSourceShape));
    assert_eq!(ds.decode_and_decompress(Compression::Zlib), Err(Error::InvalidSourceShape));
}

#[test]
fn strict_raw_accessor_refuses_encoded_text() {
    assert_eq!(DataSource::Raw(vec![4, 5]).raw_tiles().unwrap(), vec![4, 5]);
    assert_eq!(
        DataSource::Encoded("AgAAAAIAAAA=".to_owned()).raw_tiles(),
        Err(Error::UnsupportedShapeForOperation)
    );
}

#[test]
fn codec_output_is_reinterpreted_or_reported() {
    assert_eq!(
        tiles_from_codec_output(Compression::Gzip, Ok(vec![3, 0, 0, 0])).unwrap(),
        vec![3]
    );
    assert_eq!(
        tiles_from_codec_output(Compression::Zstd, Err("bad frame".to_owned())),
        Err(Error::Decompression { codec: Compression::Zstd, message: "bad frame".to_owned() })
    );
}

#[test]
fn string_fields_are_encoded_sources() {
    assert_eq!(
        DataSource::from_str("qweasdzxcQWEASDZXC").unwrap(),
        DataSource::Encoded("qweasdzxcQWEASDZXC".to_owned())
    );
}
