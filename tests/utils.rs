use tme::le_bytes_to_vec;
use tme::utils::make_false;
use tme::utils::make_none_option;
use tme::utils::make_true;
use tme::Compression;
use tme::EndianRead;
use tme::Error;
use tme::HorizontalAlign;
use tme::VerticalAlign;

#[test]
fn reads_little_endian_values_of_each_width() {
    let buf = [0x01, 0x02, 0x03, 0x04, 0xff, 0xff, 0xff, 0xff];
    assert_eq!(le_bytes_to_vec::<u32>(&buf).unwrap(), vec![0x0403_0201, u32::MAX]);
    assert_eq!(le_bytes_to_vec::<i32>(&buf).unwrap(), vec![0x0403_0201, -1]);
}

#[test]
fn length_must_be_a_multiple_of_the_width() {
    for len in [1usize, 2, 3, 5, 7] {
        let buf = vec![0u8; len];
        assert_eq!(
            le_bytes_to_vec::<i32>(&buf),
            Err(Error::ByteAlignment { len, element_size: 4 })
        );
    }
}

#[test]
fn reads_single_values_in_either_order() {
    let bytes = [0x80, 0x00, 0x00, 0x01];
    assert_eq!(<u32 as EndianRead>::from_le_bytes(&bytes), 0x0100_0080);
    assert_eq!(<u32 as EndianRead>::from_be_bytes(&bytes), 0x8000_0001);
    assert_eq!(<i32 as EndianRead>::from_be_bytes(&bytes), i32::MIN + 1);
    assert_eq!(<i32 as EndianRead>::width(), 4);
}

#[test]
fn defaults_for_document_fields() {
    assert!(make_true());
    assert!(!make_false());
    assert_eq!(make_none_option::<String>(), None);
    assert_eq!(HorizontalAlign::default(), HorizontalAlign::Left);
    assert_eq!(VerticalAlign::default(), VerticalAlign::Top);
}

#[test]
fn fail_wraps_the_error() {
    let r: Result<u8, Error> = Error::InvalidSourceShape.fail();
    assert_eq!(r, Err(Error::InvalidSourceShape));
}

#[test]
fn compression_tokens() {
    assert_eq!(Compression::from_token(b"zlib"), Some(Compression::Zlib));
    assert_eq!(Compression::from_token(b"gzip"), Some(Compression::Gzip));
    assert_eq!(Compression::from_token(b"zstd"), Some(Compression::Zstd));
    assert_eq!(Compression::from_token(b""), Some(Compression::Uncompressed));
    assert_eq!(Compression::from_token(b"lz4"), None);
    assert_eq!(Compression::from_token(b"ZLIB"), None);
    assert_eq!(Compression::from_token(b"zlibx"), None);
}

#[test]
fn reads_every_width() {
    let buf = [0x01, 0x80, 0xff, 0x7f, 0x00, 0x00, 0x00, 0x80];
    assert_eq!(le_bytes_to_vec::<u8>(&buf).unwrap(), buf.to_vec());
    assert_eq!(le_bytes_to_vec::<i8>(&buf[..2]).unwrap(), vec![1, -128]);
    assert_eq!(le_bytes_to_vec::<u16>(&buf).unwrap(), vec![0x8001, 0x7fff, 0, 0x8000]);
    assert_eq!(le_bytes_to_vec::<i16>(&buf).unwrap(), vec![-32767, 32767, 0, i16::MIN]);
    assert_eq!(le_bytes_to_vec::<u64>(&buf).unwrap(), vec![0x8000_0000_7fff_8001]);
    assert_eq!(
        le_bytes_to_vec::<i64>(&buf).unwrap(),
        vec![i64::from_le_bytes(buf)]
    );
    assert_eq!(
        le_bytes_to_vec::<u64>(&buf[..6]),
        Err(Error::ByteAlignment { len: 6, element_size: 8 })
    );
    assert_eq!(<u16 as EndianRead>::from_be_bytes(&[0x12, 0x34]), 0x1234);
    assert_eq!(<u64 as EndianRead>::from_be_bytes(&buf), u64::from_be_bytes(buf));
    assert_eq!(<i64 as EndianRead>::from_be_bytes(&buf), i64::from_be_bytes(buf));
}

#[test]
fn reads_platform_words() {
    let w = std::mem::size_of::<usize>();
    assert_eq!(<usize as EndianRead>::width(), w);
    assert_eq!(<isize as EndianRead>::width(), w);
    let mut buf = vec![0u8; 2 * w];
    buf[0] = 0x05;
    buf[1] = 0x01;
    for b in buf[w..].iter_mut() {
        *b = 0xff;
    }
    assert_eq!(le_bytes_to_vec::<usize>(&buf).unwrap(), vec![0x0105, usize::MAX]);
    assert_eq!(le_bytes_to_vec::<isize>(&buf).unwrap(), vec![0x0105, -1]);
    assert_eq!(<usize as EndianRead>::from_be_bytes(&buf[..w]), 0x0501usize << (8 * (w - 2)));
    assert_eq!(
        le_bytes_to_vec::<usize>(&buf[..w + 1]),
        Err(Error::ByteAlignment { len: w + 1, element_size: w })
    );
}
