use vstd::prelude::*;

use crate::error::Error;

verus! {

/// The unsigned value of four bytes read least significant first.
pub open spec fn u32_from_le(b: Seq<u8>) -> u32 {
    (b[0] as u32) | ((b[1] as u32) << 8u32) | ((b[2] as u32) << 16u32) | ((b[3] as u32) << 24u32)
}

/// The unsigned value of four bytes read most significant first.
pub open spec fn u32_from_be(b: Seq<u8>) -> u32 {
    (b[3] as u32) | ((b[2] as u32) << 8u32) | ((b[1] as u32) << 16u32) | ((b[0] as u32) << 24u32)
}

/// The four bytes of `u`, least significant first.
pub open spec fn u32_le_bytes(u: u32) -> Seq<u8> {
    seq![u as u8, (u >> 8u32) as u8, (u >> 16u32) as u8, (u >> 24u32) as u8]
}

/// The unsigned value of two bytes read least significant first.
pub open spec fn u16_from_le(b: Seq<u8>) -> u16 {
    (b[0] as u16) | ((b[1] as u16) << 8u16)
}

/// The unsigned value of two bytes read most significant first.
pub open spec fn u16_from_be(b: Seq<u8>) -> u16 {
    (b[1] as u16) | ((b[0] as u16) << 8u16)
}

/// The unsigned value of eight bytes read least significant first.
pub open spec fn u64_from_le(b: Seq<u8>) -> u64 {
    (b[0] as u64) | ((b[1] as u64) << 8u64) | ((b[2] as u64) << 16u64) | ((b[3] as u64) << 24u64)
        | ((b[4] as u64) << 32u64) | ((b[5] as u64) << 40u64) | ((b[6] as u64) << 48u64) | ((
    b[7] as u64) << 56u64)
}

/// The unsigned value of eight bytes read most significant first.
pub open spec fn u64_from_be(b: Seq<u8>) -> u64 {
    (b[7] as u64) | ((b[6] as u64) << 8u64) | ((b[5] as u64) << 16u64) | ((b[4] as u64) << 24u64)
        | ((b[3] as u64) << 32u64) | ((b[2] as u64) << 40u64) | ((b[1] as u64) << 48u64) | ((
    b[0] as u64) << 56u64)
}

/// A fixed-width integer that can be read from its bytes in either order.
pub trait EndianRead: Sized {
    /// The number of bytes in one value.
    spec fn width_spec() -> nat;

    /// The value whose little-endian bytes are `bytes`.
    spec fn le_spec(bytes: Seq<u8>) -> Self;

    /// The value whose big-endian bytes are `bytes`.
    spec fn be_spec(bytes: Seq<u8>) -> Self;

    fn width() -> (r: usize)
        ensures
            r == Self::width_spec(),
            r > 0,
    ;

    fn from_le_bytes(bytes: &[u8]) -> (r: Self)
        requires
            bytes@.len() == Self::width_spec(),
        ensures
            r == Self::le_spec(bytes@),
    ;

    fn from_be_bytes(bytes: &[u8]) -> (r: Self)
        requires
            bytes@.len() == Self::width_spec(),
        ensures
            r == Self::be_spec(bytes@),
    ;
}

impl EndianRead for u8 {
    open spec fn width_spec() -> nat {
        1
    }

    open spec fn le_spec(bytes: Seq<u8>) -> u8 {
        bytes[0]
    }

    open spec fn be_spec(bytes: Seq<u8>) -> u8 {
        bytes[0]
    }

    fn width() -> (r: usize) {
        1
    }

    fn from_le_bytes(bytes: &[u8]) -> (r: u8) {
        assert(Self::width_spec() == 1);
        bytes[0]
    }

    fn from_be_bytes(bytes: &[u8]) -> (r: u8) {
        assert(Self::width_spec() == 1);
        bytes[0]
    }
}

impl EndianRead for i8 {
    open spec fn width_spec() -> nat {
        1
    }

    open spec fn le_spec(bytes: Seq<u8>) -> i8 {
        bytes[0] as i8
    }

    open spec fn be_spec(bytes: Seq<u8>) -> i8 {
        bytes[0] as i8
    }

    fn width() -> (r: usize) {
        1
    }

    fn from_le_bytes(bytes: &[u8]) -> (r: i8) {
        assert(Self::width_spec() == 1);
        bytes[0] as i8
    }

    fn from_be_bytes(bytes: &[u8]) -> (r: i8) {
        assert(Self::width_spec() == 1);
        bytes[0] as i8
    }
}

impl EndianRead for u16 {
    open spec fn width_spec() -> nat {
        2
    }

    open spec fn le_spec(bytes: Seq<u8>) -> u16 {
        u16_from_le(bytes)
    }

    open spec fn be_spec(bytes: Seq<u8>) -> u16 {
        u16_from_be(bytes)
    }

    fn width() -> (r: usize) {
        2
    }

    fn from_le_bytes(bytes: &[u8]) -> (r: u16) {
        assert(Self::width_spec() == 2);
        let (b0, b1) = (bytes[0], bytes[1]);
        assert(Self::le_spec(bytes@) == u16_from_le(bytes@));
        (b0 as u16) | ((b1 as u16) << 8u16)
    }

    fn from_be_bytes(bytes: &[u8]) -> (r: u16) {
        assert(Self::width_spec() == 2);
        let (b0, b1) = (bytes[0], bytes[1]);
        assert(Self::be_spec(bytes@) == u16_from_be(bytes@));
        (b1 as u16) | ((b0 as u16) << 8u16)
    }
}

impl EndianRead for i16 {
    open spec fn width_spec() -> nat {
        2
    }

    open spec fn le_spec(bytes: Seq<u8>) -> i16 {
        u16_from_le(bytes) as i16
    }

    open spec fn be_spec(bytes: Seq<u8>) -> i16 {
        u16_from_be(bytes) as i16
    }

    fn width() -> (r: usize) {
        2
    }

    fn from_le_bytes(bytes: &[u8]) -> (r: i16) {
        let u: u16 = <u16 as EndianRead>::from_le_bytes(bytes);
        u as i16
    }

    fn from_be_bytes(bytes: &[u8]) -> (r: i16) {
        let u: u16 = <u16 as EndianRead>::from_be_bytes(bytes);
        u as i16
    }
}

impl EndianRead for u32 {
    open spec fn width_spec() -> nat {
        4
    }

    open spec fn le_spec(bytes: Seq<u8>) -> u32 {
        u32_from_le(bytes)
    }

    open spec fn be_spec(bytes: Seq<u8>) -> u32 {
        u32_from_be(bytes)
    }

    fn width() -> (r: usize) {
        4
    }

    fn from_le_bytes(bytes: &[u8]) -> (r: u32) {
        assert(Self::width_spec() == 4);
        let (b0, b1, b2, b3) = (bytes[0], bytes[1], bytes[2], bytes[3]);
        assert(Self::le_spec(bytes@) == u32_from_le(bytes@));
        (b0 as u32) | ((b1 as u32) << 8u32) | ((b2 as u32) << 16u32) | ((b3 as u32) << 24u32)
    }

    fn from_be_bytes(bytes: &[u8]) -> (r: u32) {
        assert(Self::width_spec() == 4);
        let (b0, b1, b2, b3) = (bytes[0], bytes[1], bytes[2], bytes[3]);
        assert(Self::be_spec(bytes@) == u32_from_be(bytes@));
        (b3 as u32) | ((b2 as u32) << 8u32) | ((b1 as u32) << 16u32) | ((b0 as u32) << 24u32)
    }
}

impl EndianRead for i32 {
    open spec fn width_spec() -> nat {
        4
    }

    open spec fn le_spec(bytes: Seq<u8>) -> i32 {
        u32_from_le(bytes) as i32
    }

    open spec fn be_spec(bytes: Seq<u8>) -> i32 {
        u32_from_be(bytes) as i32
    }

    fn width() -> (r: usize) {
        4
    }

    fn from_le_bytes(bytes: &[u8]) -> (r: i32) {
        let u: u32 = <u32 as EndianRead>::from_le_bytes(bytes);
        u as i32
    }

    fn from_be_bytes(bytes: &[u8]) -> (r: i32) {
        let u: u32 = <u32 as EndianRead>::from_be_bytes(bytes);
        u as i32
    }
}

impl EndianRead for u64 {
    open spec fn width_spec() -> nat {
        8
    }

    open spec fn le_spec(bytes: Seq<u8>) -> u64 {
        u64_from_le(bytes)
    }

    open spec fn be_spec(bytes: Seq<u8>) -> u64 {
        u64_from_be(bytes)
    }

    fn width() -> (r: usize) {
        8
    }

    fn from_le_bytes(bytes: &[u8]) -> (r: u64) {
        assert(Self::width_spec() == 8);
        let (b0, b1, b2, b3) = (bytes[0], bytes[1], bytes[2], bytes[3]);
        let (b4, b5, b6, b7) = (bytes[4], bytes[5], bytes[6], bytes[7]);
        assert(Self::le_spec(bytes@) == u64_from_le(bytes@));
        (b0 as u64) | ((b1 as u64) << 8u64) | ((b2 as u64) << 16u64) | ((b3 as u64) << 24u64) | ((
        b4 as u64) << 32u64) | ((b5 as u64) << 40u64) | ((b6 as u64) << 48u64) | ((b7 as u64)
            << 56u64)
    }

    fn from_be_bytes(bytes: &[u8]) -> (r: u64) {
        assert(Self::width_spec() == 8);
        let (b0, b1, b2, b3) = (bytes[0], bytes[1], bytes[2], bytes[3]);
        let (b4, b5, b6, b7) = (bytes[4], bytes[5], bytes[6], bytes[7]);
        assert(Self::be_spec(bytes@) == u64_from_be(bytes@));
        (b7 as u64) | ((b6 as u64) << 8u64) | ((b5 as u64) << 16u64) | ((b4 as u64) << 24u64) | ((
        b3 as u64) << 32u64) | ((b2 as u64) << 40u64) | ((b1 as u64) << 48u64) | ((b0 as u64)
            << 56u64)
    }
}

impl EndianRead for i64 {
    open spec fn width_spec() -> nat {
        8
    }

    open spec fn le_spec(bytes: Seq<u8>) -> i64 {
        u64_from_le(bytes) as i64
    }

    open spec fn be_spec(bytes: Seq<u8>) -> i64 {
        u64_from_be(bytes) as i64
    }

    fn width() -> (r: usize) {
        8
    }

    fn from_le_bytes(bytes: &[u8]) -> (r: i64) {
        let u: u64 = <u64 as EndianRead>::from_le_bytes(bytes);
        u as i64
    }

    fn from_be_bytes(bytes: &[u8]) -> (r: i64) {
        let u: u64 = <u64 as EndianRead>::from_be_bytes(bytes);
        u as i64
    }
}

impl EndianRead for usize {
    /// The platform word: four bytes on 32-bit targets, eight on 64-bit ones.
    open spec fn width_spec() -> nat {
        (usize::BITS / 8) as nat
    }

    open spec fn le_spec(bytes: Seq<u8>) -> usize {
        if usize::BITS == 64 {
            u64_from_le(bytes) as usize
        } else {
            u32_from_le(bytes) as usize
        }
    }

    open spec fn be_spec(bytes: Seq<u8>) -> usize {
        if usize::BITS == 64 {
            u64_from_be(bytes) as usize
        } else {
            u32_from_be(bytes) as usize
        }
    }

    fn width() -> (r: usize) {
        (usize::BITS / 8) as usize
    }

    fn from_le_bytes(bytes: &[u8]) -> (r: usize) {
        if usize::BITS == 64 {
            let v: u64 = <u64 as EndianRead>::from_le_bytes(bytes);
            v as usize
        } else {
            let v: u32 = <u32 as EndianRead>::from_le_bytes(bytes);
            v as usize
        }
    }

    fn from_be_bytes(bytes: &[u8]) -> (r: usize) {
        if usize::BITS == 64 {
            let v: u64 = <u64 as EndianRead>::from_be_bytes(bytes);
            v as usize
        } else {
            let v: u32 = <u32 as EndianRead>::from_be_bytes(bytes);
            v as usize
        }
    }
}

impl EndianRead for isize {
    /// The platform word: four bytes on 32-bit targets, eight on 64-bit ones.
    open spec fn width_spec() -> nat {
        (usize::BITS / 8) as nat
    }

    open spec fn le_spec(bytes: Seq<u8>) -> isize {
        if usize::BITS == 64 {
            u64_from_le(bytes) as isize
        } else {
            u32_from_le(bytes) as isize
        }
    }

    open spec fn be_spec(bytes: Seq<u8>) -> isize {
        if usize::BITS == 64 {
            u64_from_be(bytes) as isize
        } else {
            u32_from_be(bytes) as isize
        }
    }

    fn width() -> (r: usize) {
        (usize::BITS / 8) as usize
    }

    fn from_le_bytes(bytes: &[u8]) -> (r: isize) {
        if usize::BITS == 64 {
            let v: u64 = <u64 as EndianRead>::from_le_bytes(bytes);
            v as isize
        } else {
            let v: u32 = <u32 as EndianRead>::from_le_bytes(bytes);
            v as isize
        }
    }

    fn from_be_bytes(bytes: &[u8]) -> (r: isize) {
        if usize::BITS == 64 {
            let v: u64 = <u64 as EndianRead>::from_be_bytes(bytes);
            v as isize
        } else {
            let v: u32 = <u32 as EndianRead>::from_be_bytes(bytes);
            v as isize
        }
    }
}

/// The values of type `T` whose little-endian bytes make up `buf`, in order.
pub open spec fn le_elements<T: EndianRead>(buf: Seq<u8>) -> Seq<T> {
    let w = T::width_spec() as int;
    Seq::new((buf.len() / T::width_spec()) as nat, |i: int| T::le_spec(buf.subrange(i * w, i * w + w)))
}

/// Reads `buf` as a sequence of little-endian values of type `T`.
///
/// Fails, with the length and the element size, when the length is not a
/// multiple of the element size; no partial result is ever returned.
pub fn le_bytes_to_vec<T: EndianRead>(buf: &[u8]) -> (r: Result<Vec<T>, Error>)
    ensures
        T::width_spec() > 0,
        r is Ok <==> buf@.len() % T::width_spec() == 0,
        r matches Ok(v) ==> v@ == le_elements::<T>(buf@),
        r matches Err(e) ==> e == (Error::ByteAlignment {
            len: buf@.len() as usize,
            element_size: T::width_spec() as usize,
        }),
{
    let len = buf.len();
    let element_size = T::width();
    if len % element_size != 0 {
        return Error::ByteAlignment { len, element_size }.fail();
    }
    let n = len / element_size;
    proof {
        let w = element_size as int;
        let l = len as int;
        assert(n * w == l) by (nonlinear_arith)
            requires
                n == l / w,
                l % w == 0,
                w > 0,
        ;
    }
    let mut result: Vec<T> = Vec::new();
    let mut i: usize = 0;
    let mut start: usize = 0;
    while i < n
        invariant
            len == buf@.len(),
            element_size == T::width_spec(),
            element_size > 0,
            n == len / element_size,
            n * element_size == len,
            i <= n,
            start == i * element_size,
            result@.len() == i,
            forall|k: int|
                0 <= k < i ==> #[trigger] result@[k] == T::le_spec(
                    buf@.subrange(k * element_size, k * element_size + element_size),
                ),
        decreases n - i,
    {
        proof {
            let w = element_size as int;
            assert(i * w + w <= n * w) by (nonlinear_arith)
                requires
                    i < n,
                    w > 0,
            ;
        }
        let end = start + element_size;
        let v = T::from_le_bytes(&buf[start..end]);
        result.push(v);
        proof {
            assert((i + 1) * element_size == i * element_size + element_size) by (nonlinear_arith);
        }
        i = i + 1;
        start = end;
    }
    assert(result@ =~= le_elements::<T>(buf@));
    Ok(result)
}

/// Always `true`; a default for boolean document fields.
pub fn make_true() -> (r: bool)
    ensures
        r,
{
    true
}

/// Always `false`; a default for boolean document fields.
pub fn make_false() -> (r: bool)
    ensures
        !r,
{
    false
}

/// Always `None`; a default for optional document fields.
pub fn make_none_option<T>() -> (r: Option<T>)
    ensures
        r is None,
{
    None
}

} // verus!
