//! The option codec: typed values out of, and into, the raw buffers that
//! cross the foreign boundary.
//!
//! A caller's buffer is a run of bytes and a declared length. Fixed-width
//! values lie in it as two's-complement integers in the byte order of the
//! machine; text lies in it as UTF-8.
use vstd::prelude::*;
use vstd::slice::*;
use vstd::string::*;
use vstd::utf8::*;
use crate::errors::SRT_ERRNO;

verus! {

/// Width of a 32-bit option value in a caller's buffer, in bytes.
pub const INT_WIDTH: i32 = 4;

/// Width of a 64-bit option value in a caller's buffer, in bytes.
pub const INT64_WIDTH: i32 = 8;

/// The order in which the bytes of an integer lie in memory.
#[derive(Clone, Copy, Debug, PartialEq, Eq, Structural)]
pub enum ByteOrder {
    /// Least significant byte first.
    LittleEndian,
    /// Most significant byte first.
    BigEndian,
}

/// The bytes of `b` from the least significant to the most significant.
pub open spec fn by_significance(b: Seq<u8>, order: ByteOrder) -> Seq<u8> {
    match order {
        ByteOrder::LittleEndian => b,
        ByteOrder::BigEndian => b.reverse(),
    }
}

/// The unsigned number that four bytes spell, least significant first.
pub open spec fn value32(b: Seq<u8>) -> int {
    b[0] + 0x100 * b[1] + 0x1_0000 * b[2] + 0x100_0000 * b[3]
}

/// The unsigned number that eight bytes spell, least significant first.
pub open spec fn value64(b: Seq<u8>) -> int {
    value32(b.subrange(0, 4)) + 0x1_0000_0000 * value32(b.subrange(4, 8))
}

/// The four bytes that spell an unsigned number below 2^32, least significant
/// first.
pub open spec fn bytes32(u: int) -> Seq<u8> {
    seq![
        (u % 0x100) as u8,
        (u / 0x100 % 0x100) as u8,
        (u / 0x100 / 0x100 % 0x100) as u8,
        (u / 0x100 / 0x100 / 0x100 % 0x100) as u8,
    ]
}

/// The eight bytes that spell an unsigned number below 2^64, least significant
/// first.
pub open spec fn bytes64(u: int) -> Seq<u8> {
    bytes32(u % 0x1_0000_0000) + bytes32(u / 0x1_0000_0000)
}

/// The two's-complement reading of an unsigned 32-bit number.
pub open spec fn signed32(u: int) -> int {
    if u >= 0x8000_0000 {
        u - 0x1_0000_0000
    } else {
        u
    }
}

/// The unsigned 32-bit number whose two's-complement reading is `v`.
pub open spec fn unsigned32(v: int) -> int {
    if v < 0 {
        v + 0x1_0000_0000
    } else {
        v
    }
}

/// The two's-complement reading of an unsigned 64-bit number.
pub open spec fn signed64(u: int) -> int {
    if u >= 0x8000_0000_0000_0000 {
        u - 0x1_0000_0000_0000_0000
    } else {
        u
    }
}

/// The unsigned 64-bit number whose two's-complement reading is `v`.
pub open spec fn unsigned64(v: int) -> int {
    if v < 0 {
        v + 0x1_0000_0000_0000_0000
    } else {
        v
    }
}

/// The 32-bit integer that lies in four bytes of memory.
pub open spec fn decode_i32(b: Seq<u8>, order: ByteOrder) -> int {
    signed32(value32(by_significance(b, order)))
}

/// The four bytes of memory in which a 32-bit integer lies.
pub open spec fn encode_i32(v: int, order: ByteOrder) -> Seq<u8> {
    by_significance(bytes32(unsigned32(v)), order)
}

/// The 64-bit integer that lies in eight bytes of memory.
pub open spec fn decode_i64(b: Seq<u8>, order: ByteOrder) -> int {
    signed64(value64(by_significance(b, order)))
}

/// The eight bytes of memory in which a 64-bit integer lies.
pub open spec fn encode_i64(v: int, order: ByteOrder) -> Seq<u8> {
    by_significance(bytes64(unsigned64(v)), order)
}

/// Four bytes are the digits, to the base 256, of the number they spell.
proof fn digits_of_value32(s: Seq<u8>)
    requires
        s.len() == 4,
    ensures
        0 <= value32(s) < 0x1_0000_0000,
        bytes32(value32(s)) == s,
{
    let u = value32(s);
    let u1 = s[1] + 0x100 * s[2] + 0x1_0000 * s[3];
    let u2 = s[2] + 0x100 * s[3];
    assert(u == s[0] + 0x100 * u1);
    assert(u1 == s[1] + 0x100 * u2);
    assert(u % 0x100 == s[0] && u / 0x100 == u1);
    assert(u1 % 0x100 == s[1] && u1 / 0x100 == u2);
    assert(u2 % 0x100 == s[2] && u2 / 0x100 == s[3]);
    assert(bytes32(u) =~= s);
}

/// The digits of an unsigned 32-bit number spell it.
proof fn value_of_digits32(u: int)
    requires
        0 <= u < 0x1_0000_0000,
    ensures
        bytes32(u).len() == 4,
        value32(bytes32(u)) == u,
{
    let u1 = u / 0x100;
    let u2 = u1 / 0x100;
    let u3 = u2 / 0x100;
    assert(u == u % 0x100 + 0x100 * u1);
    assert(u1 == u1 % 0x100 + 0x100 * u2);
    assert(u2 == u2 % 0x100 + 0x100 * u3);
    assert(0 <= u3 < 0x100);
}

/// A number made of two 32-bit halves falls apart into them.
proof fn halves_of_sum(lo: int, hi: int)
    requires
        0 <= lo < 0x1_0000_0000,
        0 <= hi < 0x1_0000_0000,
    ensures
        (lo + 0x1_0000_0000 * hi) % 0x1_0000_0000 == lo,
        (lo + 0x1_0000_0000 * hi) / 0x1_0000_0000 == hi,
        0 <= lo + 0x1_0000_0000 * hi < 0x1_0000_0000_0000_0000,
        unsigned64(signed64(lo + 0x1_0000_0000 * hi)) == lo + 0x1_0000_0000 * hi,
{
}

/// A 32-bit integer, read from the bytes that were written for it, is itself.
pub proof fn decode_encode_i32(v: int, order: ByteOrder)
    requires
        i32::MIN <= v <= i32::MAX,
    ensures
        encode_i32(v, order).len() == 4,
        decode_i32(encode_i32(v, order), order) == v,
{
    let u = unsigned32(v);
    let b = bytes32(u);
    value_of_digits32(u);
    assert(by_significance(by_significance(b, order), order) =~= b);
}

/// Four bytes, written for the 32-bit integer that was read from them, are
/// themselves.
pub proof fn encode_decode_i32(b: Seq<u8>, order: ByteOrder)
    requires
        b.len() == 4,
    ensures
        i32::MIN <= decode_i32(b, order) <= i32::MAX,
        encode_i32(decode_i32(b, order), order) == b,
{
    let s = by_significance(b, order);
    let u = value32(s);
    digits_of_value32(s);
    assert(unsigned32(signed32(u)) == u);
    assert(by_significance(s, order) =~= b);
}

/// A 64-bit integer, read from the bytes that were written for it, is itself.
pub proof fn decode_encode_i64(v: int, order: ByteOrder)
    requires
        i64::MIN <= v <= i64::MAX,
    ensures
        encode_i64(v, order).len() == 8,
        decode_i64(encode_i64(v, order), order) == v,
{
    let u = unsigned64(v);
    let b = bytes64(u);
    let lo = u % 0x1_0000_0000;
    let hi = u / 0x1_0000_0000;
    value_of_digits32(lo);
    value_of_digits32(hi);
    assert(b.subrange(0, 4) =~= bytes32(lo));
    assert(b.subrange(4, 8) =~= bytes32(hi));
    assert(value64(b) == u);
    assert(by_significance(by_significance(b, order), order) =~= b);
}

/// Eight bytes, written for the 64-bit integer that was read from them, are
/// themselves.
pub proof fn encode_decode_i64(b: Seq<u8>, order: ByteOrder)
    requires
        b.len() == 8,
    ensures
        i64::MIN <= decode_i64(b, order) <= i64::MAX,
        encode_i64(decode_i64(b, order), order) == b,
{
    let s = by_significance(b, order);
    let lo = value32(s.subrange(0, 4));
    let hi = value32(s.subrange(4, 8));
    let u = value64(s);
    digits_of_value32(s.subrange(0, 4));
    digits_of_value32(s.subrange(4, 8));
    halves_of_sum(lo, hi);
    assert(bytes64(u) == s.subrange(0, 4) + s.subrange(4, 8));
    assert(s.subrange(0, 4) + s.subrange(4, 8) =~= s);
    assert(by_significance(s, order) =~= b);
}

/// The 32-bit integer with the bit pattern of an unsigned one.
pub fn reinterpret_i32(u: u32) -> (r: i32)
    ensures
        r == signed32(u as int),
{
    if u >= 0x8000_0000 {
        let low: i32 = (u - 0x8000_0000) as i32;
        low + i32::MIN
    } else {
        u as i32
    }
}

/// The unsigned 32-bit integer with the bit pattern of a signed one.
pub fn reinterpret_u32(v: i32) -> (r: u32)
    ensures
        r == unsigned32(v as int),
{
    if v < 0 {
        let low: u32 = (v - i32::MIN) as u32;
        low + 0x8000_0000
    } else {
        v as u32
    }
}

/// The 64-bit integer with the bit pattern of an unsigned one.
pub fn reinterpret_i64(u: u64) -> (r: i64)
    ensures
        r == signed64(u as int),
{
    if u >= 0x8000_0000_0000_0000 {
        let low: i64 = (u - 0x8000_0000_0000_0000) as i64;
        low + i64::MIN
    } else {
        u as i64
    }
}

/// The unsigned 64-bit integer with the bit pattern of a signed one.
pub fn reinterpret_u64(v: i64) -> (r: u64)
    ensures
        r == unsigned64(v as int),
{
    if v < 0 {
        let low: u64 = (v - i64::MIN) as u64;
        low + 0x8000_0000_0000_0000
    } else {
        v as u64
    }
}

/// The 32-bit integer that is left of a count when only its low 32 bits are
/// kept.
pub open spec fn truncate_i32_spec(n: u64) -> int {
    signed32(n as int % 0x1_0000_0000)
}

pub fn truncate_i32(n: u64) -> (r: i32)
    ensures
        r == truncate_i32_spec(n),
{
    reinterpret_i32((n % 0x1_0000_0000) as u32)
}

/// Reads the unsigned number that the four bytes from `at` on spell.
fn read_u32(b: &[u8], at: usize, order: ByteOrder) -> (r: u32)
    requires
        at + 4 <= b@.len() <= usize::MAX,
    ensures
        r == value32(by_significance(b@.subrange(at as int, at + 4), order)),
{
    let (d0, d1, d2, d3) = match order {
        ByteOrder::LittleEndian => (b[at], b[at + 1], b[at + 2], b[at + 3]),
        ByteOrder::BigEndian => (b[at + 3], b[at + 2], b[at + 1], b[at]),
    };
    d0 as u32 + 0x100 * (d1 as u32) + 0x1_0000 * (d2 as u32) + 0x100_0000 * (d3 as u32)
}

/// Appends the four bytes that spell `u`.
fn write_u32(out: &mut Vec<u8>, u: u32, order: ByteOrder)
    ensures
        final(out)@ == old(out)@ + by_significance(bytes32(u as int), order),
{
    let d0: u8 = (u % 0x100) as u8;
    let d1: u8 = (u / 0x100 % 0x100) as u8;
    let d2: u8 = (u / 0x100 / 0x100 % 0x100) as u8;
    let d3: u8 = (u / 0x100 / 0x100 / 0x100 % 0x100) as u8;
    match order {
        ByteOrder::LittleEndian => {
            out.push(d0);
            out.push(d1);
            out.push(d2);
            out.push(d3);
        },
        ByteOrder::BigEndian => {
            out.push(d3);
            out.push(d2);
            out.push(d1);
            out.push(d0);
        },
    }
    assert(final(out)@ =~= old(out)@ + by_significance(bytes32(u as int), order));
}

/// What lies in a caller's buffer, where the caller passed one.
pub open spec fn buffer(val: Option<&[u8]>) -> Option<Seq<u8>> {
    match val {
        Some(b) => Some(b@),
        None => None,
    }
}

/// The 32-bit integer in a buffer: there is one where the buffer is there and
/// is exactly four bytes long.
pub open spec fn extract_int_spec(val: Option<Seq<u8>>, order: ByteOrder) -> Option<i32> {
    match val {
        Some(b) => if b.len() == INT_WIDTH {
            Some(decode_i32(b, order) as i32)
        } else {
            None
        },
        None => None,
    }
}

/// The 64-bit integer in a buffer: there is one where the buffer is there and
/// is exactly eight bytes long.
pub open spec fn extract_i64_spec(val: Option<Seq<u8>>, order: ByteOrder) -> Option<i64> {
    match val {
        Some(b) => if b.len() == INT64_WIDTH {
            Some(decode_i64(b, order) as i64)
        } else {
            None
        },
        None => None,
    }
}

/// The flag in a buffer: a 32-bit integer, where zero stands for `false` and
/// every other number for `true`.
pub open spec fn extract_bool_spec(val: Option<Seq<u8>>, order: ByteOrder) -> Option<bool> {
    match extract_int_spec(val, order) {
        Some(i) => Some(i != 0),
        None => None,
    }
}

/// The text in a buffer: there is one where the buffer is there and holds
/// well-formed UTF-8, and it is the text that those bytes encode.
pub open spec fn extract_str_spec(val: Option<Seq<u8>>) -> Option<Seq<char>> {
    match val {
        Some(b) => if valid_utf8(b) {
            Some(decode_utf8(b))
        } else {
            None
        },
        None => None,
    }
}

pub fn extract_int(val: Option<&[u8]>, order: ByteOrder) -> (r: Option<i32>)
    ensures
        r == extract_int_spec(buffer(val), order),
{
    match val {
        Some(b) => {
            if b.len() == 4 {
                assert(b@.subrange(0, 4) =~= b@);
                proof {
                    encode_decode_i32(b@, order);
                }
                Some(reinterpret_i32(read_u32(b, 0, order)))
            } else {
                None
            }
        },
        None => None,
    }
}

pub fn extract_i64(val: Option<&[u8]>, order: ByteOrder) -> (r: Option<i64>)
    ensures
        r == extract_i64_spec(buffer(val), order),
{
    match val {
        Some(b) => {
            if b.len() == 8 {
                let ghost s = by_significance(b@, order);
                let (lo, hi) = match order {
                    ByteOrder::LittleEndian => (read_u32(b, 0, order), read_u32(b, 4, order)),
                    ByteOrder::BigEndian => (read_u32(b, 4, order), read_u32(b, 0, order)),
                };
                proof {
                    assert(by_significance(b@.subrange(0, 4), order) =~= if order
                        == ByteOrder::LittleEndian {
                        s.subrange(0, 4)
                    } else {
                        s.subrange(4, 8)
                    });
                    assert(by_significance(b@.subrange(4, 8), order) =~= if order
                        == ByteOrder::LittleEndian {
                        s.subrange(4, 8)
                    } else {
                        s.subrange(0, 4)
                    });
                    digits_of_value32(s.subrange(0, 4));
                    digits_of_value32(s.subrange(4, 8));
                    halves_of_sum(lo as int, hi as int);
                    encode_decode_i64(b@, order);
                }
                let u: u64 = lo as u64 + 0x1_0000_0000 * (hi as u64);
                Some(reinterpret_i64(u))
            } else {
                None
            }
        },
        None => None,
    }
}

pub fn extract_bool(val: Option<&[u8]>, order: ByteOrder) -> (r: Option<bool>)
    ensures
        r == extract_bool_spec(buffer(val), order),
{
    match extract_int(val, order) {
        Some(i) => Some(i != 0),
        None => None,
    }
}

/// `core::str::from_utf8`, with its error left out: the bytes as text where
/// they are well-formed UTF-8, and nothing where they are not. The text's
/// bytes are the bytes given.
#[verifier::external_body]
fn utf8_text(bytes: &[u8]) -> (r: Option<&str>)
    ensures
        r is Some <==> valid_utf8(bytes@),
        r matches Some(s) ==> s.spec_bytes() == bytes@,
{
    core::str::from_utf8(bytes).ok()
}

pub fn extract_str(val: Option<&[u8]>) -> (r: Option<String>)
    ensures
        r is Some <==> extract_str_spec(buffer(val)) is Some,
        r matches Some(s) ==> Some(s@) == extract_str_spec(buffer(val)) && encode_utf8(s@)
            == val.unwrap()@,
{
    match val {
        Some(b) => match utf8_text(b) {
            Some(s) => {
                proof {
                    encode_utf8_decode_utf8(s@);
                }
                Some(s.to_owned())
            },
            None => None,
        },
        None => None,
    }
}

/// An option's value, tagged with its kind.
#[derive(Debug)]
pub enum Val {
    Bool(bool),
    Int(i32),
    Int64(i64),
    Str(String),
}

/// An option's value as contracts speak of it: text as a sequence of
/// characters.
pub enum OptValue {
    Bool(bool),
    Int(i32),
    Int64(i64),
    Str(Seq<char>),
}

impl OptValue {
    /// What is written to a caller's buffer of declared length `optlen`, and
    /// the length that is reported back; or the refusal, where the buffer is
    /// too short. A flag is written as the 32-bit integer one or zero. Text is
    /// followed by a zero byte that the reported length does not count.
    pub open spec fn marshalled(self, optlen: int, order: ByteOrder) -> Result<
        (Seq<u8>, int),
        SRT_ERRNO,
    > {
        match self {
            OptValue::Bool(b) => if optlen >= INT_WIDTH {
                Ok((encode_i32(if b { 1 } else { 0 }, order), INT_WIDTH as int))
            } else {
                Err(SRT_ERRNO::SRT_EINVPARAM)
            },
            OptValue::Int(i) => if optlen >= INT_WIDTH {
                Ok((encode_i32(i as int, order), INT_WIDTH as int))
            } else {
                Err(SRT_ERRNO::SRT_EINVPARAM)
            },
            OptValue::Int64(i) => if optlen >= INT64_WIDTH {
                Ok((encode_i64(i as int, order), INT64_WIDTH as int))
            } else {
                Err(SRT_ERRNO::SRT_EINVPARAM)
            },
            OptValue::Str(s) => {
                let text = encode_utf8(s);
                if optlen >= text.len() + 1 {
                    Ok((text.push(0u8), text.len() as int))
                } else {
                    Err(SRT_ERRNO::SRT_EINVPARAM)
                }
            },
        }
    }
}

impl View for Val {
    type V = OptValue;

    open spec fn view(&self) -> OptValue {
        match *self {
            Val::Bool(b) => OptValue::Bool(b),
            Val::Int(i) => OptValue::Int(i),
            Val::Int64(i) => OptValue::Int64(i),
            Val::Str(s) => OptValue::Str(s@),
        }
    }
}

impl Val {
    /// Marshals the value for a caller's buffer of declared length `optlen`.
    pub fn inject(&self, optlen: i32, order: ByteOrder) -> (r: Result<(Vec<u8>, i32), SRT_ERRNO>)
        ensures
            match self@.marshalled(optlen as int, order) {
                Ok((bytes, len)) => r matches Ok((v, n)) && v@ == bytes && n == len,
                Err(e) => r == Err::<(Vec<u8>, i32), SRT_ERRNO>(e),
            },
            r matches Ok((v, n)) ==> v@.len() <= optlen,
    {
        match self {
            Val::Bool(b) => {
                if optlen < INT_WIDTH {
                    return Err(SRT_ERRNO::SRT_EINVPARAM);
                }
                let mut out: Vec<u8> = Vec::new();
                write_u32(&mut out, if *b { 1 } else { 0 }, order);
                assert(out@ =~= encode_i32(if *b { 1 } else { 0 }, order));
                Ok((out, INT_WIDTH))
            },
            Val::Int(i) => {
                if optlen < INT_WIDTH {
                    return Err(SRT_ERRNO::SRT_EINVPARAM);
                }
                let mut out: Vec<u8> = Vec::new();
                write_u32(&mut out, reinterpret_u32(*i), order);
                assert(out@ =~= encode_i32(*i as int, order));
                Ok((out, INT_WIDTH))
            },
            Val::Int64(i) => {
                if optlen < INT64_WIDTH {
                    return Err(SRT_ERRNO::SRT_EINVPARAM);
                }
                let u = reinterpret_u64(*i);
                let lo: u32 = (u % 0x1_0000_0000) as u32;
                let hi: u32 = (u / 0x1_0000_0000) as u32;
                let mut out: Vec<u8> = Vec::new();
                match order {
                    ByteOrder::LittleEndian => {
                        write_u32(&mut out, lo, order);
                        write_u32(&mut out, hi, order);
                    },
                    ByteOrder::BigEndian => {
                        write_u32(&mut out, hi, order);
                        write_u32(&mut out, lo, order);
                    },
                }
                assert(out@ =~= encode_i64(*i as int, order));
                Ok((out, INT64_WIDTH))
            },
            Val::Str(s) => {
                let text = s.as_str().as_bytes();
                if optlen < 0 || text.len() >= optlen as usize {
                    return Err(SRT_ERRNO::SRT_EINVPARAM);
                }
                let mut out: Vec<u8> = slice_to_vec(text);
                out.push(0u8);
                Ok((out, text.len() as i32))
            },
        }
    }
}

} // verus!
