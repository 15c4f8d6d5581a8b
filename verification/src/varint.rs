//! Unsigned variable-length integers, as the frames of the protocol prefix
//! their length with: seven bits per byte, the low bits first, the top bit of
//! a byte set while more bytes follow.

use vstd::prelude::*;

verus! {

/// The bytes of `n`: the low seven bits first, with the top bit set on every
/// byte but the last.
pub open spec fn varint_bytes(n: u32) -> Seq<u8>
    decreases n,
{
    if n < 128 {
        seq![n as u8]
    } else {
        seq![(n % 128 + 128) as u8] + varint_bytes(n / 128)
    }
}

/// What a run of bytes is when it is read as a 32-bit number.
pub enum VarintParse {
    /// The number, and how many bytes it took.
    Done(u32, nat),
    /// The bytes end before the number does.
    Insufficient,
    /// The fifth byte still announces another.
    Overflow,
    /// The last of several bytes is zero: the number has a shorter form.
    NotMinimal,
}

/// The value of the low bits of the byte at place `i` of a number.
pub open spec fn weight(i: nat) -> nat {
    if i == 0 {
        1
    } else if i == 1 {
        128
    } else if i == 2 {
        16_384
    } else if i == 3 {
        2_097_152
    } else {
        268_435_456
    }
}

/// What the byte at place `i` adds to the number. Of the fifth byte only the
/// low four bits fit into 32 bits; the others are lost.
pub open spec fn contribution(b: u8, i: nat) -> nat {
    if i < 4 {
        ((b % 128) * weight(i)) as nat
    } else {
        ((b % 16) * weight(4)) as nat
    }
}

/// Reads on at place `i`, with `acc` the value of the bytes before it.
pub open spec fn varint_scan(buf: Seq<u8>, i: nat, acc: nat) -> VarintParse
    decreases buf.len() - i,
{
    if i >= buf.len() {
        VarintParse::Insufficient
    } else {
        let b = buf[i as int];
        let n = acc + contribution(b, i);
        if b < 128 {
            if b == 0 && i > 0 {
                VarintParse::NotMinimal
            } else {
                VarintParse::Done(n as u32, i + 1)
            }
        } else if i == 4 {
            VarintParse::Overflow
        } else {
            varint_scan(buf, i + 1, n)
        }
    }
}

/// What the bytes are when they are read as a 32-bit number from the start.
pub open spec fn varint_parse(buf: Seq<u8>) -> VarintParse {
    varint_scan(buf, 0, 0)
}

/// Why a run of bytes is no number.
#[derive(Debug, Clone, Copy, PartialEq, Eq, Structural)]
pub enum VarintError {
    Insufficient,
    Overflow,
    NotMinimal,
    /// A reason this library has no name for.
    Unknown,
}

/// `unsigned_varint::encode::u32`, with a buffer of `u32_buffer`: the bytes
/// of `n`. The claim restates the loop of the encoder in arithmetic: a byte
/// holds `n % 128`, with 128 added while `n / 128` is not zero.
#[verifier::external_body]
fn encode_u32(n: u32) -> (bytes: Vec<u8>)
    ensures
        bytes@ == varint_bytes(n),
{
    let mut buffer = unsigned_varint::encode::u32_buffer();
    unsigned_varint::encode::u32(n, &mut buffer).to_vec()
}

/// `unsigned_varint::decode::u32`: the number at the start of `buf` and the
/// bytes after it, or the reason why there is none. The claim restates the
/// loop of the decoder in arithmetic: it reads at most five bytes, adds the
/// low seven bits of each at its place, and ends at the first byte below 128.
#[verifier::external_body]
fn decode_u32(buf: &[u8]) -> (r: Result<(u32, &[u8]), VarintError>)
    ensures
        match varint_parse(buf@) {
            VarintParse::Done(n, used) => used <= buf@.len() && r.is_ok() && r.unwrap().0 == n
                && r.unwrap().1@ == buf@.skip(used as int),
            VarintParse::Insufficient => r == Err::<(u32, &[u8]), VarintError>(
                VarintError::Insufficient,
            ),
            VarintParse::Overflow => r == Err::<(u32, &[u8]), VarintError>(VarintError::Overflow),
            VarintParse::NotMinimal => r == Err::<(u32, &[u8]), VarintError>(
                VarintError::NotMinimal,
            ),
        },
{
    match unsigned_varint::decode::u32(buf) {
        Ok(found) => Ok(found),
        Err(unsigned_varint::decode::Error::Insufficient) => Err(VarintError::Insufficient),
        Err(unsigned_varint::decode::Error::Overflow) => Err(VarintError::Overflow),
        Err(unsigned_varint::decode::Error::NotMinimal) => Err(VarintError::NotMinimal),
        Err(_) => Err(VarintError::Unknown),
    }
}

/// Every number takes one to five bytes.
pub proof fn varint_bytes_len(n: u32)
    ensures
        1 <= varint_bytes(n).len() <= 5,
        n < 128 ==> varint_bytes(n).len() == 1,
{
    reveal_with_fuel(varint_bytes, 6);
}

/// A reading ends within the bytes it was given.
pub proof fn varint_scan_within(buf: Seq<u8>, i: nat, acc: nat)
    requires
        i <= 4,
    ensures
        match varint_scan(buf, i, acc) {
            VarintParse::Done(_, used) => i < used <= buf.len() && used <= 5,
            _ => true,
        },
    decreases buf.len() - i,
{
    if i < buf.len() && buf[i as int] >= 128 && i != 4 {
        varint_scan_within(buf, i + 1, acc + contribution(buf[i as int], i));
    }
}

/// Reading the bytes of a number gives the number back, whatever follows.
/// More generally: after `before`, which holds `acc`, the bytes of `m` read
/// as `acc + m * weight(i)`.
pub proof fn varint_scan_bytes(before: Seq<u8>, m: u32, acc: nat, after: Seq<u8>)
    requires
        before.len() <= 4,
        acc + m * weight(before.len()) <= u32::MAX,
        before.len() > 0 ==> m > 0,
    ensures
        varint_scan(before + varint_bytes(m) + after, before.len(), acc) == VarintParse::Done(
            (acc + m * weight(before.len())) as u32,
            before.len() + varint_bytes(m).len(),
        ),
    decreases m,
{
    let i = before.len();
    let all = before + varint_bytes(m) + after;
    assert(all[i as int] == varint_bytes(m)[0]);
    if m < 128 {
        assert(varint_bytes(m).len() == 1);
        if i == 4 {
            assert(m < 16) by (nonlinear_arith)
                requires
                    m * 268_435_456 <= u32::MAX,
            ;
        }
    } else {
        let first = (m % 128 + 128) as u8;
        let rest = (m / 128) as u32;
        assert(i < 4) by {
            if i == 4 {
                assert(m < 16) by (nonlinear_arith)
                    requires
                        m * 268_435_456 <= u32::MAX,
                ;
            }
        }
        assert(weight(i + 1) == 128 * weight(i));
        assert(first % 128 == m % 128);
        assert(acc + contribution(first, i) + rest * weight(i + 1) == acc + m * weight(i)) by {
            assert((m % 128) * weight(i) + (m / 128) * (128 * weight(i)) == m * weight(i))
                by (nonlinear_arith)
                requires
                    m >= 0,
            ;
        }
        let longer = before.push(first);
        assert(longer + varint_bytes(rest) + after =~= all);
        varint_scan_bytes(longer, rest, acc + contribution(first, i), after);
    }
}

/// Reading the bytes of a number gives the number back, whatever follows.
pub proof fn varint_round_trip(n: u32, after: Seq<u8>)
    ensures
        varint_parse(varint_bytes(n) + after) == VarintParse::Done(n, varint_bytes(n).len()),
{
    let empty = Seq::<u8>::empty();
    assert(empty + varint_bytes(n) + after =~= varint_bytes(n) + after);
    varint_scan_bytes(empty, n, 0, after);
}

/// The bytes of `n`.
pub fn write_varint(n: u32) -> (bytes: Vec<u8>)
    ensures
        bytes@ == varint_bytes(n),
        1 <= bytes@.len() <= 5,
{
    proof {
        varint_bytes_len(n);
    }
    encode_u32(n)
}

/// The number at the start of `buf` and how many bytes it takes, or the
/// reason why there is none.
pub fn read_varint(buf: &[u8]) -> (r: Result<(u32, usize), VarintError>)
    ensures
        match varint_parse(buf@) {
            VarintParse::Done(n, used) => r == Ok::<(u32, usize), VarintError>((n, used as usize))
                && 0 < used <= buf@.len() && used <= 5,
            VarintParse::Insufficient => r == Err::<(u32, usize), VarintError>(
                VarintError::Insufficient,
            ),
            VarintParse::Overflow => r == Err::<(u32, usize), VarintError>(VarintError::Overflow),
            VarintParse::NotMinimal => r == Err::<(u32, usize), VarintError>(
                VarintError::NotMinimal,
            ),
        },
{
    proof {
        varint_scan_within(buf@, 0, 0);
    }
    match decode_u32(buf) {
        Ok((n, rest)) => {
            let used = buf.len() - rest.len();
            Ok((n, used))
        },
        Err(reason) => Err(reason),
    }
}

} // verus!
