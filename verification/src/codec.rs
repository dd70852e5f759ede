//! The wire forms of the numbers and texts in a packet.
use vstd::prelude::*;
use vstd::utf8::{decode_utf8, encode_utf8, valid_utf8};

verus! {

/// The most bytes that a variable-length integer takes.
pub const VARINT_MAX_BYTES: u8 = 5;

/// The 32 bits of `x`, read as an unsigned number.
pub open spec fn as_unsigned(x: i32) -> nat {
    if x < 0 {
        (x + 0x1_0000_0000) as nat
    } else {
        x as nat
    }
}

/// The low 32 bits of `v`, read as a signed number.
pub open spec fn as_signed(v: nat) -> i32 {
    let low = v % 0x1_0000_0000;
    if low < 0x8000_0000 {
        low as i32
    } else {
        (low - 0x1_0000_0000) as i32
    }
}

/// The variable-length form of `v`: groups of seven bits, least significant first, with the top
/// bit set on every group but the last.
pub open spec fn varint(v: nat) -> Seq<u8>
    decreases v,
{
    if v < 128 {
        seq![v as u8]
    } else {
        seq![(v % 128 + 128) as u8] + varint(v / 128)
    }
}

/// What reading a variable-length integer at the start of some bytes comes to.
pub enum VarIntRead {
    /// The bytes end before the last group.
    Ends,
    /// The last group is not among the groups allowed.
    TooLong,
    /// The groups stand for `value` and take `used` bytes.
    Value { value: nat, used: nat },
}

/// Reads a variable-length integer of at most `groups` groups.
pub open spec fn varint_read(s: Seq<u8>, groups: nat) -> VarIntRead
    decreases groups,
{
    if groups == 0 {
        VarIntRead::TooLong
    } else if s.len() == 0 {
        VarIntRead::Ends
    } else if s[0] < 128 {
        VarIntRead::Value { value: s[0] as nat, used: 1 }
    } else {
        match varint_read(s.skip(1), (groups - 1) as nat) {
            VarIntRead::Value { value, used } => VarIntRead::Value {
                value: (s[0] - 128 + 128 * value) as nat,
                used: used + 1,
            },
            other => other,
        }
    }
}

/// Why no variable-length integer could be read.
#[derive(Clone, Copy, PartialEq, Eq, Structural, Debug)]
pub enum VarIntError {
    /// The bytes end before the last group.
    Ends,
    /// More than five groups.
    TooLong,
}

/// The integer at the start of `s` and the bytes it takes, or why there is none.
pub open spec fn int_at(s: Seq<u8>) -> Result<(i32, nat), VarIntError> {
    match varint_read(s, 5) {
        VarIntRead::Ends => Err(VarIntError::Ends),
        VarIntRead::TooLong => Err(VarIntError::TooLong),
        VarIntRead::Value { value, used } => Ok((as_signed(value), used)),
    }
}

/// `x` in `n` bytes, most significant first.
pub open spec fn big_endian(x: nat, n: nat) -> Seq<u8>
    decreases n,
{
    if n == 0 {
        Seq::empty()
    } else {
        big_endian(x / 256, (n - 1) as nat).push((x % 256) as u8)
    }
}

/// The number whose bytes, most significant first, are `s`.
pub open spec fn from_big_endian(s: Seq<u8>) -> nat
    decreases s.len(),
{
    if s.len() == 0 {
        0
    } else {
        from_big_endian(s.drop_last()) * 256 + s.last() as nat
    }
}

/// A text on the wire: its length in bytes, then its UTF-8 bytes.
pub open spec fn text_field(s: Seq<char>) -> Seq<u8> {
    varint(encode_utf8(s).len() % 0x1_0000_0000) + encode_utf8(s)
}

/// Appends the bytes of `bytes` to `out`.
pub fn push_bytes(out: &mut Vec<u8>, bytes: &[u8])
    ensures
        final(out)@ == old(out)@ + bytes@,
{
    out.extend_from_slice(bytes);
    assert(out@ =~= old(out)@ + bytes@);
}

/// Appends the variable-length form of `v`.
pub fn push_varint_u32(out: &mut Vec<u8>, v: u32)
    ensures
        final(out)@ == old(out)@ + varint(v as nat),
    decreases v,
{
    if v < 128 {
        out.push(v as u8);
        assert(out@ =~= old(out)@ + varint(v as nat));
    } else {
        out.push((v % 128 + 128) as u8);
        push_varint_u32(out, v / 128);
        assert(out@ =~= old(out)@ + varint(v as nat));
    }
}

/// Appends the variable-length form of `x`.
pub fn push_varint(out: &mut Vec<u8>, x: i32)
    ensures
        final(out)@ == old(out)@ + varint(as_unsigned(x)),
{
    let v: u32 = if x < 0 { ((x as i64) + 0x1_0000_0000) as u32 } else { x as u32 };
    push_varint_u32(out, v);
}

/// Appends `x` as two bytes, most significant first.
pub fn push_u16(out: &mut Vec<u8>, x: u16)
    ensures
        final(out)@ == old(out)@ + big_endian(x as nat, 2),
{
    reveal_with_fuel(big_endian, 3);
    out.push((x / 256) as u8);
    out.push((x % 256) as u8);
    assert(out@ =~= old(out)@ + big_endian(x as nat, 2));
}

/// Appends `x` as `n` bytes, most significant first.
pub fn push_big_endian(out: &mut Vec<u8>, x: u128, n: u8)
    ensures
        final(out)@ == old(out)@ + big_endian(x as nat, n as nat),
    decreases n,
{
    if n > 0 {
        push_big_endian(out, x / 256, n - 1);
        out.push((x % 256) as u8);
    }
    assert(out@ =~= old(out)@ + big_endian(x as nat, n as nat));
}

/// Appends a text with its length in front.
pub fn push_text(out: &mut Vec<u8>, s: &str)
    ensures
        final(out)@ == old(out)@ + text_field(s@),
{
    let bytes = s.as_bytes();
    let n: u64 = bytes.len() as u64;
    push_varint_u32(out, (n % 0x1_0000_0000) as u32);
    push_bytes(out, bytes);
    assert(out@ =~= old(out)@ + text_field(s@));
}

/// No integer of `groups` groups reaches this value.
spec fn group_bound(groups: nat) -> nat
    decreases groups,
{
    if groups == 0 {
        1
    } else {
        128 * group_bound((groups - 1) as nat)
    }
}

fn read_groups(bytes: &[u8], at: usize, groups: u8) -> (r: Result<(u64, usize), VarIntError>)
    requires
        at <= bytes@.len(),
        groups <= 5,
    ensures
        match r {
            Ok((value, used)) => {
                &&& varint_read(bytes@.skip(at as int), groups as nat) == (VarIntRead::Value {
                    value: value as nat,
                    used: used as nat,
                })
                &&& value < group_bound(groups as nat)
                &&& 0 < used <= groups
                &&& at + used <= bytes@.len()
            },
            Err(VarIntError::Ends) => varint_read(bytes@.skip(at as int), groups as nat)
                == VarIntRead::Ends,
            Err(VarIntError::TooLong) => varint_read(bytes@.skip(at as int), groups as nat)
                == VarIntRead::TooLong,
        },
    decreases groups,
{
    reveal_with_fuel(group_bound, 6);
    if groups == 0 {
        return Err(VarIntError::TooLong);
    }
    if at == bytes.len() {
        return Err(VarIntError::Ends);
    }
    let b: u8 = bytes[at];
    assert(bytes@.skip(at as int)[0] == b);
    if b < 128 {
        return Ok((b as u64, 1));
    }
    assert(bytes@.skip(at as int).skip(1) =~= bytes@.skip(at + 1));
    match read_groups(bytes, at + 1, groups - 1) {
        Ok((value, used)) => Ok(((b - 128) as u64 + 128 * value, used + 1)),
        Err(e) => Err(e),
    }
}

/// Reads a variable-length integer; also gives the number of bytes it takes.
pub fn read_varint(bytes: &[u8]) -> (r: Result<(i32, usize), VarIntError>)
    ensures
        match r {
            Ok((x, used)) => int_at(bytes@) == Ok::<(i32, nat), VarIntError>((x, used as nat))
                && used <= bytes@.len() && 0 < used <= VARINT_MAX_BYTES,
            Err(e) => int_at(bytes@) == Err::<(i32, nat), VarIntError>(e),
        },
{
    assert(bytes@.skip(0) =~= bytes@);
    match read_groups(bytes, 0, VARINT_MAX_BYTES) {
        Ok((value, used)) => {
            let low: u64 = value % 0x1_0000_0000;
            let x: i32 = if low < 0x8000_0000 {
                low as i32
            } else {
                ((low as i64) - 0x1_0000_0000) as i32
            };
            Ok((x, used))
        },
        Err(e) => Err(e),
    }
}

/// Why no text could be read.
#[derive(Clone, Copy, PartialEq, Eq, Structural, Debug)]
pub enum TextError {
    /// The length in front could not be read.
    Length(VarIntError),
    /// The length is negative, or fewer bytes follow than it says.
    Short,
    /// The bytes are not UTF-8.
    NotUtf8,
}

/// The text at the start of `s` with its length in front, or why there is none.
pub open spec fn text_at(s: Seq<u8>) -> Result<Seq<char>, TextError> {
    match int_at(s) {
        Err(e) => Err(TextError::Length(e)),
        Ok((n, used)) => if n < 0 || used + n > s.len() {
            Err(TextError::Short)
        } else if valid_utf8(s.subrange(used as int, used + n)) {
            Ok(decode_utf8(s.subrange(used as int, used + n)))
        } else {
            Err(TextError::NotUtf8)
        },
    }
}

/// `String::from_utf8`: gives a text exactly where the bytes are valid UTF-8, and then the text
/// whose UTF-8 bytes they are.
#[verifier::external_body]
fn utf8_text(bytes: Vec<u8>) -> (r: Option<String>)
    ensures
        match r {
            Some(s) => encode_utf8(s@) == bytes@,
            None => !valid_utf8(bytes@),
        },
{
    String::from_utf8(bytes).ok()
}

/// Reads a text with its length in front. Bytes that follow it are left alone.
pub fn read_text(bytes: &[u8]) -> (r: Result<String, TextError>)
    ensures
        match r {
            Ok(s) => text_at(bytes@) == Ok::<Seq<char>, TextError>(s@),
            Err(e) => text_at(bytes@) == Err::<Seq<char>, TextError>(e),
        },
{
    match read_varint(bytes) {
        Err(e) => Err(TextError::Length(e)),
        Ok((n, used)) => {
            if n < 0 {
                return Err(TextError::Short);
            }
            let len: usize = n as usize;
            if len > bytes.len() - used {
                return Err(TextError::Short);
            }
            let mut body: Vec<u8> = Vec::new();
            push_bytes(&mut body, vstd::slice::slice_subrange(bytes, used, used + len));
            assert(body@ =~= bytes@.subrange(used as int, used + len));
            match utf8_text(body) {
                Some(s) => {
                    proof {
                        vstd::utf8::encode_utf8_decode_utf8(s@);
                        vstd::utf8::encode_utf8_valid_utf8(s@);
                    }
                    Ok(s)
                },
                None => Err(TextError::NotUtf8),
            }
        },
    }
}

proof fn lemma_varint_read_back(v: nat, rest: Seq<u8>, groups: nat)
    requires
        0 < groups,
        v < group_bound(groups),
    ensures
        varint_read(varint(v) + rest, groups) == (VarIntRead::Value {
            value: v,
            used: varint(v).len(),
        }),
        0 < varint(v).len() <= groups,
    decreases groups,
{
    reveal_with_fuel(group_bound, 3);
    let s = varint(v) + rest;
    if v < 128 {
        assert(s[0] == v as u8);
    } else {
        lemma_varint_read_back(v / 128, rest, (groups - 1) as nat);
        assert(s[0] == (v % 128 + 128) as u8);
        assert(s.skip(1) =~= varint(v / 128) + rest);
    }
}

/// An integer written in the variable-length form is read back as itself, whatever follows it,
/// and takes at most five bytes.
pub proof fn varint_is_read_back(x: i32, rest: Seq<u8>)
    ensures
        int_at(varint(as_unsigned(x)) + rest) == Ok::<(i32, nat), VarIntError>(
            (x, varint(as_unsigned(x)).len()),
        ),
        0 < varint(as_unsigned(x)).len() <= 5,
{
    reveal_with_fuel(group_bound, 6);
    lemma_varint_read_back(as_unsigned(x), rest, 5);
}

/// A text written with its length in front is read back as itself, whatever follows it, as long
/// as its length in bytes is no more than the largest signed number of 32 bits.
pub proof fn text_is_read_back(s: Seq<char>, rest: Seq<u8>)
    requires
        encode_utf8(s).len() <= i32::MAX,
    ensures
        text_at(text_field(s) + rest) == Ok::<Seq<char>, TextError>(s),
{
    let n = encode_utf8(s).len() as i32;
    let head = varint(as_unsigned(n));
    varint_is_read_back(n, encode_utf8(s) + rest);
    assert(text_field(s) + rest =~= head + (encode_utf8(s) + rest));
    let all = text_field(s) + rest;
    assert(all.subrange(head.len() as int, head.len() + n) =~= encode_utf8(s));
    vstd::utf8::encode_utf8_decode_utf8(s);
    vstd::utf8::encode_utf8_valid_utf8(s);
}

/// A number written in `n` bytes takes `n` bytes, and is read back as itself where it fits.
pub proof fn big_endian_is_read_back(x: nat, n: nat)
    ensures
        big_endian(x, n).len() == n,
        x < byte_bound(n) ==> from_big_endian(big_endian(x, n)) == x,
    decreases n,
{
    if n > 0 {
        big_endian_is_read_back(x / 256, (n - 1) as nat);
        assert(big_endian(x, n).drop_last() =~= big_endian(x / 256, (n - 1) as nat));
    }
}

/// The least number that does not fit in `n` bytes.
pub open spec fn byte_bound(n: nat) -> nat
    decreases n,
{
    if n == 0 {
        1
    } else {
        256 * byte_bound((n - 1) as nat)
    }
}

} // verus!
