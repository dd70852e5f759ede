//! Texts and numbers, as players write them and as they stand in packets.
use crate::codec::{
    as_signed, as_unsigned, big_endian, from_big_endian, int_at, text_at, varint, varint_read,
    TextError, VarIntError, VarIntRead,
};
use crate::packets::{
    compression_from, transfer_id, CompressionInfo, ConnectionProtocol, PacketIds,
};
use crate::text::{
    all_digits, decimal, digit_char, digits_value, is_digit, is_white_space, parsed_u32,
    signed_decimal, trimmed, trimmed_end, trimmed_start,
};
use vstd::prelude::*;
use vstd::utf8::{encode_utf8, valid_utf8};

verus! {

/// Whether a text is white space only.
pub open spec fn all_white(s: Seq<char>) -> bool {
    forall|i: int| 0 <= i < s.len() ==> is_white_space(#[trigger] s[i])
}

proof fn lemma_start_is_cut(s: Seq<char>) -> (k: int)
    ensures
        0 <= k <= s.len(),
        trimmed_start(s) == s.skip(k),
        all_white(s.take(k)),
    decreases s.len(),
{
    if s.len() > 0 && is_white_space(s[0]) {
        let k = lemma_start_is_cut(s.skip(1));
        assert(s.skip(1).skip(k) =~= s.skip(k + 1));
        assert forall|i: int| 0 <= i < k + 1 implies is_white_space(
            #[trigger] s.take(k + 1)[i],
        ) by {
            if i > 0 {
                assert(s.skip(1).take(k)[i - 1] == s[i]);
            }
        }
        k + 1
    } else {
        assert(s.skip(0) =~= s);
        0
    }
}

proof fn lemma_end_is_cut(s: Seq<char>) -> (k: int)
    ensures
        0 <= k <= s.len(),
        trimmed_end(s) == s.take(k),
        all_white(s.skip(k)),
    decreases s.len(),
{
    if s.len() > 0 && is_white_space(s.last()) {
        let k = lemma_end_is_cut(s.drop_last());
        assert(s.drop_last().take(k) =~= s.take(k));
        assert forall|i: int| 0 <= i < s.len() - k implies is_white_space(
            #[trigger] s.skip(k)[i],
        ) by {
            if i < s.len() - k - 1 {
                assert(s.drop_last().skip(k)[i] == s[k + i]);
            }
        }
        k
    } else {
        assert(s.take(s.len() as int) =~= s);
        s.len() as int
    }
}

/// Trimming takes white space away on both sides, and nothing else: a text is what is left of it
/// with white space in front and behind, and what is left neither begins nor ends with any.
pub proof fn trimming_takes_white_space_only(s: Seq<char>)
    ensures
        exists|a: Seq<char>, b: Seq<char>|
            s == #[trigger] ((a + trimmed(s)) + b) && all_white(a) && all_white(b),
        trimmed(s).len() > 0 ==> !is_white_space(trimmed(s)[0]) && !is_white_space(
            trimmed(s).last(),
        ),
{
    crate::text::trimming_is_final(s);
    let k = lemma_start_is_cut(s);
    let inner = s.skip(k);
    let j = lemma_end_is_cut(inner);
    assert(s =~= (s.take(k) + inner.take(j)) + inner.skip(j));
}

/// A number is read digit by digit: another digit behind a number makes ten times that number and
/// the digit, and no number where that does not fit; a plus sign in front of digits changes nothing;
/// and a text that holds anything else, or no digit, is no number.
pub proof fn numbers_are_read_digit_by_digit(s: Seq<char>, d: nat)
    requires
        d < 10,
    ensures
        s.len() > 0 && all_digits(s) ==> parsed_u32(s.push(digit_char(d))) == (match parsed_u32(s) {
            Some(v) => if v * 10 + d <= u32::MAX {
                Some((v * 10 + d) as u32)
            } else {
                None
            },
            None => None,
        }),
        parsed_u32(seq![digit_char(d)]) == Some(d as u32),
        all_digits(s) ==> parsed_u32("+"@ + s) == parsed_u32(s),
        parsed_u32(Seq::empty()) is None,
        s.len() > 0 && !is_digit(s[0]) && s[0] != '+' ==> parsed_u32(s) is None,
        forall|i: int| 0 < i < s.len() && !is_digit(#[trigger] s[i]) ==> parsed_u32(s) is None,
{
    reveal_strlit("+");
    let one = seq![digit_char(d)];
    assert(one.drop_last() =~= Seq::<char>::empty());
    assert(digits_value(Seq::<char>::empty()) == 0);
    assert(is_digit(digit_char(d)));
    assert(digits_value(one) == d);
    if all_digits(s) {
        assert(("+"@ + s).skip(1) =~= s);
        if s.len() > 0 {
            let t = s.push(digit_char(d));
            assert(is_digit(s[0]));
            assert(t.drop_last() =~= s);
            assert(all_digits(t)) by {
                assert forall|i: int| 0 <= i < t.len() implies is_digit(#[trigger] t[i]) by {
                    if i < s.len() {
                        assert(t[i] == s[i]);
                    }
                }
            }
            assert(digits_value(t) == digits_value(s) * 10 + d);
        }
    }
    if s.len() > 0 && !is_digit(s[0]) && s[0] != '+' {
        assert(!all_digits(s));
    }
    assert forall|i: int| 0 < i < s.len() && !is_digit(#[trigger] s[i]) implies parsed_u32(
        s,
    ) is None by {
        if s[0] == '+' {
            assert(s.skip(1)[i - 1] == s[i]);
        }
    }
}

/// A number is written digit by digit, without a zero in front, and a minus sign in front of it
/// where it is negative.
pub proof fn numbers_are_written_digit_by_digit(n: nat, d: nat)
    requires
        d < 10,
    ensures
        decimal(d) == seq![digit_char(d)],
        n > 0 ==> decimal(n * 10 + d) == decimal(n).push(digit_char(d)),
        digit_char(d) as int == '0' as int + d,
        n > 0 ==> decimal(n)[0] != '0',
        signed_decimal(n as int) == decimal(n),
        n > 0 ==> signed_decimal(-(n as int)) == "-"@ + decimal(n),
    decreases n,
{
    if n > 0 {
        assert((n * 10 + d) / 10 == n);
        assert((n * 10 + d) % 10 == d);
        if n >= 10 {
            numbers_are_written_digit_by_digit(n / 10, d);
            crate::text::decimal_is_read_back(n / 10);
            assert(decimal(n)[0] == decimal(n / 10)[0]);
        }
    }
}

/// The bits of a signed number and of an unsigned one are the same bits.
pub proof fn signed_and_unsigned_are_the_same_bits(x: i32, v: nat)
    ensures
        as_signed(as_unsigned(x)) == x,
        as_unsigned(as_signed(v)) == v % 0x1_0000_0000,
        x >= 0 ==> as_unsigned(x) == x,
        (as_unsigned(x) - x) % 0x1_0000_0000 == 0,
{
}

/// An integer takes one byte for every seven bits that it needs, and no more.
pub proof fn integers_take_no_byte_too_many(v: nat)
    ensures
        v < 0x80 ==> varint(v).len() == 1,
        0x80 <= v < 0x4000 ==> varint(v).len() == 2,
        0x4000 <= v < 0x20_0000 ==> varint(v).len() == 3,
        0x20_0000 <= v < 0x1000_0000 ==> varint(v).len() == 4,
        0x1000_0000 <= v < 0x1_0000_0000 ==> varint(v).len() == 5,
{
    reveal_with_fuel(varint, 6);
}

proof fn lemma_groups(s: Seq<u8>, groups: nat)
    requires
        groups <= 5,
    ensures
        match varint_read(s, groups) {
            VarIntRead::Value { value, used } => {
                &&& 0 < used <= groups
                &&& used <= s.len()
                &&& s[used - 1] < 128
                &&& forall|i: int| 0 <= i < used - 1 ==> #[trigger] s[i] >= 128
            },
            VarIntRead::Ends => s.len() < groups && forall|i: int|
                0 <= i < s.len() ==> #[trigger] s[i] >= 128,
            VarIntRead::TooLong => s.len() >= groups && forall|i: int|
                0 <= i < groups ==> #[trigger] s[i] >= 128,
        },
    decreases groups,
{
    if groups > 0 && s.len() > 0 && s[0] >= 128 {
        let rest = s.skip(1);
        lemma_groups(rest, (groups - 1) as nat);
        match varint_read(rest, (groups - 1) as nat) {
            VarIntRead::Value { value, used } => {
                assert(rest[used - 1] == s[used as int]);
                assert forall|i: int| 0 <= i < used implies #[trigger] s[i] >= 128 by {
                    if i > 0 {
                        assert(rest[i - 1] == s[i]);
                    }
                }
            },
            VarIntRead::Ends => {
                assert forall|i: int| 0 <= i < s.len() implies #[trigger] s[i] >= 128 by {
                    if i > 0 {
                        assert(rest[i - 1] == s[i]);
                    }
                }
            },
            VarIntRead::TooLong => {
                assert forall|i: int| 0 <= i < groups implies #[trigger] s[i] >= 128 by {
                    if i > 0 {
                        assert(rest[i - 1] == s[i]);
                    }
                }
            },
        }
    }
}

/// An integer ends with the first of at most five bytes whose top bit is not set; where the bytes
/// end before, or none of five is such a byte, there is no integer, for that very reason.
pub proof fn integers_end_where_the_top_bit_is_not_set(s: Seq<u8>)
    ensures
        match int_at(s) {
            Ok((_, used)) => {
                &&& 0 < used <= 5
                &&& used <= s.len()
                &&& s[used - 1] < 128
                &&& forall|i: int| 0 <= i < used - 1 ==> #[trigger] s[i] >= 128
            },
            Err(VarIntError::Ends) => s.len() < 5 && forall|i: int|
                0 <= i < s.len() ==> #[trigger] s[i] >= 128,
            Err(VarIntError::TooLong) => s.len() >= 5 && forall|i: int|
                0 <= i < 5 ==> #[trigger] s[i] >= 128,
        },
{
    lemma_groups(s, 5);
}

/// A text that is read is the one whose bytes follow its length, as many as the length says; and
/// wherever a length is followed by as many bytes of a text, that text is read.
pub proof fn texts_are_what_follows_their_length(s: Seq<u8>, t: Seq<char>)
    ensures
        text_at(s) == Ok::<Seq<char>, TextError>(t) ==> (int_at(s) matches Ok((n, used)) && n >= 0
            && used + n <= s.len() && encode_utf8(t) == s.subrange(used as int, used + n)),
        int_at(s) matches Ok((n, used)) ==> (n >= 0 && used + n <= s.len() && encode_utf8(t)
            == s.subrange(used as int, used + n) ==> text_at(s) == Ok::<Seq<char>, TextError>(t)),
        text_at(s) matches Err(TextError::Length(e)) ==> int_at(s) == Err::<(i32, nat), VarIntError>(
            e,
        ),
        text_at(s) == Err::<Seq<char>, TextError>(TextError::Short) ==> (int_at(s) matches Ok(
            (n, used),
        ) && (n < 0 || used + n > s.len())),
{
    vstd::utf8::encode_utf8_decode_utf8(t);
    vstd::utf8::encode_utf8_valid_utf8(t);
    if let Ok((n, used)) = int_at(s) {
        if n >= 0 && used + n <= s.len() {
            let bytes = s.subrange(used as int, used + n);
            if valid_utf8(bytes) {
                vstd::utf8::decode_utf8_encode_utf8(bytes);
            }
        }
    }
}

/// A transfer has a number in the two phases in which it can be sent, the one of that phase, and in
/// no other.
pub proof fn transfers_have_the_number_of_their_phase(ids: PacketIds, protocol: ConnectionProtocol)
    ensures
        transfer_id(ConnectionProtocol::Config, ids) == Some(ids.config_transfer),
        transfer_id(ConnectionProtocol::Play, ids) == Some(ids.play_transfer),
        transfer_id(protocol, ids) is Some ==> protocol == ConnectionProtocol::Config || protocol
            == ConnectionProtocol::Play,
{
}

/// Packets are compressed exactly where a size was announced, from that size on, and always as hard.
pub proof fn compression_is_as_announced(threshold: u32)
    ensures
        compression_from(Some(threshold)) == Some(CompressionInfo { threshold, level: 4 }),
        compression_from(None) is None,
{
}

/// White space are these characters and no other: the tabulator and the four behind it, the space,
/// the next line, the space that does not break, the Ogham space, the eleven widths of space, the
/// separators of lines and paragraphs, the narrow, the mathematical and the ideographic space.
pub proof fn white_space_is_counted(c: char)
    ensures
        is_white_space(c) <==> seq![
            9u32,
            10,
            11,
            12,
            13,
            32,
            133,
            160,
            5760,
            8192,
            8193,
            8194,
            8195,
            8196,
            8197,
            8198,
            8199,
            8200,
            8201,
            8202,
            8232,
            8233,
            8239,
            8287,
            12288,
        ].contains(c as u32),
{
    let row = seq![
        9u32,
        10,
        11,
        12,
        13,
        32,
        133,
        160,
        5760,
        8192,
        8193,
        8194,
        8195,
        8196,
        8197,
        8198,
        8199,
        8200,
        8201,
        8202,
        8232,
        8233,
        8239,
        8287,
        12288,
    ];
    let code = c as u32;
    if is_white_space(c) {
        let place: int = if code <= 13 {
            code - 9
        } else if code == 32 {
            5
        } else if code == 133 {
            6
        } else if code == 160 {
            7
        } else if code == 5760 {
            8
        } else if code <= 8202 {
            code - 8192 + 9
        } else if code == 8232 {
            20
        } else if code == 8233 {
            21
        } else if code == 8239 {
            22
        } else if code == 8287 {
            23
        } else {
            24
        };
        assert(row[place] == code);
    }
}

/// Numbers of a fixed size stand with their highest byte in front.
pub proof fn highest_bytes_come_first(x: u16, a: u8, b: u8, c: u8, d: u8)
    ensures
        big_endian(x as nat, 2) == seq![(x / 256) as u8, (x % 256) as u8],
        from_big_endian(seq![a, b, c, d]) == a * 0x100_0000 + b * 0x1_0000 + c * 0x100 + d,
{
    reveal_with_fuel(big_endian, 3);
    reveal_with_fuel(from_big_endian, 5);
    assert(big_endian(x as nat, 2) =~= seq![(x / 256) as u8, (x % 256) as u8]);
    let s = seq![a, b, c, d];
    assert(s.drop_last() =~= seq![a, b, c]);
    assert(seq![a, b, c].drop_last() =~= seq![a, b]);
    assert(seq![a, b].drop_last() =~= seq![a]);
    assert(seq![a].drop_last() =~= Seq::<u8>::empty());
}

/// Integers of any size stand with their lowest seven bits in front; the top bit of a byte says that
/// the rest of the integer follows.
pub proof fn lowest_bits_come_first(v: nat)
    ensures
        v < 128 ==> varint(v) == seq![v as u8],
        v >= 128 ==> varint(v)[0] == 128 + v % 128 && varint(v).skip(1) == varint(v / 128),
{
    if v >= 128 {
        assert(varint(v).skip(1) =~= varint(v / 128));
    }
}

} // verus!
