use vstd::prelude::*;
use crate::color::Color;

verus! {

/// `c` is one of `0-9`, `a-f`, `A-F`.
pub open spec fn is_hex_char(c: char) -> bool {
    ('0' <= c && c <= '9') || ('a' <= c && c <= 'f') || ('A' <= c && c <= 'F')
}

/// The value of the hexadecimal digit `c`.
pub open spec fn hex_char_value(c: char) -> int {
    if '0' <= c && c <= '9' {
        c as int - '0' as int
    } else if 'a' <= c && c <= 'f' {
        c as int - 'a' as int + 10
    } else {
        c as int - 'A' as int + 10
    }
}

/// The value of a string of hexadecimal digits, most significant first.
pub open spec fn hex_digits_value(s: Seq<char>) -> int
    decreases s.len(),
{
    if s.len() == 0 {
        0
    } else {
        hex_digits_value(s.drop_last()) * 16 + hex_char_value(s.last())
    }
}

/// What `u8::from_str_radix(s, 16)` accepts and gives: an optional `+` followed by
/// at least one hexadecimal digit, with a value that fits in a byte.
pub open spec fn radix16_u8(s: Seq<char>) -> Option<u8> {
    let digits = if s.len() > 0 && s[0] == '+' {
        s.drop_first()
    } else {
        s
    };
    if digits.len() > 0 && (forall|i: int| 0 <= i < digits.len() ==> is_hex_char(#[trigger] digits[i]))
        && hex_digits_value(digits) <= 255 {
        Some(hex_digits_value(digits) as u8)
    } else {
        None
    }
}

/// Two hexadecimal digits stand at position `i` of `s`.
pub open spec fn hex_pair_at(s: Seq<char>, i: int) -> bool {
    &&& 0 <= i
    &&& i + 2 <= s.len()
    &&& is_hex_char(s[i])
    &&& is_hex_char(s[i + 1])
}

/// The byte written by the two hexadecimal digits at position `i` of `s`.
pub open spec fn hex_pair_value(s: Seq<char>, i: int) -> u8 {
    (hex_char_value(s[i]) * 16 + hex_char_value(s[i + 1])) as u8
}

/// Which step of reading a colour failed.
#[derive(Debug, Clone, Copy, PartialEq, Eq)]
pub enum HexErrorKind {
    /// The text does not start with `#`.
    Tag,
    /// Fewer than two hexadecimal digits stand where a channel is expected.
    TakeWhileMN,
}

/// A refused colour text: what failed, and how many characters of the text were
/// read before the failure (the error stands at the rest of the text).
#[derive(Debug, Clone, Copy, PartialEq, Eq)]
pub struct HexError {
    pub kind: HexErrorKind,
    pub offset: usize,
}

/// What reading `#RRGGBBWW` from the front of `s` gives: the rest of the text and
/// the colour, or the first failure.
pub open spec fn parse_rgbw(s: Seq<char>) -> Result<(Seq<char>, Color), HexError> {
    if s.len() == 0 || s[0] != '#' {
        Err(HexError { kind: HexErrorKind::Tag, offset: 0 })
    } else if !hex_pair_at(s, 1) {
        Err(HexError { kind: HexErrorKind::TakeWhileMN, offset: 1 })
    } else if !hex_pair_at(s, 3) {
        Err(HexError { kind: HexErrorKind::TakeWhileMN, offset: 3 })
    } else if !hex_pair_at(s, 5) {
        Err(HexError { kind: HexErrorKind::TakeWhileMN, offset: 5 })
    } else if !hex_pair_at(s, 7) {
        Err(HexError { kind: HexErrorKind::TakeWhileMN, offset: 7 })
    } else {
        Ok(
            (
                s.skip(9),
                Color {
                    r: hex_pair_value(s, 1),
                    g: hex_pair_value(s, 3),
                    b: hex_pair_value(s, 5),
                    w: hex_pair_value(s, 7),
                },
            ),
        )
    }
}

#[verifier::external_type_specification]
#[verifier::external_body]
pub struct ExParseIntError(core::num::ParseIntError);

/// Calls `u8::from_str_radix(input, 16)`. Its documentation states that it
/// accepts an optional `+` followed by digits of the radix and fails when the text
/// is empty, holds any other character or gives a value above `u8::MAX`; the
/// contract says that, over `radix16_u8`. The kind of error is left unsaid.
#[verifier::external_body]
pub(crate) fn from_hex(input: &str) -> (res: Result<u8, core::num::ParseIntError>)
    ensures
        res is Ok <==> radix16_u8(input@) is Some,
        res matches Ok(v) ==> radix16_u8(input@) == Some(v),
{
    u8::from_str_radix(input, 16)
}

/// Whether `c` is an ASCII hexadecimal digit.
pub fn is_hex_digit(c: char) -> (res: bool)
    ensures
        res == is_hex_char(c),
{
    ('0' <= c && c <= '9') || ('a' <= c && c <= 'f') || ('A' <= c && c <= 'F')
}

pub(crate) proof fn lemma_two_digits(s: Seq<char>)
    requires
        s.len() == 2,
        is_hex_char(s[0]),
        is_hex_char(s[1]),
    ensures
        radix16_u8(s) == Some(((hex_char_value(s[0]) * 16 + hex_char_value(s[1])) as u8)),
{
    assert(s.drop_last().drop_last().len() == 0);
    assert(s.drop_last().last() == s[0]);
    assert(s.last() == s[1]);
    let t = s.drop_last();
    assert(t.drop_last().len() == 0);
    assert(hex_digits_value(t.drop_last()) == 0);
    assert(hex_digits_value(t) == hex_char_value(s[0]));
    assert(forall|i: int| 0 <= i < s.len() ==> is_hex_char(#[trigger] s[i]));
}

/// Reads one channel: exactly two hexadecimal digits at the front of `input`.
fn hex_primary(input: &str) -> (res: Result<(&str, u8), ()>)
    ensures
        res is Ok <==> hex_pair_at(input@, 0),
        res matches Ok((rest, v)) ==> rest@ == input@.skip(2) && v == hex_pair_value(input@, 0),
{
    let n = input.unicode_len();
    if n < 2 {
        return Err(());
    }
    let c0 = input.get_char(0);
    let c1 = input.get_char(1);
    if !is_hex_digit(c0) || !is_hex_digit(c1) {
        return Err(());
    }
    let digits = input.substring_char(0, 2);
    let rest = input.substring_char(2, n);
    proof {
        lemma_two_digits(digits@);
    }
    match from_hex(digits) {
        Ok(v) => Ok((rest, v)),
        Err(_) => Err(()),
    }
}

/// Reads a colour written `#RRGGBBWW` from the front of `input` and gives the rest
/// of the text with it.
pub fn hex_to_rgbw(input: &str) -> (res: Result<(&str, Color), HexError>)
    ensures
        res matches Ok((rest, c)) ==> parse_rgbw(input@) == Ok::<(Seq<char>, Color), HexError>(
            (rest@, c),
        ),
        res matches Err(e) ==> parse_rgbw(input@) == Err::<(Seq<char>, Color), HexError>(e),
{
    let n = input.unicode_len();
    if n == 0 || input.get_char(0) != '#' {
        return Err(HexError { kind: HexErrorKind::Tag, offset: 0 });
    }
    let ghost s = input@;
    let rest = input.substring_char(1, n);
    assert(rest@ == s.skip(1));
    let (rest, r) = match hex_primary(rest) {
        Ok(p) => p,
        Err(_) => {
            assert(!hex_pair_at(s, 1)) by {
                if hex_pair_at(s, 1) {
                    assert(hex_pair_at(s.skip(1), 0));
                }
            }
            return Err(HexError { kind: HexErrorKind::TakeWhileMN, offset: 1 });
        },
    };
    assert(hex_pair_at(s, 1) && r == hex_pair_value(s, 1) && rest@ == s.skip(3)) by {
        assert(s.skip(1).skip(2) =~= s.skip(3));
    }
    let (rest, g) = match hex_primary(rest) {
        Ok(p) => p,
        Err(_) => {
            assert(!hex_pair_at(s, 3)) by {
                if hex_pair_at(s, 3) {
                    assert(hex_pair_at(s.skip(3), 0));
                }
            }
            return Err(HexError { kind: HexErrorKind::TakeWhileMN, offset: 3 });
        },
    };
    assert(hex_pair_at(s, 3) && g == hex_pair_value(s, 3) && rest@ == s.skip(5)) by {
        assert(s.skip(3).skip(2) =~= s.skip(5));
    }
    let (rest, b) = match hex_primary(rest) {
        Ok(p) => p,
        Err(_) => {
            assert(!hex_pair_at(s, 5)) by {
                if hex_pair_at(s, 5) {
                    assert(hex_pair_at(s.skip(5), 0));
                }
            }
            return Err(HexError { kind: HexErrorKind::TakeWhileMN, offset: 5 });
        },
    };
    assert(hex_pair_at(s, 5) && b == hex_pair_value(s, 5) && rest@ == s.skip(7)) by {
        assert(s.skip(5).skip(2) =~= s.skip(7));
    }
    let (rest, w) = match hex_primary(rest) {
        Ok(p) => p,
        Err(_) => {
            assert(!hex_pair_at(s, 7)) by {
                if hex_pair_at(s, 7) {
                    assert(hex_pair_at(s.skip(7), 0));
                }
            }
            return Err(HexError { kind: HexErrorKind::TakeWhileMN, offset: 7 });
        },
    };
    assert(hex_pair_at(s, 7) && w == hex_pair_value(s, 7) && rest@ == s.skip(9)) by {
        assert(s.skip(7).skip(2) =~= s.skip(9));
    }
    Ok((rest, (r, g, b, w).into()))
}

/// The lowercase hexadecimal digit for `v`, which lies in `0..16`.
pub open spec fn hex_digit_char(v: int) -> char {
    if v < 10 {
        (v + '0' as int) as char
    } else {
        (v - 10 + 'a' as int) as char
    }
}

/// The two lowercase hexadecimal digits that write byte `b`.
pub open spec fn byte_text(b: u8) -> Seq<char> {
    seq![hex_digit_char(b as int / 16), hex_digit_char(b as int % 16)]
}

/// A colour written `#rrggbbww`.
pub open spec fn rgbw_text(c: Color) -> Seq<char> {
    seq!['#'] + byte_text(c.r) + byte_text(c.g) + byte_text(c.b) + byte_text(c.w)
}

pub(crate) proof fn lemma_hex_digit_char(v: int)
    requires
        0 <= v < 16,
    ensures
        is_hex_char(hex_digit_char(v)),
        hex_char_value(hex_digit_char(v)) == v,
{
    if v < 10 {
        assert((v + '0' as int) as char as int == v + '0' as int);
    } else {
        assert((v - 10 + 'a' as int) as char as int == v - 10 + 'a' as int);
    }
}

proof fn lemma_byte_text(s: Seq<char>, i: int, b: u8)
    requires
        0 <= i,
        i + 2 <= s.len(),
        s.subrange(i, i + 2) == byte_text(b),
    ensures
        hex_pair_at(s, i),
        hex_pair_value(s, i) == b,
{
    assert(s[i] == s.subrange(i, i + 2)[0]);
    assert(s[i + 1] == s.subrange(i, i + 2)[1]);
    lemma_hex_digit_char(b as int / 16);
    lemma_hex_digit_char(b as int % 16);
}

/// Reading the written form of a colour gives back that colour, and the text
/// that follows it is left for later.
pub proof fn lemma_read_written_color(c: Color, rest: Seq<char>)
    ensures
        parse_rgbw(rgbw_text(c) + rest) == Ok::<(Seq<char>, Color), HexError>((rest, c)),
{
    let s = rgbw_text(c) + rest;
    assert(s.len() == 9 + rest.len());
    assert(s[0] == '#');
    assert(s.subrange(1, 3) =~= byte_text(c.r));
    assert(s.subrange(3, 5) =~= byte_text(c.g));
    assert(s.subrange(5, 7) =~= byte_text(c.b));
    assert(s.subrange(7, 9) =~= byte_text(c.w));
    lemma_byte_text(s, 1, c.r);
    lemma_byte_text(s, 3, c.g);
    lemma_byte_text(s, 5, c.b);
    lemma_byte_text(s, 7, c.w);
    assert(s.skip(9) =~= rest);
}

/// The hexadecimal digits are `0-9`, `a-f` and `A-F`, and a letter means the same
/// in either case: `a` and `A` are 10, up to `f` and `F`, which are 15.
pub proof fn lemma_hex_digits(c: char)
    ensures
        is_hex_char(c) <==> ('0' <= c <= '9' || 'a' <= c <= 'f' || 'A' <= c <= 'F'),
        '0' <= c <= '9' ==> hex_char_value(c) == c as int - '0' as int,
        'a' <= c <= 'f' ==> hex_char_value(c) == c as int - 'a' as int + 10,
        'A' <= c <= 'F' ==> hex_char_value(c) == c as int - 'A' as int + 10,
        is_hex_char(c) ==> 0 <= hex_char_value(c) < 16,
{
}

/// Every text made of `#` and four pairs of hexadecimal digits, of either case,
/// is read: each channel is the byte that its pair writes (first digit times 16
/// plus the second), and the text after the ninth character is left over.
pub proof fn lemma_read_any_case(s: Seq<char>)
    requires
        s.len() >= 9,
        s[0] == '#',
        forall|i: int| 1 <= i < 9 ==> is_hex_char(#[trigger] s[i]),
    ensures
        parse_rgbw(s) == Ok::<(Seq<char>, Color), HexError>(
            (
                s.skip(9),
                Color {
                    r: hex_pair_value(s, 1),
                    g: hex_pair_value(s, 3),
                    b: hex_pair_value(s, 5),
                    w: hex_pair_value(s, 7),
                },
            ),
        ),
        hex_pair_value(s, 1) == hex_char_value(s[1]) * 16 + hex_char_value(s[2]),
        hex_pair_value(s, 3) == hex_char_value(s[3]) * 16 + hex_char_value(s[4]),
        hex_pair_value(s, 5) == hex_char_value(s[5]) * 16 + hex_char_value(s[6]),
        hex_pair_value(s, 7) == hex_char_value(s[7]) * 16 + hex_char_value(s[8]),
{
    assert(is_hex_char(s[1]) && is_hex_char(s[2]) && is_hex_char(s[3]) && is_hex_char(s[4]));
    assert(is_hex_char(s[5]) && is_hex_char(s[6]) && is_hex_char(s[7]) && is_hex_char(s[8]));
}

/// `s` has hexadecimal digits at all positions in `from..to`.
pub open spec fn hex_run(s: Seq<char>, from: int, to: int) -> bool {
    to <= s.len() && forall|i: int| from <= i < to ==> is_hex_char(#[trigger] s[i])
}

/// A text that does not start with `#` is refused at its first character; one
/// that does is refused at the first of the four channels, `k`, whose two
/// characters are not both hexadecimal digits (or are missing), after the `1 + 2k`
/// characters before that channel were read.
pub proof fn lemma_read_failure(s: Seq<char>, k: int)
    requires
        0 <= k < 4,
    ensures
        (s.len() == 0 || s[0] != '#') ==> parse_rgbw(s) == Err::<(Seq<char>, Color), HexError>(
            HexError { kind: HexErrorKind::Tag, offset: 0 },
        ),
        (s.len() > 0 && s[0] == '#' && hex_run(s, 1, 1 + 2 * k) && !hex_run(s, 1 + 2 * k, 3 + 2 * k))
            ==> parse_rgbw(s) == Err::<(Seq<char>, Color), HexError>(
            HexError { kind: HexErrorKind::TakeWhileMN, offset: (1 + 2 * k) as usize },
        ),
{
    if s.len() > 0 && s[0] == '#' && hex_run(s, 1, 1 + 2 * k) && !hex_run(s, 1 + 2 * k, 3 + 2 * k) {
        if k >= 1 {
            assert(is_hex_char(s[1]) && is_hex_char(s[2]));
            assert(hex_pair_at(s, 1));
        }
        if k >= 2 {
            assert(is_hex_char(s[3]) && is_hex_char(s[4]));
            assert(hex_pair_at(s, 3));
        }
        if k >= 3 {
            assert(is_hex_char(s[5]) && is_hex_char(s[6]));
            assert(hex_pair_at(s, 5));
        }
        assert(!hex_pair_at(s, 1 + 2 * k)) by {
            if hex_pair_at(s, 1 + 2 * k) {
                assert forall|i: int| 1 + 2 * k <= i < 3 + 2 * k implies is_hex_char(
                    #[trigger] s[i],
                ) by {
                    if i == 1 + 2 * k {
                    } else {
                        assert(i == 2 + 2 * k);
                    }
                }
            }
        }
    }
}

} // verus!
