use vstd::prelude::*;
use crate::color::Color;
use crate::hex::{
    byte_text, from_hex, hex_digit_char, lemma_hex_digit_char, lemma_two_digits, radix16_u8,
};

verus! {

/// `s` without the `#` characters at its front.
pub open spec fn without_hashes(s: Seq<char>) -> Seq<char>
    decreases s.len(),
{
    if s.len() > 0 && s[0] == '#' {
        without_hashes(s.drop_first())
    } else {
        s
    }
}

/// `s` without the `0x` pairs at its front.
pub open spec fn without_hex_marks(s: Seq<char>) -> Seq<char>
    decreases s.len(),
{
    if s.len() >= 2 && s[0] == '0' && s[1] == 'x' {
        without_hex_marks(s.skip(2))
    } else {
        s
    }
}

/// `c` is an ASCII character that Unicode counts as white space.
pub open spec fn is_ascii_space(c: char) -> bool {
    c == ' ' || c == '\t' || c == '\n' || c == '\x0B' || c == '\x0C' || c == '\r'
}

/// `s` without the white space at its end.
pub open spec fn without_trailing_space(s: Seq<char>) -> Seq<char>
    decreases s.len(),
{
    if s.len() > 0 && is_ascii_space(s.last()) {
        without_trailing_space(s.drop_last())
    } else {
        s
    }
}

/// The digits of `hex` once the leading `#` characters and then the leading `0x`
/// pairs are taken off.
pub open spec fn rgb_digits(hex: Seq<char>) -> Seq<char> {
    without_hex_marks(without_hashes(hex))
}

/// `hexToRgba` reads `hex` without failing: after the marks, six ASCII characters
/// stand, the first two and the next two read as bytes, and so do the last two
/// once trailing white space is taken off.
pub open spec fn rgb_readable(hex: Seq<char>) -> bool {
    let d = rgb_digits(hex);
    &&& d.len() >= 6
    &&& forall|i: int| 0 <= i < 6 ==> (#[trigger] d[i] as u32) < 128
    &&& radix16_u8(d.subrange(0, 2)) is Some
    &&& radix16_u8(d.subrange(2, 4)) is Some
    &&& radix16_u8(without_trailing_space(d.subrange(4, 6))) is Some
}

/// The colour that `hexToRgba` reads from `hex`, with a dark white channel.
pub open spec fn rgb_color(hex: Seq<char>) -> Color {
    let d = rgb_digits(hex);
    Color {
        r: radix16_u8(d.subrange(0, 2))->0,
        g: radix16_u8(d.subrange(2, 4))->0,
        b: radix16_u8(without_trailing_space(d.subrange(4, 6)))->0,
        w: 0,
    }
}

fn trim_hashes(s: &str) -> (res: &str)
    ensures
        res@ == without_hashes(s@),
{
    let n = s.unicode_len();
    let mut i: usize = 0;
    assert(s@.skip(0) =~= s@);
    while i < n && s.get_char(i) == '#'
        invariant
            n == s@.len(),
            i <= n,
            without_hashes(s@) == without_hashes(s@.skip(i as int)),
        decreases n - i,
    {
        assert(s@.skip(i as int).drop_first() =~= s@.skip(i + 1));
        i += 1;
    }
    s.substring_char(i, n)
}

fn trim_hex_marks(s: &str) -> (res: &str)
    ensures
        res@ == without_hex_marks(s@),
{
    let n = s.unicode_len();
    let mut i: usize = 0;
    assert(s@.skip(0) =~= s@);
    while i < n && n - i >= 2 && s.get_char(i) == '0' && s.get_char(i + 1) == 'x'
        invariant
            n == s@.len(),
            i <= n,
            without_hex_marks(s@) == without_hex_marks(s@.skip(i as int)),
        decreases n - i,
    {
        assert(s@.skip(i as int).skip(2) =~= s@.skip(i + 2));
        i += 2;
    }
    s.substring_char(i, n)
}

fn is_space(c: char) -> (res: bool)
    ensures
        res == is_ascii_space(c),
{
    c == ' ' || c == '\t' || c == '\n' || c == '\x0B' || c == '\x0C' || c == '\r'
}

fn trim_trailing_space(s: &str) -> (res: &str)
    ensures
        res@ == without_trailing_space(s@),
{
    let n = s.unicode_len();
    let mut i: usize = n;
    assert(s@.take(n as int) =~= s@);
    while i > 0 && is_space(s.get_char(i - 1))
        invariant
            n == s@.len(),
            i <= n,
            without_trailing_space(s@) == without_trailing_space(s@.take(i as int)),
        decreases i,
    {
        assert(s@.take(i as int).drop_last() =~= s@.take(i - 1));
        i -= 1;
    }
    assert(s@.take(i as int) =~= s@.subrange(0, i as int));
    s.substring_char(0, i)
}

/// Reads a colour written `RRGGBB` after optional `#` and `0x` marks; the white
/// channel is dark.
#[allow(non_snake_case)]
pub fn hexToRgba(hex: &str) -> (res: Color)
    requires
        rgb_readable(hex@),
    ensures
        res == rgb_color(hex@),
        res.w == 0,
{
    let chars = trim_hex_marks(trim_hashes(hex));
    let r = chars.substring_char(0, 2);
    let g = chars.substring_char(2, 4);
    let b = chars.substring_char(4, 6);
    let r = match from_hex(r) {
        Ok(v) => v,
        Err(_) => 0,
    };
    let g = match from_hex(g) {
        Ok(v) => v,
        Err(_) => 0,
    };
    let b = match from_hex(trim_trailing_space(b)) {
        Ok(v) => v,
        Err(_) => 0,
    };
    Color { r, g, b, w: 0 }
}

/// The white channel of what `hexToRgba` reads is always dark.
pub proof fn lemma_rgba_white_dark(hex: Seq<char>)
    ensures
        rgb_color(hex).w == 0,
{
}

proof fn lemma_byte_text_reads(b: u8)
    ensures
        radix16_u8(byte_text(b)) == Some(b),
        byte_text(b)[0] != '#',
        byte_text(b)[0] != 'x' && byte_text(b)[1] != 'x',
        !is_ascii_space(byte_text(b)[1]),
        (byte_text(b)[0] as u32) < 128,
        (byte_text(b)[1] as u32) < 128,
{
    lemma_hex_digit_char(b as int / 16);
    lemma_hex_digit_char(b as int % 16);
    let t = byte_text(b);
    lemma_two_digits(t);
    let d0 = b as int / 16;
    let d1 = b as int % 16;
    if d0 < 10 {
        assert((d0 + '0' as int) as char as int == d0 + '0' as int);
    } else {
        assert((d0 - 10 + 'a' as int) as char as int == d0 - 10 + 'a' as int);
    }
    if d1 < 10 {
        assert((d1 + '0' as int) as char as int == d1 + '0' as int);
    } else {
        assert((d1 - 10 + 'a' as int) as char as int == d1 - 10 + 'a' as int);
    }
}

/// `hexToRgba` reads a colour written `rrggbb` after any number of `#` marks
/// (none included), giving red, green and blue as written and a dark white
/// channel.
pub proof fn lemma_rgba_reads_written(r: u8, g: u8, b: u8, marks: Seq<char>)
    requires
        forall|i: int| 0 <= i < marks.len() ==> #[trigger] marks[i] == '#',
    ensures
        ({
            let text = marks + byte_text(r) + byte_text(g) + byte_text(b);
            &&& rgb_readable(text)
            &&& rgb_color(text) == Color { r, g, b, w: 0 }
        }),
    decreases marks.len(),
{
    let body = byte_text(r) + byte_text(g) + byte_text(b);
    let text = marks + byte_text(r) + byte_text(g) + byte_text(b);
    assert(text =~= marks + body);
    if marks.len() == 0 {
        assert(text =~= body);
        lemma_byte_text_reads(r);
        lemma_byte_text_reads(g);
        lemma_byte_text_reads(b);
        assert(body[0] == byte_text(r)[0]);
        assert(body[1] == byte_text(r)[1]);
        assert(without_hashes(body) == body);
        assert(without_hex_marks(body) == body);
        assert(body.subrange(0, 2) =~= byte_text(r));
        assert(body.subrange(2, 4) =~= byte_text(g));
        assert(body.subrange(4, 6) =~= byte_text(b));
        let t = byte_text(b);
        assert(t.last() == t[1]);
        assert(without_trailing_space(t) == t);
        assert forall|i: int| 0 <= i < 6 implies (#[trigger] body[i] as u32) < 128 by {
            if i < 2 {
                assert(body[i] == byte_text(r)[i]);
            } else if i < 4 {
                assert(body[i] == byte_text(g)[i - 2]);
            } else {
                assert(body[i] == byte_text(b)[i - 4]);
            }
        }
    } else {
        let rest = marks.drop_first();
        assert forall|i: int| 0 <= i < rest.len() implies #[trigger] rest[i] == '#' by {
            assert(rest[i] == marks[i + 1]);
        }
        lemma_rgba_reads_written(r, g, b, rest);
        assert(text[0] == '#');
        assert(text.drop_first() =~= rest + byte_text(r) + byte_text(g) + byte_text(b));
        assert(without_hashes(text) == without_hashes(text.drop_first()));
    }
}

} // verus!
