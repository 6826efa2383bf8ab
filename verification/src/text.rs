//! Text primitives shared by the renderers: upper-case hexadecimal digits,
//! binary digits and padding, each with the sequence of characters it stands
//! for.

use vstd::prelude::*;
use vstd::string::*;

verus! {

/// The upper-case hexadecimal digit of a value below sixteen.
pub open spec fn hex_digit(n: int) -> char
    recommends
        0 <= n < 16,
{
    if n < 10 {
        ('0' as int + n) as char
    } else {
        ('A' as int + (n - 10)) as char
    }
}

/// The lower-case hexadecimal digit of a value below sixteen.
pub open spec fn lower_hex_digit(n: int) -> char
    recommends
        0 <= n < 16,
{
    if n < 10 {
        ('0' as int + n) as char
    } else {
        ('a' as int + (n - 10)) as char
    }
}

/// The two hexadecimal digits of a byte, high nibble first.
pub open spec fn byte_hex(b: u8) -> Seq<char> {
    seq![hex_digit(b as int / 16), hex_digit(b as int % 16)]
}

/// The hexadecimal digits of a number, most significant first, without
/// leading zeros (a single `0` for zero).
pub open spec fn upper_hex(n: nat) -> Seq<char>
    decreases n,
{
    if n < 16 {
        seq![hex_digit(n as int)]
    } else {
        upper_hex(n / 16).push(hex_digit((n % 16) as int))
    }
}

/// The hexadecimal digits of a number in lower case, most significant
/// first, without leading zeros (a single `0` for zero).
pub open spec fn lower_hex(n: nat) -> Seq<char>
    decreases n,
{
    if n < 16 {
        seq![lower_hex_digit(n as int)]
    } else {
        lower_hex(n / 16).push(lower_hex_digit((n % 16) as int))
    }
}

/// `count` copies of one character.
pub open spec fn repeat(c: char, count: nat) -> Seq<char> {
    Seq::new(count, |i: int| c)
}

/// `text` with `fill` put in front of it until it is `width` characters
/// long; a text that is already that long is left as it is.
pub open spec fn pad_left(text: Seq<char>, width: nat, fill: char) -> Seq<char> {
    if text.len() >= width {
        text
    } else {
        repeat(fill, (width - text.len()) as nat) + text
    }
}

/// `text` with `fill` put behind it until it is `width` characters long; a
/// text that is already that long is left as it is.
pub open spec fn pad_right(text: Seq<char>, width: nat, fill: char) -> Seq<char> {
    if text.len() >= width {
        text
    } else {
        text + repeat(fill, (width - text.len()) as nat)
    }
}

/// The digit `1` or `0` that bit `k` of a byte holds (bit 0 is the least
/// significant).
pub open spec fn bit_digit(b: u8, k: u8) -> char {
    if (b >> k) & 1 == 1 {
        '1'
    } else {
        '0'
    }
}

/// The eight binary digits of a byte, most significant first.
pub open spec fn byte_binary(b: u8) -> Seq<char> {
    Seq::new(8, |i: int| bit_digit(b, (7 - i) as u8))
}

/// The texts of `parts` one after the other, with `separator` between each
/// two of them.
pub open spec fn join(parts: Seq<Seq<char>>, separator: Seq<char>) -> Seq<char>
    decreases parts.len(),
{
    if parts.len() == 0 {
        Seq::empty()
    } else if parts.len() == 1 {
        parts[0]
    } else {
        join(parts.drop_last(), separator) + separator + parts.last()
    }
}

/// The hexadecimal digits of each byte, two by two, with a space between the
/// bytes.
pub open spec fn bytes_hex(raw: Seq<u8>) -> Seq<char> {
    join(raw.map_values(|b: u8| byte_hex(b)), seq![' '])
}

/// One more byte adds its two digits to the text of the bytes before it,
/// behind a space where there are bytes before it.
pub proof fn lemma_bytes_hex_push(raw: Seq<u8>, b: u8)
    ensures
        bytes_hex(raw.push(b)) == if raw.len() == 0 {
            byte_hex(b)
        } else {
            bytes_hex(raw) + seq![' '] + byte_hex(b)
        },
{
    let parts = raw.push(b).map_values(|b: u8| byte_hex(b));
    assert(parts.drop_last() =~= raw.map_values(|b: u8| byte_hex(b)));
}

/// Appends one character through `String::push`, which puts the character
/// at the end of the text and leaves what was there unchanged.
#[verifier::external_body]
pub(crate) fn push_char(s: &mut String, c: char)
    ensures
        final(s)@ == old(s)@.push(c),
{
    s.push(c);
}

/// The upper-case hexadecimal digit of a value below sixteen.
pub fn hex_char(n: u8) -> (c: char)
    requires
        n < 16,
    ensures
        c == hex_digit(n as int),
{
    if n < 10 {
        (48u8 + n) as char
    } else {
        (65u8 + (n - 10)) as char
    }
}

/// The lower-case hexadecimal digit of a value below sixteen.
pub fn lower_hex_char(n: u8) -> (c: char)
    requires
        n < 16,
    ensures
        c == lower_hex_digit(n as int),
{
    if n < 10 {
        (48u8 + n) as char
    } else {
        (97u8 + (n - 10)) as char
    }
}

/// Appends the two hexadecimal digits of a byte.
pub fn push_byte_hex(s: &mut String, b: u8)
    ensures
        final(s)@ == old(s)@ + byte_hex(b),
{
    push_char(s, hex_char(b / 16));
    push_char(s, hex_char(b % 16));
}

/// Appends the hexadecimal digits of each byte, with a space between the
/// bytes.
pub fn push_bytes_hex(s: &mut String, raw: &[u8])
    ensures
        final(s)@ == old(s)@ + bytes_hex(raw@),
{
    let mut i: usize = 0;
    while i < raw.len()
        invariant
            i <= raw.len(),
            s@ == old(s)@ + bytes_hex(raw@.take(i as int)),
        decreases raw.len() - i,
    {
        if i > 0 {
            push_char(s, ' ');
        }
        push_byte_hex(s, raw[i]);
        proof {
            lemma_bytes_hex_push(raw@.take(i as int), raw[i as int]);
            assert(raw@.take(i as int).push(raw[i as int]) =~= raw@.take(i + 1));
        }
        i += 1;
    }
    proof {
        assert(raw@.take(i as int) =~= raw@);
    }
}

/// Appends the hexadecimal digits of a number, without leading zeros.
pub fn push_upper_hex(s: &mut String, n: usize)
    ensures
        final(s)@ == old(s)@ + upper_hex(n as nat),
    decreases n,
{
    if n >= 16 {
        push_upper_hex(s, n / 16);
    }
    push_char(s, hex_char((n % 16) as u8));
}

/// Appends the hexadecimal digits of a number in lower case, without
/// leading zeros.
pub fn push_lower_hex(s: &mut String, n: usize)
    ensures
        final(s)@ == old(s)@ + lower_hex(n as nat),
    decreases n,
{
    if n >= 16 {
        push_lower_hex(s, n / 16);
    }
    push_char(s, lower_hex_char((n % 16) as u8));
}

/// Appends `count` copies of one character.
pub fn push_repeat(s: &mut String, c: char, count: usize)
    ensures
        final(s)@ == old(s)@ + repeat(c, count as nat),
{
    let mut done: usize = 0;
    while done < count
        invariant
            done <= count,
            s@ == old(s)@ + repeat(c, done as nat),
        decreases count - done,
    {
        push_char(s, c);
        done += 1;
    }
}

/// Appends the hexadecimal digits of a number, with zeros in front of them
/// where there are fewer than `width`.
pub fn push_padded_hex(s: &mut String, n: usize, width: usize)
    ensures
        final(s)@ == old(s)@ + pad_left(upper_hex(n as nat), width as nat, '0'),
{
    let mut digits = String::new();
    push_upper_hex(&mut digits, n);
    let len = digits.as_str().unicode_len();
    if len < width {
        push_repeat(s, '0', width - len);
    }
    s.append(digits.as_str());
}

/// Appends a text, then spaces where it is shorter than `width` characters.
pub fn push_left_aligned(s: &mut String, text: &str, width: usize)
    ensures
        final(s)@ == old(s)@ + pad_right(text@, width as nat, ' '),
{
    let len = text.unicode_len();
    s.append(text);
    if len < width {
        push_repeat(s, ' ', width - len);
    }
}

/// Appends the eight binary digits of a byte.
pub fn push_byte_binary(s: &mut String, b: u8)
    ensures
        final(s)@ == old(s)@ + byte_binary(b),
{
    let mut i: u8 = 0;
    while i < 8
        invariant
            i <= 8,
            s@ == old(s)@ + Seq::new(i as nat, |j: int| bit_digit(b, (7 - j) as u8)),
        decreases 8 - i,
    {
        let k: u8 = 7 - i;
        let digit = if (b >> k) & 1 == 1 {
            '1'
        } else {
            '0'
        };
        push_char(s, digit);
        i += 1;
    }
}

} // verus!
