//! Common embed colors and the hexadecimal color reader.
use vstd::arithmetic::div_mod::{lemma_add_mod_noop, lemma_mul_mod_noop_left};
use vstd::prelude::*;
use vstd::string::*;

verus! {

/// A character that the color reader counts as a digit: `0`-`9` or `A`-`F`.
pub open spec fn is_hex_digit(c: char) -> bool {
    ('0' <= c && c <= '9') || ('A' <= c && c <= 'F')
}

/// The value of a digit character in base 16.
pub open spec fn hex_digit_value(c: char) -> int {
    if '0' <= c && c <= '9' {
        (c as int) - ('0' as int)
    } else {
        (c as int) - ('A' as int) + 10
    }
}

/// The digits of `s` in order, every other character left out.
pub open spec fn hex_digits_of(s: Seq<char>) -> Seq<char> {
    s.filter(|c: char| is_hex_digit(c))
}

/// The positional base-16 value of a string of digits.
pub open spec fn hex_value(t: Seq<char>) -> int
    decreases t.len(),
{
    if t.len() == 0 {
        0
    } else {
        hex_value(t.drop_last()) * 16 + hex_digit_value(t.last())
    }
}

/// `v` taken modulo 2^32 and read as a two's-complement 32-bit integer.
pub open spec fn wrap_i32(v: int) -> int {
    let m = v % 0x1_0000_0000;
    if m < 0x8000_0000 {
        m
    } else {
        m - 0x1_0000_0000
    }
}

/// The color that `from_hex` reads from `s`.
pub open spec fn color_of_hex(s: Seq<char>) -> int {
    wrap_i32(hex_value(hex_digits_of(s)))
}

/// A string of digits has a non-negative value.
pub proof fn lemma_hex_value_nonneg(t: Seq<char>)
    requires
        forall|i: int| 0 <= i < t.len() ==> is_hex_digit(#[trigger] t[i]),
    ensures
        hex_value(t) >= 0,
    decreases t.len(),
{
    if t.len() > 0 {
        lemma_hex_value_nonneg(t.drop_last());
    }
}

/// Leaving out the non-digits of a string of digits leaves it as it is.
pub proof fn lemma_hex_digits_of_digits(s: Seq<char>)
    requires
        forall|i: int| 0 <= i < s.len() ==> is_hex_digit(#[trigger] s[i]),
    ensures
        hex_digits_of(s) == s,
    decreases s.len(),
{
    reveal(Seq::filter);
    if s.len() > 0 {
        lemma_hex_digits_of_digits(s.drop_last());
        assert(s.drop_last().push(s.last()) =~= s);
    }
}

/// On a string of digits `0`-`9` and `A`-`F` alone whose value fits in an
/// `i32`, `from_hex` gives the ordinary base-16 value of the string.
pub proof fn lemma_from_hex_of_digits(s: Seq<char>)
    requires
        forall|i: int| 0 <= i < s.len() ==> is_hex_digit(#[trigger] s[i]),
        hex_value(s) <= i32::MAX,
    ensures
        color_of_hex(s) == hex_value(s),
{
    lemma_hex_digits_of_digits(s);
    lemma_hex_value_nonneg(s);
}

/// The empty string reads as color 0.
pub proof fn lemma_from_hex_empty()
    ensures
        color_of_hex(Seq::<char>::empty()) == 0,
{
    reveal(Seq::filter);
}

/// Named embed colors, as 24-bit RGB values.
pub struct Color;

impl Color {
    pub const DEFAULT: i32 = 0;
    pub const AQUA: i32 = 1752220;
    pub const DARK_AQUA: i32 = 1146986;
    pub const GREEN: i32 = 5763719;
    pub const DARK_GREEN: i32 = 2067276;
    pub const BLUE: i32 = 3447003;
    pub const DARK_BLUE: i32 = 2123412;
    pub const PURPLE: i32 = 10181046;
    pub const DARK_PURPLE: i32 = 7419530;
    pub const PINK: i32 = 15277667;
    pub const DARK_PINK: i32 = 11342935;
    pub const GOLD: i32 = 15844367;
    pub const DARK_GOLD: i32 = 12745742;
    pub const ORANGE: i32 = 15105570;
    pub const DARK_ORANGE: i32 = 11027200;
    pub const RED: i32 = 15548997;
    pub const DARK_RED: i32 = 10038562;
    pub const GREY: i32 = 9807270;
    pub const DARK_GREY: i32 = 9936031;
    pub const DARKER_GREY: i32 = 8359053;
    pub const LIGHT_GREY: i32 = 12370112;
    pub const NAVY: i32 = 3426654;
    pub const DARK_NAVY: i32 = 2899536;
    pub const YELLOW: i32 = 16776960;

    /// Reads a color written in hexadecimal, most significant digit first.
    ///
    /// Only `0`-`9` and `A`-`F` are digits. Any other character, lowercase
    /// letters included, is passed over and takes no digit position. The
    /// value is reduced modulo 2^32 and read as an `i32`; it never fails.
    pub fn from_hex(hex_val: &str) -> (r: i32)
        ensures
            r as int == color_of_hex(hex_val@),
    {
        let len: usize = hex_val.unicode_len();
        let mut acc: u64 = 0;
        let mut i: usize = 0;
        while i < len
            invariant
                len == hex_val@.len(),
                i <= len,
                acc < 0x1_0000_0000,
                acc as int == hex_value(hex_digits_of(hex_val@.subrange(0, i as int)))
                    % 0x1_0000_0000,
            decreases len - i,
        {
            let c: char = hex_val.get_char(i);
            let ghost prefix = hex_val@.subrange(0, i as int);
            let ghost next = hex_val@.subrange(0, i + 1);
            assert(next.drop_last() =~= prefix);
            assert(next.last() == c);
            proof {
                reveal(Seq::filter);
            }
            if ('0' <= c && c <= '9') || ('A' <= c && c <= 'F') {
                let d: u64 = if c <= '9' {
                    (c as u64) - ('0' as u64)
                } else {
                    (c as u64) - ('A' as u64) + 10
                };
                proof {
                    let v = hex_value(hex_digits_of(prefix));
                    let m: int = 0x1_0000_0000;
                    assert(hex_digits_of(next) == hex_digits_of(prefix).push(c));
                    assert(hex_digits_of(prefix).push(c).drop_last() =~= hex_digits_of(prefix));
                    lemma_mul_mod_noop_left(v, 16, m);
                    lemma_add_mod_noop((v % m) * 16, d as int, m);
                    lemma_add_mod_noop(v * 16, d as int, m);
                }
                acc = (acc * 16 + d) % 0x1_0000_0000;
            } else {
                assert(hex_digits_of(next) == hex_digits_of(prefix));
            }
            i = i + 1;
        }
        assert(hex_val@.subrange(0, len as int) =~= hex_val@);
        if acc < 0x8000_0000 {
            acc as i32
        } else {
            (acc as i64 - 0x1_0000_0000) as i32
        }
    }
}

} // verus!
