//! Hex color parsing.
//!
//! A color token is `#RRGGBB` or `#RRGGBBAA` (any number of leading `#`
//! characters is stripped). Each channel is a pair of hex digits; a pair
//! may also carry a plus sign before a single digit, as integer parsing
//! accepts one. A malformed color pair reads as zero, while a malformed
//! or missing alpha pair reads as fully opaque.

use vstd::prelude::*;

verus! {

/// A color split into its four channels.
#[derive(Clone, Copy, Debug, PartialEq, Eq, Structural)]
pub struct Rgba {
    pub red: u8,
    pub green: u8,
    pub blue: u8,
    pub alpha: u8,
}

/// The value of one hex digit, or `None` for any other character.
pub open spec fn hex_val(c: char) -> Option<int> {
    if c == '0' {
        Some(0)
    } else if c == '1' {
        Some(1)
    } else if c == '2' {
        Some(2)
    } else if c == '3' {
        Some(3)
    } else if c == '4' {
        Some(4)
    } else if c == '5' {
        Some(5)
    } else if c == '6' {
        Some(6)
    } else if c == '7' {
        Some(7)
    } else if c == '8' {
        Some(8)
    } else if c == '9' {
        Some(9)
    } else if c == 'a' || c == 'A' {
        Some(10)
    } else if c == 'b' || c == 'B' {
        Some(11)
    } else if c == 'c' || c == 'C' {
        Some(12)
    } else if c == 'd' || c == 'D' {
        Some(13)
    } else if c == 'e' || c == 'E' {
        Some(14)
    } else if c == 'f' || c == 'F' {
        Some(15)
    } else {
        None
    }
}

/// The value of a channel pair, when it is well formed: two hex digits,
/// or a plus sign before one hex digit.
pub open spec fn pair_val(c1: char, c2: char) -> Option<int> {
    if c1 == '+' && hex_val(c2) is Some {
        Some(hex_val(c2)->0)
    } else if hex_val(c1) is Some && hex_val(c2) is Some {
        Some(16 * hex_val(c1)->0 + hex_val(c2)->0)
    } else {
        None
    }
}

/// The value of a color channel pair; zero when the pair is malformed.
pub open spec fn hex_pair(c1: char, c2: char) -> int {
    if pair_val(c1, c2) is Some {
        pair_val(c1, c2)->0
    } else {
        0
    }
}

/// The value of an alpha pair; fully opaque when the pair is malformed.
pub open spec fn alpha_pair(c1: char, c2: char) -> int {
    if pair_val(c1, c2) is Some {
        pair_val(c1, c2)->0
    } else {
        255
    }
}

/// `s` with every leading `#` removed.
pub open spec fn trim_hash(s: Seq<char>) -> Seq<char>
    decreases s.len(),
{
    if s.len() > 0 && s[0] == '#' {
        trim_hash(s.drop_first())
    } else {
        s
    }
}

proof fn lemma_trim_hash_at(s: Seq<char>, i: int)
    requires
        0 <= i <= s.len(),
        forall|k: int| 0 <= k < i ==> s[k] == '#',
        i < s.len() ==> s[i] != '#',
    ensures
        trim_hash(s) == s.subrange(i, s.len() as int),
    decreases i,
{
    if i == 0 {
        assert(trim_hash(s) =~= s.subrange(0, s.len() as int));
    } else {
        assert(forall|k: int| 0 <= k < i - 1 ==> #[trigger] s.drop_first()[k] == s[k + 1]);
        if i < s.len() {
            assert(s.drop_first()[i - 1] == s[i]);
        }
        lemma_trim_hash_at(s.drop_first(), i - 1);
        assert(s.drop_first().subrange(i - 1, s.drop_first().len() as int) =~= s.subrange(
            i,
            s.len() as int,
        ));
    }
}

/// The value of one hex digit, or `None` for any other character.
fn hex_digit(c: char) -> (r: Option<u8>)
    ensures
        r is Some <==> hex_val(c) is Some,
        r is Some ==> r->0 as int == hex_val(c)->0,
{
    match c {
        '0' => Some(0),
        '1' => Some(1),
        '2' => Some(2),
        '3' => Some(3),
        '4' => Some(4),
        '5' => Some(5),
        '6' => Some(6),
        '7' => Some(7),
        '8' => Some(8),
        '9' => Some(9),
        'a' | 'A' => Some(10),
        'b' | 'B' => Some(11),
        'c' | 'C' => Some(12),
        'd' | 'D' => Some(13),
        'e' | 'E' => Some(14),
        'f' | 'F' => Some(15),
        _ => None,
    }
}

/// The value of a well-formed pair.
fn pair_digits(c1: char, c2: char) -> (v: Option<u8>)
    ensures
        v is Some <==> pair_val(c1, c2) is Some,
        v is Some ==> v->0 as int == pair_val(c1, c2)->0,
{
    match (hex_digit(c1), hex_digit(c2)) {
        (Some(h), Some(l)) => Some(16 * h + l),
        (None, Some(l)) => if c1 == '+' {
            Some(l)
        } else {
            None
        },
        _ => None,
    }
}

/// The value of a color channel pair, zero when malformed.
fn hex_pair_val(c1: char, c2: char) -> (v: u8)
    ensures
        v as int == hex_pair(c1, c2),
{
    match pair_digits(c1, c2) {
        Some(v) => v,
        None => 0,
    }
}

/// The value of an alpha pair, fully opaque when malformed.
fn alpha_pair_val(c1: char, c2: char) -> (v: u8)
    ensures
        v as int == alpha_pair(c1, c2),
{
    match pair_digits(c1, c2) {
        Some(v) => v,
        None => 255,
    }
}

/// Reads a `#RRGGBB` or `#RRGGBBAA` color token into its channels. The
/// token must still hold six characters once the leading `#` characters
/// are stripped; an alpha pair is read only when eight are left, and a
/// malformed alpha pair keeps the color opaque.
pub fn parse_hex_color(hex: &str) -> (r: Rgba)
    requires
        trim_hash(hex@).len() >= 6,
    ensures
        ({
            let t = trim_hash(hex@);
            r.red as int == hex_pair(t[0], t[1]) && r.green as int == hex_pair(t[2], t[3])
                && r.blue as int == hex_pair(t[4], t[5]) && r.alpha as int == (
            if t.len() >= 8 {
                alpha_pair(t[6], t[7])
            } else {
                255
            })
        }),
{
    let n = hex.unicode_len();
    let mut i: usize = 0;
    while i < n && hex.get_char(i) == '#'
        invariant
            i <= n,
            n == hex@.len(),
            forall|k: int| 0 <= k < i ==> hex@[k] == '#',
        decreases n - i,
    {
        i += 1;
    }
    proof {
        lemma_trim_hash_at(hex@, i as int);
    }
    let red = hex_pair_val(hex.get_char(i), hex.get_char(i + 1));
    let green = hex_pair_val(hex.get_char(i + 2), hex.get_char(i + 3));
    let blue = hex_pair_val(hex.get_char(i + 4), hex.get_char(i + 5));
    let alpha = if n - i >= 8 {
        alpha_pair_val(hex.get_char(i + 6), hex.get_char(i + 7))
    } else {
        255
    };
    Rgba { red, green, blue, alpha }
}

} // verus!
