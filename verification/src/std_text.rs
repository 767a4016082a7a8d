//! Contracts for the few standard-library text functions that the library
//! calls and that vstd leaves unspecified.

use vstd::prelude::*;

verus! {

/// Whether `c` has the Unicode `White_Space` property: the 25 code points
/// U+0009 to U+000D, U+0020, U+0085, U+00A0, U+1680, U+2000 to U+200A,
/// U+2028, U+2029, U+202F, U+205F and U+3000.
pub open spec fn unicode_white_space(c: char) -> bool {
    let u = c as u32;
    ||| 0x09 <= u <= 0x0d
    ||| u == 0x20
    ||| u == 0x85
    ||| u == 0xa0
    ||| u == 0x1680
    ||| 0x2000 <= u <= 0x200a
    ||| u == 0x2028
    ||| u == 0x2029
    ||| u == 0x202f
    ||| u == 0x205f
    ||| u == 0x3000
}

/// Whether `c` is an ASCII letter or digit.
pub open spec fn ascii_alphanumeric(c: char) -> bool {
    let u = c as u32;
    ||| 0x30 <= u <= 0x39
    ||| 0x41 <= u <= 0x5a
    ||| 0x61 <= u <= 0x7a
}

/// Whether the character `c`, outside ASCII, is alphabetic or numeric in the
/// Unicode sense, as `char::is_alphanumeric` reports it.
pub uninterp spec fn non_ascii_alphanumeric(c: char) -> bool;

/// Whether `c` is alphabetic or numeric in the Unicode sense: within ASCII,
/// exactly the letters and digits.
pub open spec fn unicode_alphanumeric(c: char) -> bool {
    if (c as u32) < 128 {
        ascii_alphanumeric(c)
    } else {
        non_ascii_alphanumeric(c)
    }
}

/// `c` with an ASCII capital letter replaced by its small letter.
pub open spec fn ascii_lower(c: char) -> char {
    if 0x41 <= (c as u32) <= 0x5a {
        ((c as u32) + 32) as char
    } else {
        c
    }
}

/// Whether every character of `s` is ASCII.
pub open spec fn all_ascii(s: Seq<char>) -> bool {
    forall|i: int| 0 <= i < s.len() ==> (#[trigger] s[i] as u32) < 128
}

/// The lowercase form of a string `s` that holds a character outside ASCII,
/// as `str::to_lowercase` produces it.
pub uninterp spec fn lowercase_beyond_ascii(s: Seq<char>) -> Seq<char>;

/// The lowercase form of `s`: for ASCII text, each capital letter replaced
/// by its small letter.
pub open spec fn unicode_lowercase(s: Seq<char>) -> Seq<char> {
    if all_ascii(s) {
        s.map_values(|c: char| ascii_lower(c))
    } else {
        lowercase_beyond_ascii(s)
    }
}

/// `String::push` appends one character at the end of the string.
pub assume_specification[ String::push ](s: &mut String, ch: char)
    ensures
        final(s)@ == old(s)@.push(ch),
;

/// `char::is_whitespace` answers whether `c` has the Unicode `White_Space`
/// property, whose members `unicode_white_space` lists.
pub assume_specification[ char::is_whitespace ](c: char) -> (b: bool)
    ensures
        b == unicode_white_space(c),
;

/// `char::is_alphanumeric` answers whether `c` is alphabetic or numeric in
/// the Unicode sense: within ASCII exactly the letters and digits; beyond
/// it the tables are left to the name `non_ascii_alphanumeric`.
pub assume_specification[ char::is_alphanumeric ](c: char) -> (b: bool)
    ensures
        b == (if (c as u32) < 128 {
            ascii_alphanumeric(c)
        } else {
            non_ascii_alphanumeric(c)
        }),
;

/// `str::to_lowercase` returns a new string holding the lowercase form of
/// `s`: for ASCII text each capital letter becomes its small letter; for
/// other text (where one character may become several) the result is left
/// to the name `lowercase_beyond_ascii`.
pub assume_specification[ str::to_lowercase ](s: &str) -> (r: String)
    ensures
        r@ == (if all_ascii(s@) {
            s@.map_values(|c: char| ascii_lower(c))
        } else {
            lowercase_beyond_ascii(s@)
        }),
;

} // verus!
