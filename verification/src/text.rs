//! Character-level building blocks: prefixes, joining, decimal numerals,
//! whitespace trimming and splitting, all stated over `Seq<char>`.

use vstd::prelude::*;
use crate::std_text::unicode_white_space;

verus! {

/// The first `n` characters of `s`, or all of `s` when it is shorter.
pub open spec fn first_chars(s: Seq<char>, n: nat) -> Seq<char> {
    if s.len() <= n {
        s
    } else {
        s.take(n as int)
    }
}

/// Copies at most the first `n` characters of `s`.
pub fn take_chars(s: &str, n: usize) -> (out: String)
    ensures
        out@ == first_chars(s@, n as nat),
{
    let mut out = String::new();
    let mut taken: usize = 0;
    for c in it: s.chars()
        invariant
            it.seq() == s@,
            taken <= n,
            taken <= it.index(),
            taken == it.index() || taken == n,
            taken < n ==> taken == it.index(),
            out@ == s@.take(taken as int),
    {
        if taken < n {
            proof {
                assert(s@.take(taken + 1) == s@.take(taken as int).push(c));
            }
            out.push(c);
            taken = taken + 1;
        }
    }
    proof {
        if s@.len() <= n {
            assert(s@.take(s@.len() as int) == s@);
        }
    }
    out
}


/// The character views of a sequence of strings.
pub open spec fn views(v: Seq<String>) -> Seq<Seq<char>> {
    v.map_values(|w: String| w@)
}

/// The decimal digit for `d` (taken below ten).
pub open spec fn digit_char(d: nat) -> char {
    seq!['0', '1', '2', '3', '4', '5', '6', '7', '8', '9'][d as int]
}

/// The decimal numeral of `n`, without sign or leading zeros.
pub open spec fn decimal(n: nat) -> Seq<char>
    decreases n,
{
    if n < 10 {
        seq![digit_char(n)]
    } else {
        decimal(n / 10).push(digit_char(n % 10))
    }
}

/// The number that a sequence of decimal digits denotes.
pub open spec fn digits_value(s: Seq<char>) -> int
    decreases s.len(),
{
    if s.len() == 0 {
        0
    } else {
        digits_value(s.drop_last()) * 10 + (s.last() as int - '0' as int)
    }
}

proof fn lemma_digit_char(d: nat)
    requires
        d < 10,
    ensures
        digit_char(d) as int - '0' as int == d,
{
    let digits = seq!['0', '1', '2', '3', '4', '5', '6', '7', '8', '9'];
    assert(digits[0] == '0' && digits[1] == '1' && digits[2] == '2' && digits[3] == '3');
    assert(digits[4] == '4' && digits[5] == '5' && digits[6] == '6' && digits[7] == '7');
    assert(digits[8] == '8' && digits[9] == '9');
}

/// A numeral reads back as the number it was written for.
pub proof fn lemma_decimal_value(n: nat)
    ensures
        digits_value(decimal(n)) == n,
        decimal(n).len() > 0,
    decreases n,
{
    lemma_digit_char(n % 10);
    if n >= 10 {
        lemma_decimal_value(n / 10);
        assert(decimal(n).drop_last() == decimal(n / 10));
        assert(n == (n / 10) * 10 + n % 10);
    } else {
        assert(n % 10 == n);
        assert(decimal(n).drop_last() == Seq::<char>::empty());
        assert(digits_value(Seq::<char>::empty()) == 0);
    }
}

/// Distinct numbers have distinct numerals.
pub proof fn lemma_decimal_injective(a: nat, b: nat)
    ensures
        decimal(a) == decimal(b) ==> a == b,
{
    lemma_decimal_value(a);
    lemma_decimal_value(b);
}

fn digit(d: u64) -> (c: char)
    requires
        d < 10,
    ensures
        c == digit_char(d as nat),
{
    if d == 0 {
        '0'
    } else if d == 1 {
        '1'
    } else if d == 2 {
        '2'
    } else if d == 3 {
        '3'
    } else if d == 4 {
        '4'
    } else if d == 5 {
        '5'
    } else if d == 6 {
        '6'
    } else if d == 7 {
        '7'
    } else if d == 8 {
        '8'
    } else {
        '9'
    }
}

/// Appends the decimal numeral of `n` to `out`.
pub fn push_decimal(out: &mut String, n: u64)
    ensures
        final(out)@ == old(out)@ + decimal(n as nat),
    decreases n,
{
    if n >= 10 {
        push_decimal(out, n / 10);
    }
    out.push(digit(n % 10));
    proof {
        if n >= 10 {
            assert(decimal(n as nat) == decimal((n / 10) as nat).push(digit_char((n % 10) as nat)));
        }
    }
}

/// The decimal numeral of `n`.
pub fn decimal_string(n: u64) -> (out: String)
    ensures
        out@ == decimal(n as nat),
{
    let mut out = String::new();
    push_decimal(&mut out, n);
    assert(out@ == Seq::<char>::empty() + decimal(n as nat));
    out
}

/// `count` zero digits.
pub open spec fn zeros(count: nat) -> Seq<char> {
    Seq::new(count, |i: int| '0')
}

/// The decimal numeral of `n`, with zeros in front to make it at least
/// `width` characters long.
pub open spec fn padded_decimal(n: nat, width: nat) -> Seq<char> {
    if decimal(n).len() >= width {
        decimal(n)
    } else {
        zeros((width - decimal(n).len()) as nat) + decimal(n)
    }
}

proof fn lemma_decimal_len_bound(n: nat)
    ensures
        decimal(n).len() <= n + 1,
    decreases n,
{
    if n >= 10 {
        lemma_decimal_len_bound(n / 10);
    }
}

/// How many digits the numeral of `n` has.
pub fn decimal_len(n: u64) -> (len: u64)
    ensures
        len == decimal(n as nat).len(),
    decreases n,
{
    if n < 10 {
        1
    } else {
        let rest = decimal_len(n / 10);
        proof {
            lemma_decimal_len_bound((n / 10) as nat);
        }
        rest + 1
    }
}

/// Appends the numeral of `n`, padded with zeros to `width` characters.
pub fn push_padded_decimal(out: &mut String, n: u64, width: usize)
    ensures
        final(out)@ == old(out)@ + padded_decimal(n as nat, width as nat),
{
    let len: u64 = decimal_len(n);
    if len < width as u64 {
        let len: usize = len as usize;
        let mut i: usize = 0;
        while i < width - len
            invariant
                len < width,
                i <= width - len,
                out@ == old(out)@ + zeros(i as nat),
            decreases width - len - i,
        {
            out.push('0');
            i = i + 1;
            assert(zeros(i as nat) == zeros((i - 1) as nat).push('0'));
        }
    }
    let ghost before = out@;
    push_decimal(out, n);
    assert(out@ == before + decimal(n as nat));
    if len >= width as u64 {
        assert(out@ == old(out)@ + padded_decimal(n as nat, width as nat));
    } else {
        assert(out@ == old(out)@ + (zeros((width - len) as nat) + decimal(n as nat)));
    }
}

/// `words` joined into one sequence with `sep` between neighbours.
pub open spec fn join_with(words: Seq<Seq<char>>, sep: Seq<char>) -> Seq<char>
    decreases words.len(),
{
    if words.len() == 0 {
        Seq::empty()
    } else if words.len() == 1 {
        words[0]
    } else {
        join_with(words.drop_last(), sep) + sep + words.last()
    }
}

/// Joins `words` with `sep` between neighbours.
pub fn join_strings(words: &Vec<String>, sep: &str) -> (out: String)
    ensures
        out@ == join_with(views(words@), sep@),
{
    let mut out = String::new();
    let ghost all = views(words@);
    for i in 0..words.len()
        invariant
            all == views(words@),
            out@ == join_with(all.take(i as int), sep@),
    {
        proof {
            assert(all.take(i + 1).drop_last() == all.take(i as int));
            assert(all.take(i + 1).last() == words@[i as int]@);
        }
        if i > 0 {
            out.append(sep);
        }
        out.append(words[i].as_str());
        proof {
            if i == 0 {
                assert(out@ == Seq::<char>::empty() + words@[0]@);
                assert(all.take(1)[0] == words@[0]@);
            }
        }
    }
    proof {
        assert(all.take(words@.len() as int) == all);
    }
    out
}

/// `s` without its trailing Unicode whitespace.
pub open spec fn trim_end_of(s: Seq<char>) -> Seq<char>
    decreases s.len(),
{
    if s.len() == 0 {
        s
    } else if unicode_white_space(s.last()) {
        trim_end_of(s.drop_last())
    } else {
        s
    }
}

/// Trimming only cuts a whitespace tail: the trimmed text is a prefix of
/// `s`, everything cut from the end is whitespace, and the trimmed text is
/// empty or ends in a character that is not whitespace. Inner line breaks
/// and all other inner characters stay as they are.
pub proof fn lemma_trim_end_cuts_whitespace_tail(s: Seq<char>)
    ensures
        trim_end_of(s).len() <= s.len(),
        trim_end_of(s) == s.take(trim_end_of(s).len() as int),
        forall|i: int| trim_end_of(s).len() <= i < s.len() ==> unicode_white_space(#[trigger] s[i]),
        trim_end_of(s).len() == 0 || !unicode_white_space(trim_end_of(s).last()),
    decreases s.len(),
{
    if s.len() > 0 {
        if unicode_white_space(s.last()) {
            lemma_trim_end_cuts_whitespace_tail(s.drop_last());
            let t = trim_end_of(s.drop_last());
            assert(s.drop_last().take(t.len() as int) =~= s.take(t.len() as int));
            assert forall|i: int| t.len() <= i < s.len() implies unicode_white_space(#[trigger] s[i]) by {
                if i < s.len() - 1 {
                    assert(s[i] == s.drop_last()[i]);
                }
            }
        } else {
            assert(s.take(s.len() as int) =~= s);
        }
    } else {
        assert(s.take(0) =~= s);
    }
}

/// Removes the trailing Unicode whitespace of `s`.
pub fn trim_end(s: &str) -> (out: String)
    ensures
        out@ == trim_end_of(s@),
{
    let mut out = String::new();
    let mut pending = String::new();
    for c in it: s.chars()
        invariant
            it.seq() == s@,
            out@ == trim_end_of(s@.take(it.index() as int)),
            out@ + pending@ == s@.take(it.index() as int),
    {
        let ghost done = s@.take(it.index() + 1);
        proof {
            assert(done.drop_last() == s@.take(it.index() as int));
            assert(done.last() == c);
        }
        if c.is_whitespace() {
            pending.push(c);
            assert(out@ + pending@ == done);
        } else {
            out.append(pending.as_str());
            out.push(c);
            pending = String::new();
            assert(out@ == done);
            assert(out@ + pending@ == done);
        }
    }
    proof {
        assert(s@.take(s@.len() as int) == s@);
    }
    out
}

/// Whether every character of `s` is Unicode whitespace (so that trimming
/// it leaves nothing).
pub open spec fn is_blank_text(s: Seq<char>) -> bool {
    forall|i: int| 0 <= i < s.len() ==> unicode_white_space(#[trigger] s[i])
}

/// Whether `s` holds nothing but Unicode whitespace.
pub fn is_blank(s: &str) -> (b: bool)
    ensures
        b == is_blank_text(s@),
{
    for c in it: s.chars()
        invariant
            it.seq() == s@,
            forall|j: int| 0 <= j < it.index() ==> unicode_white_space(#[trigger] s@[j]),
    {
        if !c.is_whitespace() {
            return false;
        }
    }
    true
}


/// Scanning `s` for words: the words already ended by whitespace, and the
/// word still being read at the end of `s` (empty when `s` ends in
/// whitespace).
pub open spec fn word_scan(s: Seq<char>) -> (Seq<Seq<char>>, Seq<char>)
    decreases s.len(),
{
    if s.len() == 0 {
        (Seq::empty(), Seq::empty())
    } else {
        let (done, current) = word_scan(s.drop_last());
        if !unicode_white_space(s.last()) {
            (done, current.push(s.last()))
        } else if current.len() > 0 {
            (done.push(current), Seq::empty())
        } else {
            (done, Seq::empty())
        }
    }
}

/// The words of `s`: its maximal runs of characters that are not Unicode
/// whitespace, in order.
pub open spec fn words_of(s: Seq<char>) -> Seq<Seq<char>> {
    let (done, current) = word_scan(s);
    if current.len() > 0 {
        done.push(current)
    } else {
        done
    }
}

/// Splits `s` into its whitespace-separated words.
pub fn split_whitespace(s: &str) -> (words: Vec<String>)
    ensures
        views(words@) == words_of(s@),
{
    let mut words: Vec<String> = Vec::new();
    let mut current = String::new();
    for c in it: s.chars()
        invariant
            it.seq() == s@,
            (views(words@), current@) == word_scan(s@.take(it.index() as int)),
    {
        let ghost done = s@.take(it.index() + 1);
        proof {
            assert(done.drop_last() == s@.take(it.index() as int));
            assert(done.last() == c);
        }
        if !c.is_whitespace() {
            current.push(c);
        } else if !current.as_str().is_empty() {
            let ghost before = words@;
            let word = current;
            current = String::new();
            words.push(word);
            assert(views(words@) == views(before).push(word@));
        }
    }
    proof {
        assert(s@.take(s@.len() as int) == s@);
    }
    if !current.as_str().is_empty() {
        let ghost before = words@;
        words.push(current);
        assert(views(words@) == views(before).push(words@.last()@));
    }
    words
}

} // verus!
