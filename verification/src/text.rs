//! Operations on text: comparison without regard to ASCII case, splitting
//! into words and at a separator, joining, and replacing one character.

use vstd::prelude::*;
use crate::search::{
    first_where,
    lemma_first_where,
    lemma_first_where_absent,
    lemma_first_where_found,
};

verus! {

/// The views of a sequence of string slices.
pub open spec fn views<'a>(list: Seq<&'a str>) -> Seq<Seq<char>> {
    list.map_values(|s: &'a str| s@)
}

/// The view of a string slice that may be missing.
pub open spec fn text_of(s: Option<&str>) -> Option<Seq<char>> {
    match s {
        Some(t) => Some(t@),
        None => None,
    }
}

/// The code point of `c`, with an upper-case ASCII letter taken as its
/// lower-case form.
pub open spec fn ascii_folded(c: char) -> int {
    let n = c as u32 as int;
    if 0x41 <= n <= 0x5A {
        n + 0x20
    } else {
        n
    }
}

/// Two texts are equal when the case of ASCII letters is ignored: they have
/// the same length and agree, character by character, up to that case.
pub open spec fn same_ignoring_ascii_case(a: Seq<char>, b: Seq<char>) -> bool {
    &&& a.len() == b.len()
    &&& forall|i: int| 0 <= i < a.len() ==> ascii_folded(#[trigger] a[i]) == ascii_folded(b[i])
}

/// `c` has the Unicode property White_Space.
pub open spec fn is_whitespace(c: char) -> bool {
    let n = c as u32 as int;
    ||| 0x09 <= n <= 0x0D
    ||| n == 0x20
    ||| n == 0x85
    ||| n == 0xA0
    ||| n == 0x1680
    ||| 0x2000 <= n <= 0x200A
    ||| n == 0x2028
    ||| n == 0x2029
    ||| n == 0x202F
    ||| n == 0x205F
    ||| n == 0x3000
}

/// The predicate that holds of the character `c` alone.
pub open spec fn is_char(c: char) -> spec_fn(char) -> bool {
    |x: char| x == c
}

/// The number of characters at the start of `s` before its first white space.
pub open spec fn word_len(s: Seq<char>) -> nat
    decreases s.len(),
{
    if s.len() == 0 || is_whitespace(s[0]) {
        0
    } else {
        1 + word_len(s.drop_first())
    }
}

/// The words of `s`: its maximal runs of characters that are not white
/// space, in order.
pub open spec fn tokens(s: Seq<char>) -> Seq<Seq<char>>
    decreases s.len(),
{
    if s.len() == 0 {
        Seq::empty()
    } else if is_whitespace(s[0]) {
        tokens(s.drop_first())
    } else {
        proof {
            lemma_word_len_bounds(s);
        }
        seq![s.take(word_len(s) as int)] + tokens(s.skip(word_len(s) as int))
    }
}

/// The pieces of `s` between the occurrences of `sep`. A text without `sep`
/// is one piece, so there is always at least one.
pub open spec fn split_on(s: Seq<char>, sep: char) -> Seq<Seq<char>>
    decreases s.len(),
{
    match first_where(s, is_char(sep)) {
        Some(i) => {
            proof {
                lemma_first_where(s, is_char(sep));
            }
            seq![s.take(i)] + split_on(s.skip(i + 1), sep)
        },
        None => seq![s],
    }
}

/// The texts of `list` in order, with `sep` between each two neighbours.
pub open spec fn joined(list: Seq<Seq<char>>, sep: Seq<char>) -> Seq<char>
    decreases list.len(),
{
    if list.len() == 0 {
        Seq::empty()
    } else if list.len() == 1 {
        list[0]
    } else {
        list[0] + sep + joined(list.drop_first(), sep)
    }
}

/// `s` with its first occurrence of `c` replaced by `with`; `s` itself where
/// `c` does not occur.
pub open spec fn first_replaced(s: Seq<char>, c: char, with: Seq<char>) -> Seq<char> {
    match first_where(s, is_char(c)) {
        Some(i) => s.take(i) + with + s.skip(i + 1),
        None => s,
    }
}

/// A word is no longer than the text it starts, and not empty where the text
/// starts with a character that is not white space.
pub proof fn lemma_word_len_bounds(s: Seq<char>)
    ensures
        word_len(s) <= s.len(),
        s.len() > 0 && !is_whitespace(s[0]) ==> word_len(s) >= 1,
    decreases s.len(),
{
    if s.len() > 0 && !is_whitespace(s[0]) {
        lemma_word_len_bounds(s.drop_first());
    }
}

/// A run of `k` characters without white space that ends the text or is
/// followed by white space is the first word.
pub proof fn lemma_word_len_is(s: Seq<char>, k: int)
    requires
        0 <= k <= s.len(),
        forall|j: int| 0 <= j < k ==> !is_whitespace(#[trigger] s[j]),
        k == s.len() || is_whitespace(s[k]),
    ensures
        word_len(s) == k,
    decreases k,
{
    if k > 0 {
        let t = s.drop_first();
        assert forall|j: int| 0 <= j < k - 1 implies !is_whitespace(#[trigger] t[j]) by {
            assert(t[j] == s[j + 1]);
        }
        lemma_word_len_is(t, k - 1);
    }
}

/// Joining a list with one more text at its end puts the separator before
/// that text, unless the list was empty.
pub proof fn lemma_joined_push(list: Seq<Seq<char>>, sep: Seq<char>, last: Seq<char>)
    ensures
        joined(list.push(last), sep) == if list.len() == 0 {
            last
        } else {
            joined(list, sep) + sep + last
        },
    decreases list.len(),
{
    if list.len() > 0 {
        let rest = list.drop_first();
        assert(list.push(last).drop_first() =~= rest.push(last));
        lemma_joined_push(rest, sep, last);
        assert(list[0] + sep + (joined(rest, sep) + sep + last) =~= list[0] + sep + joined(
            rest,
            sep,
        ) + sep + last);
    }
}

/// The characters of a string slice.
pub fn chars_of(s: &str) -> (v: Vec<char>)
    ensures
        v@ == s@,
{
    let mut v: Vec<char> = Vec::new();
    for c in iter: s.chars()
        invariant
            iter.seq() == s@,
            v@ == iter.seq().take(iter.index() as int),
    {
        v.push(c);
    }
    v
}

/// Whether two characters are equal when the case of ASCII letters is ignored.
pub fn char_eq_ignore_ascii_case(a: char, b: char) -> (r: bool)
    ensures
        r == (ascii_folded(a) == ascii_folded(b)),
{
    let x: u32 = a as u32;
    let y: u32 = b as u32;
    let fx: u32 = if 0x41 <= x && x <= 0x5A { x + 0x20 } else { x };
    let fy: u32 = if 0x41 <= y && y <= 0x5A { y + 0x20 } else { y };
    fx == fy
}

/// Whether a character is white space.
pub fn is_whitespace_char(c: char) -> (r: bool)
    ensures
        r == is_whitespace(c),
{
    let n: u32 = c as u32;
    (0x09 <= n && n <= 0x0D) || n == 0x20 || n == 0x85 || n == 0xA0 || n == 0x1680 || (0x2000 <= n
        && n <= 0x200A) || n == 0x2028 || n == 0x2029 || n == 0x202F || n == 0x205F || n == 0x3000
}

/// Whether two string slices hold the same text.
pub fn str_eq(a: &str, b: &str) -> (r: bool)
    ensures
        r == (a@ == b@),
{
    let x = chars_of(a);
    let y = chars_of(b);
    if x.len() != y.len() {
        return false;
    }
    let mut i: usize = 0;
    while i < x.len()
        invariant
            x@ == a@,
            y@ == b@,
            x.len() == y.len(),
            i <= x.len(),
            forall|j: int| 0 <= j < i ==> x@[j] == y@[j],
        decreases x.len() - i,
    {
        if x[i] != y[i] {
            return false;
        }
        i += 1;
    }
    assert(x@ =~= y@);
    true
}

/// Whether two string slices hold the same text when the case of ASCII
/// letters is ignored.
pub fn eq_ignore_ascii_case(a: &str, b: &str) -> (r: bool)
    ensures
        r == same_ignoring_ascii_case(a@, b@),
{
    let x = chars_of(a);
    let y = chars_of(b);
    if x.len() != y.len() {
        return false;
    }
    let mut i: usize = 0;
    while i < x.len()
        invariant
            x@ == a@,
            y@ == b@,
            x.len() == y.len(),
            i <= x.len(),
            forall|j: int| 0 <= j < i ==> ascii_folded(#[trigger] x@[j]) == ascii_folded(y@[j]),
        decreases x.len() - i,
    {
        if !char_eq_ignore_ascii_case(x[i], y[i]) {
            return false;
        }
        i += 1;
    }
    true
}

/// Whether a string slice begins with the character `c`.
pub fn starts_with_char(s: &str, c: char) -> (r: bool)
    ensures
        r == (s@.len() > 0 && s@[0] == c),
{
    !s.is_empty() && s.get_char(0) == c
}

/// Splits a line into its words.
pub fn tokenize<'a>(line: &'a str) -> (out: Vec<&'a str>)
    ensures
        views(out@) == tokens(line@),
{
    let chars = chars_of(line);
    let n = chars.len();
    let mut out: Vec<&'a str> = Vec::new();
    let mut i: usize = 0;
    assert(line@.skip(0) =~= line@);
    while i < n
        invariant
            chars@ == line@,
            n == chars.len(),
            i <= n,
            views(out@) + tokens(line@.skip(i as int)) == tokens(line@),
        decreases n - i,
    {
        let ghost rest = line@.skip(i as int);
        if is_whitespace_char(chars[i]) {
            assert(rest.drop_first() =~= line@.skip(i + 1));
            i += 1;
        } else {
            let start = i;
            while i < n && !is_whitespace_char(chars[i])
                invariant
                    chars@ == line@,
                    n == chars.len(),
                    start <= i <= n,
                    forall|j: int| start <= j < i ==> !is_whitespace(#[trigger] chars@[j]),
                decreases n - i,
            {
                i += 1;
            }
            let word = line.substring_char(start, i);
            proof {
                lemma_word_len_is(rest, i - start);
                assert(rest.take(i - start) =~= word@);
                assert(rest.skip(i - start) =~= line@.skip(i as int));
            }
            out.push(word);
        }
    }
    out
}

/// Splits a text at each occurrence of `sep`.
pub fn split<'a>(s: &'a str, sep: char) -> (out: Vec<&'a str>)
    ensures
        views(out@) == split_on(s@, sep),
{
    let chars = chars_of(s);
    let n = chars.len();
    let mut out: Vec<&'a str> = Vec::new();
    let mut start: usize = 0;
    let mut i: usize = 0;
    assert(s@.skip(0) =~= s@);
    while i < n
        invariant
            chars@ == s@,
            n == chars.len(),
            start <= i <= n,
            forall|j: int| start <= j < i ==> chars@[j] != sep,
            views(out@) + split_on(s@.skip(start as int), sep) == split_on(s@, sep),
        decreases n - i,
    {
        if chars[i] == sep {
            let piece = s.substring_char(start, i);
            proof {
                let rest = s@.skip(start as int);
                lemma_first_where_found(rest, is_char(sep), i - start);
                assert(rest.take(i - start) =~= piece@);
                assert(rest.skip(i - start + 1) =~= s@.skip(i + 1));
            }
            out.push(piece);
            start = i + 1;
        }
        i += 1;
    }
    let piece = s.substring_char(start, n);
    proof {
        lemma_first_where_absent(s@.skip(start as int), is_char(sep));
    }
    out.push(piece);
    out
}

/// Joins the texts of `list` with `sep` between them.
pub fn join(list: &Vec<&str>, sep: &str) -> (out: String)
    ensures
        out@ == joined(views(list@), sep@),
{
    let mut out = String::new();
    let mut i: usize = 0;
    let ghost all = views(list@);
    while i < list.len()
        invariant
            i <= list.len(),
            all == views(list@),
            out@ == joined(all.take(i as int), sep@),
        decreases list.len() - i,
    {
        if i > 0 {
            out.append(sep);
        }
        out.append(list[i]);
        proof {
            lemma_joined_push(all.take(i as int), sep@, all[i as int]);
            assert(all.take(i + 1) =~= all.take(i as int).push(all[i as int]));
        }
        i += 1;
    }
    assert(all.take(list.len() as int) =~= all);
    out
}

/// Replaces the first occurrence of `c` in `s` by `with`.
pub fn replace_first(s: &str, c: char, with: &str) -> (out: String)
    ensures
        out@ == first_replaced(s@, c, with@),
{
    let chars = chars_of(s);
    let n = chars.len();
    let mut i: usize = 0;
    while i < n
        invariant
            chars@ == s@,
            n == chars.len(),
            i <= n,
            forall|j: int| 0 <= j < i ==> chars@[j] != c,
        decreases n - i,
    {
        if chars[i] == c {
            let mut out = String::from_str(s.substring_char(0, i));
            out.append(with);
            out.append(s.substring_char(i + 1, n));
            proof {
                lemma_first_where_found(s@, is_char(c), i as int);
            }
            return out;
        }
        i += 1;
    }
    proof {
        lemma_first_where_absent(s@, is_char(c));
    }
    String::from_str(s)
}

} // verus!
