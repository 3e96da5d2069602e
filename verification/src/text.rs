//! Character- and string-level helpers: ASCII-case-insensitive comparison,
//! as CSS keyword matching requires, and the escaping routines for
//! identifiers and quoted strings.

use vstd::prelude::*;

verus! {

/// ASCII-case-insensitive equality of two characters: equal outright, or the
/// same letter in the two cases (`A`..`Z` is 65..90, 32 below `a`..`z`).
pub open spec fn char_eq_ic(a: char, b: char) -> bool {
    a == b || (65 <= a as u32 <= 90 && b as u32 == a as u32 + 32) || (65 <= b as u32 <= 90
        && a as u32 == b as u32 + 32)
}

/// ASCII-case-insensitive equality of two character sequences.
pub open spec fn seq_eq_ic(a: Seq<char>, b: Seq<char>) -> bool {
    a.len() == b.len() && forall|i: int| 0 <= i < a.len() ==> char_eq_ic(a[i], b[i])
}

pub proof fn lemma_seq_eq_ic_refl(a: Seq<char>)
    ensures
        seq_eq_ic(a, a),
{
}

/// ASCII-case-insensitive equality of two characters, decided on their code
/// points.
pub fn chars_eq_ic(a: char, b: char) -> (r: bool)
    ensures
        r == char_eq_ic(a, b),
{
    let x = a as u32;
    let y = b as u32;
    x == y || (65 <= x && x <= 90 && y == x + 32) || (65 <= y && y <= 90 && x == y + 32)
}

/// ASCII-case-insensitive equality of two strings.
pub fn str_eq_ic(a: &str, b: &str) -> (r: bool)
    ensures
        r == seq_eq_ic(a@, b@),
{
    let alen = a.unicode_len();
    let blen = b.unicode_len();
    if alen != blen {
        return false;
    }
    let mut i: usize = 0;
    while i < alen
        invariant
            i <= alen,
            alen == a@.len(),
            alen == blen,
            blen == b@.len(),
            forall|j: int| 0 <= j < i ==> char_eq_ic(a@[j], b@[j]),
        decreases alen - i,
    {
        if !chars_eq_ic(a.get_char(i), b.get_char(i)) {
            return false;
        }
        i += 1;
    }
    true
}

/// Appends one character to a string.
///
/// Relies on `String::push`: appends the character to the end of the string.
#[verifier::external_body]
pub fn push_char(s: &mut String, c: char)
    ensures
        final(s)@ == old(s)@.push(c),
{
    s.push(c);
}

/// The text that `cssparser::serialize_identifier` writes for a given string:
/// the string escaped so that it reads back as a CSS identifier.
pub uninterp spec fn ident_escaped(s: Seq<char>) -> Seq<char>;

/// The text that `cssparser::serialize_string` writes for a given string: the
/// string escaped and wrapped in double quotes.
pub uninterp spec fn string_escaped(s: Seq<char>) -> Seq<char>;

/// Relies on `cssparser::serialize_identifier`: escapes a string as a CSS
/// identifier, writing nothing for an empty input. Writing into a `String`
/// never fails.
#[verifier::external_body]
pub fn escape_ident(s: &str) -> (r: String)
    ensures
        r@ == ident_escaped(s@),
        s@.len() == 0 ==> r@.len() == 0,
{
    let mut out = String::new();
    let _ = cssparser::serialize_identifier(s, &mut out);
    out
}

/// Relies on `cssparser::serialize_string`: escapes a string and wraps it in
/// double quotes, so the result is at least two characters long. Writing into
/// a `String` never fails.
#[verifier::external_body]
pub fn escape_string(s: &str) -> (r: String)
    ensures
        r@ == string_escaped(s@),
        r@.len() >= 2,
{
    let mut out = String::new();
    let _ = cssparser::serialize_string(s, &mut out);
    out
}


/// The first position at or after `i` holding a space, or the length where
/// none does.
pub open spec fn find_sp_from(s: Seq<char>, i: int) -> int
    decreases s.len() - i,
{
    if 0 <= i < s.len() {
        if s[i] == ' ' {
            i
        } else {
            find_sp_from(s, i + 1)
        }
    } else {
        s.len() as int
    }
}

pub proof fn lemma_find_sp_from_bounds(s: Seq<char>, i: int)
    requires
        0 <= i <= s.len(),
    ensures
        i <= find_sp_from(s, i) <= s.len(),
        find_sp_from(s, i) < s.len() ==> s[find_sp_from(s, i)] == ' ',
        forall|k: int| i <= k < find_sp_from(s, i) ==> s[k] != ' ',
    decreases s.len() - i,
{
    if i < s.len() && s[i] != ' ' {
        lemma_find_sp_from_bounds(s, i + 1);
    }
}

/// The words of `s[i..]`, split on single spaces: two neighbouring spaces
/// hold an empty word between them.
pub open spec fn split_from(s: Seq<char>, i: int) -> Seq<Seq<char>>
    decreases s.len() - i,
{
    let j = find_sp_from(s, i);
    if 0 <= i && i <= j && j < s.len() {
        seq![s.subrange(i, j)] + split_from(s, j + 1)
    } else if 0 <= i <= s.len() {
        seq![s.subrange(i, s.len() as int)]
    } else {
        seq![]
    }
}

/// A sequence always splits into at least one word.
pub proof fn lemma_split_from_len(s: Seq<char>, i: int)
    requires
        0 <= i <= s.len(),
    ensures
        split_from(s, i).len() >= 1,
    decreases s.len() - i,
{
    lemma_find_sp_from_bounds(s, i);
}

/// Joining the words of a split with single spaces gives the text back.
pub proof fn lemma_split_join(s: Seq<char>, i: int)
    requires
        0 <= i <= s.len(),
    ensures
        join_sp(split_from(s, i)) == s.subrange(i, s.len() as int),
    decreases s.len() - i,
{
    lemma_find_sp_from_bounds(s, i);
    let j = find_sp_from(s, i);
    if i <= j && j < s.len() {
        lemma_split_join(s, j + 1);
        lemma_split_from_len(s, j + 1);
        let ws = split_from(s, i);
        assert(ws == seq![s.subrange(i, j)] + split_from(s, j + 1));
        assert(ws.len() >= 2);
        assert(ws[0] == s.subrange(i, j));
        assert(ws.drop_first() =~= split_from(s, j + 1));
        assert(join_sp(ws) == ws[0] + seq![' '] + join_sp(ws.drop_first()));
        assert(s.subrange(i, j) + seq![' '] + s.subrange(j + 1, s.len() as int) =~= s.subrange(
            i,
            s.len() as int,
        ));
    }
}

/// The words joined back with single spaces.
pub open spec fn join_sp(ws: Seq<Seq<char>>) -> Seq<char>
    decreases ws.len(),
{
    if ws.len() == 0 {
        seq![]
    } else if ws.len() == 1 {
        ws[0]
    } else {
        ws[0] + seq![' '] + join_sp(ws.drop_first())
    }
}

/// The words escaped as identifiers and joined with single spaces, from the
/// word at `k` on.
pub open spec fn esc_join_from(ws: Seq<Seq<char>>, k: int) -> Seq<char>
    decreases ws.len() - k,
{
    if 0 <= k < ws.len() {
        (if k > 0 {
            seq![' ']
        } else {
            seq![]
        }) + ident_escaped(ws[k]) + esc_join_from(ws, k + 1)
    } else {
        seq![]
    }
}

/// Splits a string on spaces.
pub fn split_words(s: &str) -> (r: Vec<String>)
    ensures
        r@.map(|i: int, w: String| w@) == split_from(s@, 0),
        r@.len() >= 1,
{
    let n = s.unicode_len();
    let mut words: Vec<String> = Vec::new();
    let mut word = String::new();
    let mut i: usize = 0;
    let ghost mut wstart: int = 0;
    while i < n
        invariant
            n == s@.len(),
            i <= n,
            0 <= wstart <= i,
            word@ == s@.subrange(wstart, i as int),
            forall|k: int| wstart <= k < i ==> s@[k] != ' ',
            split_from(s@, 0) == words@.map(|k: int, w: String| w@) + split_from(s@, wstart),
        decreases n - i,
    {
        let c = s.get_char(i);
        if c == ' ' {
            proof {
                assert(find_sp_from(s@, wstart) == i) by {
                    lemma_find_sp_from_no_space(s@, wstart, i as int);
                }
                assert(split_from(s@, wstart) == seq![s@.subrange(wstart, i as int)] + split_from(
                    s@,
                    i as int + 1,
                ));
            }
            let ghost ws0 = words@;
            words.push(word);
            word = String::new();
            proof {
                wstart = i as int + 1;
                assert(words@.map(|k: int, w: String| w@) =~= ws0.map(|k: int, w: String| w@)
                    + seq![words@.last()@]);
                assert(ws0.map(|k: int, w: String| w@) + (seq![words@.last()@] + split_from(
                    s@,
                    wstart,
                )) =~= words@.map(|k: int, w: String| w@) + split_from(s@, wstart));
                assert(word@ =~= s@.subrange(wstart, wstart));
            }
        } else {
            push_char(&mut word, c);
            proof {
                assert(word@ =~= s@.subrange(wstart, i as int + 1));
            }
        }
        i = i + 1;
    }
    proof {
        assert(find_sp_from(s@, wstart) == n) by {
            lemma_find_sp_from_no_space(s@, wstart, n as int);
        }
        assert(split_from(s@, wstart) == seq![s@.subrange(wstart, n as int)]);
    }
    let ghost ws0 = words@;
    words.push(word);
    proof {
        assert(words@.map(|k: int, w: String| w@) =~= ws0.map(|k: int, w: String| w@)
            + seq![words@.last()@]);
        assert(words@.map(|k: int, w: String| w@) =~= split_from(s@, 0));
    }
    words
}

/// Where no space stands at or after `i` before `j`, and `j` is a space or
/// the end, the first space search lands on `j`.
pub proof fn lemma_find_sp_from_no_space(s: Seq<char>, i: int, j: int)
    requires
        0 <= i <= j <= s.len(),
        forall|k: int| i <= k < j ==> s[k] != ' ',
        j < s.len() ==> s[j] == ' ',
    ensures
        find_sp_from(s, i) == j,
    decreases j - i,
{
    if i < j {
        lemma_find_sp_from_no_space(s, i + 1, j);
    }
}

/// Escapes each word as an identifier and joins them with single spaces.
pub fn escape_words(words: &Vec<String>) -> (r: String)
    ensures
        r@ == esc_join_from(words@.map(|i: int, w: String| w@), 0),
{
    let ghost ws = words@.map(|i: int, w: String| w@);
    let mut out = String::new();
    let mut k: usize = 0;
    while k < words.len()
        invariant
            k <= words.len(),
            ws == words@.map(|i: int, w: String| w@),
            out@ + esc_join_from(ws, k as int) == esc_join_from(ws, 0),
        decreases words.len() - k,
    {
        if k > 0 {
            push_char(&mut out, ' ');
        }
        let e = escape_ident(words[k].as_str());
        out.append(e.as_str());
        k = k + 1;
    }
    proof {
        assert(out@ =~= out@ + esc_join_from(ws, words@.len() as int));
    }
    out
}


/// The words from `k` on, each preceded by one space.
pub open spec fn join_tail(ws: Seq<Seq<char>>, k: int) -> Seq<char>
    decreases ws.len() - k,
{
    if 0 <= k < ws.len() {
        seq![' '] + ws[k] + join_tail(ws, k + 1)
    } else {
        seq![]
    }
}

/// Dropping the first word shifts the tail join by one.
pub proof fn lemma_join_tail_shift(ws: Seq<Seq<char>>, k: int)
    requires
        0 <= k,
        ws.len() >= 1,
    ensures
        join_tail(ws.drop_first(), k) == join_tail(ws, k + 1),
    decreases ws.len() - k,
{
    if k < ws.drop_first().len() {
        lemma_join_tail_shift(ws, k + 1);
        assert(ws.drop_first()[k] == ws[k + 1]);
    }
}

/// The space-joined words are the first word followed by the tail join.
pub proof fn lemma_join_sp_tail(ws: Seq<Seq<char>>)
    requires
        ws.len() >= 1,
    ensures
        join_sp(ws) == ws[0] + join_tail(ws, 1),
    decreases ws.len(),
{
    if ws.len() == 1 {
        assert(ws[0] + join_tail(ws, 1) =~= ws[0]);
    } else {
        lemma_join_sp_tail(ws.drop_first());
        lemma_join_tail_shift(ws, 1);
        assert(ws.drop_first()[0] == ws[1]);
        assert(join_sp(ws) == ws[0] + seq![' '] + (ws[1] + join_tail(ws, 2)));
        assert(join_tail(ws, 1) == seq![' '] + ws[1] + join_tail(ws, 2));
        assert(ws[0] + seq![' '] + (ws[1] + join_tail(ws, 2)) =~= ws[0] + (seq![' '] + ws[1]
            + join_tail(ws, 2)));
    }
}

} // verus!
