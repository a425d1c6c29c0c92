//! Character-level text scanning: lines and whitespace-separated tokens.
use vstd::prelude::*;

verus! {

broadcast use vstd::string::group_string_axioms;

/// The characters of `text`, in order.
pub fn chars_of(text: &str) -> (r: Vec<char>)
    ensures
        r@ == text@,
{
    let mut v: Vec<char> = Vec::new();
    for c in it: text.chars()
        invariant
            v@ == it.seq().take(it.index()),
            it.seq() == text@,
    {
        v.push(c);
    }
    v
}

/// Unicode `White_Space`: the characters `char::is_whitespace` accepts.
pub open spec fn is_white_space(c: char) -> bool {
    ||| c == '\t' || c == '\n' || c == '\u{0B}' || c == '\u{0C}' || c == '\r' || c == ' '
    ||| c == '\u{85}' || c == '\u{A0}' || c == '\u{1680}'
    ||| ('\u{2000}' <= c && c <= '\u{200A}')
    ||| c == '\u{2028}' || c == '\u{2029}' || c == '\u{202F}' || c == '\u{205F}' || c == '\u{3000}'
}

/// Whether `c` is a whitespace character (Unicode `White_Space`).
pub fn is_whitespace(c: char) -> (r: bool)
    ensures
        r == is_white_space(c),
{
    c == '\t' || c == '\n' || c == '\u{0B}' || c == '\u{0C}' || c == '\r' || c == ' '
        || c == '\u{85}' || c == '\u{A0}' || c == '\u{1680}' || ('\u{2000}' <= c && c
        <= '\u{200A}') || c == '\u{2028}' || c == '\u{2029}' || c == '\u{202F}' || c
        == '\u{205F}' || c == '\u{3000}'
}

/// Length of the run of non-whitespace characters that `s` starts with.
pub open spec fn token_len(s: Seq<char>) -> nat
    decreases s.len(),
{
    if s.len() == 0 || is_white_space(s[0]) {
        0
    } else {
        1 + token_len(s.drop_first())
    }
}

/// A token is never longer than the text it is taken from, and a text
/// that starts with a non-whitespace character starts a non-empty token.
pub proof fn lemma_token_len_bounds(s: Seq<char>)
    ensures
        token_len(s) <= s.len(),
        s.len() > 0 && !is_white_space(s[0]) ==> token_len(s) >= 1,
    decreases s.len(),
{
    if s.len() > 0 && !is_white_space(s[0]) {
        lemma_token_len_bounds(s.drop_first());
    }
}

/// The maximal runs of non-whitespace characters of `s`, in order: what
/// `str::split_whitespace` yields.
pub open spec fn whitespace_tokens(s: Seq<char>) -> Seq<Seq<char>>
    decreases s.len(),
{
    if s.len() == 0 {
        seq![]
    } else if is_white_space(s[0]) {
        whitespace_tokens(s.drop_first())
    } else {
        let n = token_len(s);
        proof {
            lemma_token_len_bounds(s);
        }
        seq![s.take(n as int)] + whitespace_tokens(s.skip(n as int))
    }
}

/// A text that starts with `e` non-whitespace characters followed by a
/// whitespace character (or its end) starts a token of length `e`.
proof fn lemma_token_len_run(s: Seq<char>, e: int)
    requires
        0 <= e <= s.len(),
        forall|j: int| 0 <= j < e ==> !is_white_space(#[trigger] s[j]),
        e == s.len() || is_white_space(s[e]),
    ensures
        token_len(s) == e,
    decreases e,
{
    if e > 0 {
        lemma_token_len_run(s.drop_first(), e - 1);
    }
}

/// Calls `String::push`. Its contract claims what std documents: the
/// string's characters afterwards are the old ones followed by `c`.
#[verifier::external_body]
fn push_char(s: &mut String, c: char)
    ensures
        final(s)@ == old(s)@.push(c),
{
    s.push(c);
}

/// The string made of `cs[lo..hi]`.
pub fn string_of(cs: &Vec<char>, lo: usize, hi: usize) -> (r: String)
    requires
        lo <= hi <= cs.len(),
    ensures
        r@ == cs@.subrange(lo as int, hi as int),
{
    let mut s = String::new();
    let mut i = lo;
    while i < hi
        invariant
            lo <= i <= hi <= cs.len(),
            s@ == cs@.subrange(lo as int, i as int),
        decreases hi - i,
    {
        push_char(&mut s, cs[i]);
        assert(cs@.subrange(lo as int, i + 1) =~= cs@.subrange(lo as int, i as int).push(cs@[i as int]));
        i = i + 1;
    }
    s
}

/// The whitespace-separated tokens of `cs[lo..hi]`, in order.
pub fn tokenize(cs: &Vec<char>, lo: usize, hi: usize) -> (r: Vec<String>)
    requires
        lo <= hi <= cs.len(),
    ensures
        r.deep_view() == whitespace_tokens(cs@.subrange(lo as int, hi as int)),
{
    let mut out: Vec<String> = Vec::new();
    let mut i = lo;
    while i < hi
        invariant
            lo <= i <= hi <= cs.len(),
            out.deep_view() + whitespace_tokens(cs@.subrange(i as int, hi as int))
                == whitespace_tokens(cs@.subrange(lo as int, hi as int)),
        decreases hi - i,
    {
        if is_whitespace(cs[i]) {
            assert(cs@.subrange(i as int, hi as int).drop_first() =~= cs@.subrange(
                i + 1,
                hi as int,
            ));
            i = i + 1;
        } else {
            let start = i;
            while i < hi && !is_whitespace(cs[i])
                invariant
                    start <= i <= hi <= cs.len(),
                    forall|j: int| start <= j < i ==> !is_white_space(#[trigger] cs@[j]),
                decreases hi - i,
            {
                i = i + 1;
            }
            let tok = string_of(cs, start, i);
            proof {
                let s = cs@.subrange(start as int, hi as int);
                let e = i - start;
                assert forall|j: int| 0 <= j < e implies !is_white_space(#[trigger] s[j]) by {
                    assert(s[j] == cs@[start + j]);
                }
                lemma_token_len_run(s, e);
                assert(s.take(e) =~= cs@.subrange(start as int, i as int));
                assert(s.skip(e) =~= cs@.subrange(i as int, hi as int));
            }
            let ghost before = out.deep_view();
            out.push(tok);
            proof {
                assert(out.deep_view() =~= before.push(cs@.subrange(start as int, i as int)));
                assert(out.deep_view() + whitespace_tokens(cs@.subrange(i as int, hi as int))
                    =~= before + whitespace_tokens(cs@.subrange(start as int, hi as int)));
            }
        }
    }
    proof {
        assert(cs@.subrange(i as int, hi as int) =~= Seq::<char>::empty());
        assert(out.deep_view() + Seq::<Seq<char>>::empty() =~= out.deep_view());
    }
    out
}

/// Index of the first `'\n'` of `s` at or after `i`, or `s.len()` when
/// there is none.
pub open spec fn newline_at_or_after(s: Seq<char>, i: int) -> int
    decreases s.len() - i,
{
    if i < 0 || i >= s.len() {
        s.len() as int
    } else if s[i] == '\n' {
        i
    } else {
        newline_at_or_after(s, i + 1)
    }
}

/// End of the text of the line that starts at `i`: its terminator, `\n`
/// or `\r\n`, is not part of it (as with `str::lines`). A `\r` that is
/// not followed by `\n` stays in the line.
pub open spec fn line_content_end(s: Seq<char>, i: int) -> int {
    let e = newline_at_or_after(s, i);
    if e < s.len() && e > i && s[e - 1] == '\r' {
        e - 1
    } else {
        e
    }
}

/// Start of the line that follows the line starting at `i` (`s.len()`
/// when that line is the last one).
pub open spec fn next_line_start(s: Seq<char>, i: int) -> int {
    let e = newline_at_or_after(s, i);
    if e < s.len() {
        e + 1
    } else {
        s.len() as int
    }
}

proof fn lemma_newline_bounds(s: Seq<char>, i: int)
    requires
        0 <= i <= s.len(),
    ensures
        i <= newline_at_or_after(s, i) <= s.len(),
    decreases s.len() - i,
{
    if i < s.len() && s[i] != '\n' {
        lemma_newline_bounds(s, i + 1);
    }
}

/// The bounds of the line of `cs` that starts at `i`: the end of its text
/// and the start of the next line.
pub fn line_bounds(cs: &Vec<char>, i: usize) -> (r: (usize, usize))
    requires
        i <= cs.len(),
    ensures
        r.0 == line_content_end(cs@, i as int),
        r.1 == next_line_start(cs@, i as int),
        i <= r.0 <= r.1 <= cs.len(),
{
    let mut e = i;
    while e < cs.len() && cs[e] != '\n'
        invariant
            i <= e <= cs.len(),
            newline_at_or_after(cs@, e as int) == newline_at_or_after(cs@, i as int),
        decreases cs.len() - e,
    {
        e = e + 1;
    }
    proof {
        lemma_newline_bounds(cs@, i as int);
    }
    let content_end = if e < cs.len() && e > i && cs[e - 1] == '\r' {
        e - 1
    } else {
        e
    };
    let next = if e < cs.len() {
        e + 1
    } else {
        cs.len()
    };
    (content_end, next)
}

/// Every token is a non-empty run of non-whitespace characters.
pub proof fn lemma_tokens_are_words(s: Seq<char>)
    ensures
        forall|t: int|
            0 <= t < whitespace_tokens(s).len() ==> {
                &&& (#[trigger] whitespace_tokens(s)[t]).len() > 0
                &&& forall|c: int|
                    0 <= c < whitespace_tokens(s)[t].len() ==> !is_white_space(
                        whitespace_tokens(s)[t][c],
                    )
            },
    decreases s.len(),
{
    if s.len() == 0 {
    } else if is_white_space(s[0]) {
        lemma_tokens_are_words(s.drop_first());
        assert(whitespace_tokens(s) == whitespace_tokens(s.drop_first()));
    } else {
        let n = token_len(s);
        lemma_token_len_bounds(s);
        lemma_token_len_prefix(s);
        lemma_tokens_are_words(s.skip(n as int));
        let rest = whitespace_tokens(s.skip(n as int));
        assert(whitespace_tokens(s) == seq![s.take(n as int)] + rest);
        assert forall|t: int| 0 <= t < whitespace_tokens(s).len() implies {
            &&& (#[trigger] whitespace_tokens(s)[t]).len() > 0
            &&& forall|c: int|
                0 <= c < whitespace_tokens(s)[t].len() ==> !is_white_space(
                    whitespace_tokens(s)[t][c],
                )
        } by {
            if t > 0 {
                assert(whitespace_tokens(s)[t] == rest[t - 1]);
            } else {
                assert(whitespace_tokens(s)[0] == s.take(n as int));
                assert forall|c: int| 0 <= c < n implies !is_white_space(
                    #[trigger] s.take(n as int)[c],
                ) by {
                    assert(s.take(n as int)[c] == s[c]);
                }
            }
        }
    }
}

/// The characters of a token are not whitespace.
proof fn lemma_token_len_prefix(s: Seq<char>)
    ensures
        forall|c: int| 0 <= c < token_len(s) ==> !is_white_space(#[trigger] s[c]),
    decreases s.len(),
{
    if s.len() > 0 && !is_white_space(s[0]) {
        lemma_token_len_prefix(s.drop_first());
        lemma_token_len_bounds(s);
        assert forall|c: int| 0 <= c < token_len(s) implies !is_white_space(#[trigger] s[c]) by {
            if c > 0 {
                assert(s[c] == s.drop_first()[c - 1]);
            }
        }
    }
}

/// A token ends at the first whitespace character, whatever follows it.
proof fn lemma_token_len_append(a: Seq<char>, r: Seq<char>)
    requires
        r.len() > 0,
        is_white_space(r[0]),
    ensures
        token_len(a + r) == token_len(a),
    decreases a.len(),
{
    if a.len() == 0 {
        assert(a + r =~= r);
    } else {
        assert((a + r)[0] == a[0]);
        if !is_white_space(a[0]) {
            assert((a + r).drop_first() =~= a.drop_first() + r);
            lemma_token_len_append(a.drop_first(), r);
        }
    }
}

/// Splitting at a whitespace character splits the tokens: the tokens of
/// `a`, a whitespace character and `b` are the tokens of `a` followed by
/// those of `b`. So a data row read as one line or wrapped over several
/// lines gives the same tokens.
pub proof fn lemma_tokens_split_at_whitespace(a: Seq<char>, c: char, b: Seq<char>)
    requires
        is_white_space(c),
    ensures
        whitespace_tokens(a + seq![c] + b) == whitespace_tokens(a) + whitespace_tokens(b),
    decreases a.len(),
{
    let s = a + seq![c] + b;
    if a.len() == 0 {
        assert(s.drop_first() =~= b);
        assert(whitespace_tokens(a) =~= Seq::<Seq<char>>::empty());
        assert(whitespace_tokens(a) + whitespace_tokens(b) =~= whitespace_tokens(b));
    } else if is_white_space(a[0]) {
        assert(s[0] == a[0]);
        assert(s.drop_first() =~= a.drop_first() + seq![c] + b);
        lemma_tokens_split_at_whitespace(a.drop_first(), c, b);
    } else {
        assert(s[0] == a[0]);
        let r = seq![c] + b;
        assert(s =~= a + r);
        lemma_token_len_append(a, r);
        lemma_token_len_bounds(a);
        let n = token_len(a) as int;
        assert(s.take(n) =~= a.take(n));
        assert(s.skip(n) =~= a.skip(n) + seq![c] + b);
        lemma_tokens_split_at_whitespace(a.skip(n), c, b);
        assert(whitespace_tokens(a) == seq![a.take(n)] + whitespace_tokens(a.skip(n)));
        assert(whitespace_tokens(s) == seq![s.take(n)] + whitespace_tokens(s.skip(n)));
        assert(seq![a.take(n)] + (whitespace_tokens(a.skip(n)) + whitespace_tokens(b))
            =~= seq![a.take(n)] + whitespace_tokens(a.skip(n)) + whitespace_tokens(b));
    }
}

/// The ASCII whitespace characters (tab, line feed, vertical tab, form
/// feed, carriage return and space) are whitespace; no visible ASCII
/// character (`'!'..='~'`: letters, digits, signs, the decimal point)
/// is.
pub proof fn lemma_ascii_white_space(c: char)
    ensures
        c == '\t' || c == '\n' || c == '\u{0B}' || c == '\u{0C}' || c == '\r' || c == ' '
            ==> is_white_space(c),
        '!' <= c <= '~' ==> !is_white_space(c),
{
}

/// A non-empty run of non-whitespace characters is a single token.
pub proof fn lemma_word_is_one_token(w: Seq<char>)
    requires
        w.len() > 0,
        forall|k: int| 0 <= k < w.len() ==> !is_white_space(#[trigger] w[k]),
    ensures
        whitespace_tokens(w) == seq![w],
{
    lemma_token_len_run(w, w.len() as int);
    assert(w.take(w.len() as int) =~= w);
    assert(w.skip(w.len() as int) =~= Seq::<char>::empty());
    assert(whitespace_tokens(w.skip(w.len() as int)) =~= Seq::<Seq<char>>::empty());
    assert(seq![w] + Seq::<Seq<char>>::empty() =~= seq![w]);
}

/// A text of whitespace characters alone (an empty or blank line) has
/// no tokens.
pub proof fn lemma_blank_has_no_tokens(s: Seq<char>)
    requires
        forall|k: int| 0 <= k < s.len() ==> is_white_space(#[trigger] s[k]),
    ensures
        whitespace_tokens(s) == Seq::<Seq<char>>::empty(),
    decreases s.len(),
{
    if s.len() > 0 {
        assert forall|k: int| 0 <= k < s.drop_first().len() implies is_white_space(
            #[trigger] s.drop_first()[k],
        ) by {
            assert(s.drop_first()[k] == s[k + 1]);
        }
        lemma_blank_has_no_tokens(s.drop_first());
    }
}

/// The first `'\n'` at or after `i` is found: `newline_at_or_after` is
/// `e` when `s[e]` is `'\n'` and no character from `i` to `e` is.
proof fn lemma_newline_found(s: Seq<char>, i: int, e: int)
    requires
        0 <= i <= e < s.len(),
        s[e] == '\n',
        forall|k: int| i <= k < e ==> #[trigger] s[k] != '\n',
    ensures
        newline_at_or_after(s, i) == e,
    decreases e - i,
{
    if i < e {
        lemma_newline_found(s, i + 1, e);
    }
}

/// Line splitting as `str::lines` does it: in `a` followed by `'\n'`
/// and `rest`, where `a` holds no `'\n'`, the first line is `a` without
/// a final `'\r'`, and the next line starts right after the `'\n'`.
pub proof fn lemma_first_line(a: Seq<char>, rest: Seq<char>)
    requires
        forall|k: int| 0 <= k < a.len() ==> #[trigger] a[k] != '\n',
    ensures
        ({
            let s = a + seq!['\n'] + rest;
            &&& next_line_start(s, 0) == a.len() + 1
            &&& a.len() > 0 && a[a.len() - 1] == '\r' ==> line_content_end(s, 0) == a.len() - 1
            &&& !(a.len() > 0 && a[a.len() - 1] == '\r') ==> line_content_end(s, 0) == a.len()
        }),
{
    let s = a + seq!['\n'] + rest;
    assert(s[a.len() as int] == '\n');
    assert forall|k: int| 0 <= k < a.len() implies #[trigger] s[k] != '\n' by {
        assert(s[k] == a[k]);
    }
    lemma_newline_found(s, 0, a.len() as int);
    if a.len() > 0 {
        assert(s[a.len() - 1] == a[a.len() - 1]);
    }
}

} // verus!
