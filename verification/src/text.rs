//! Character-level text processing shared by the listing parsers and the
//! window filter: prefix tests, substring search, repeated prefix
//! stripping, trimming, and the splitting of line-oriented listings into
//! lines and blank-separated tokens.

use vstd::prelude::*;

verus! {

/// `p` is a prefix of `s`.
pub open spec fn has_prefix(s: Seq<char>, p: Seq<char>) -> bool {
    p.len() <= s.len() && s.subrange(0, p.len() as int) == p
}

/// `sub` occurs in `s` starting at position `i`.
pub open spec fn occurs_at(s: Seq<char>, sub: Seq<char>, i: int) -> bool {
    0 <= i && i + sub.len() <= s.len() && s.subrange(i, i + sub.len()) == sub
}

/// `sub` occurs somewhere in `s`.
pub open spec fn contains_seq(s: Seq<char>, sub: Seq<char>) -> bool {
    exists|i: int| occurs_at(s, sub, i)
}

/// `s` with every leading copy of the non-empty pattern `p` removed.
pub open spec fn strip_prefix_all(s: Seq<char>, p: Seq<char>) -> Seq<char>
    decreases s.len(),
{
    if p.len() > 0 && has_prefix(s, p) {
        strip_prefix_all(s.subrange(p.len() as int, s.len() as int), p)
    } else {
        s
    }
}

/// Whether `p` is a prefix of `s`, at character level.
pub fn str_has_prefix(s: &str, p: &str) -> (r: bool)
    ensures
        r == has_prefix(s@, p@),
{
    let n = p.unicode_len();
    let m = s.unicode_len();
    if n > m {
        assert(!has_prefix(s@, p@));
        return false;
    }
    let mut i: usize = 0;
    while i < n
        invariant
            i <= n,
            n <= m,
            n == p@.len(),
            m == s@.len(),
            forall|j: int| 0 <= j < i ==> s@[j] == p@[j],
        decreases n - i,
    {
        if s.get_char(i) != p.get_char(i) {
            assert(!has_prefix(s@, p@)) by {
                if has_prefix(s@, p@) {
                    assert(s@.subrange(0, p@.len() as int)[i as int] == s@[i as int]);
                }
            }
            return false;
        }
        i += 1;
    }
    assert(s@.subrange(0, p@.len() as int) =~= p@);
    true
}

/// Whether the characters of `s` and `t` are equal.
pub fn str_eq(s: &str, t: &str) -> (r: bool)
    ensures
        r == (s@ == t@),
{
    let n = s.unicode_len();
    if n != t.unicode_len() {
        return false;
    }
    let mut i: usize = 0;
    while i < n
        invariant
            i <= n,
            n == s@.len(),
            n == t@.len(),
            forall|j: int| 0 <= j < i ==> s@[j] == t@[j],
        decreases n - i,
    {
        if s.get_char(i) != t.get_char(i) {
            return false;
        }
        i += 1;
    }
    assert(s@ =~= t@);
    true
}

/// Whether `sub` occurs in `s` starting exactly at `i`.
fn occurs_here(s: &str, sub: &str, i: usize) -> (r: bool)
    requires
        i + sub@.len() <= s@.len(),
    ensures
        r == occurs_at(s@, sub@, i as int),
{
    let n = sub.unicode_len();
    let m = s.unicode_len();
    let mut j: usize = 0;
    while j < n
        invariant
            j <= n,
            n == sub@.len(),
            m == s@.len(),
            i + n <= m,
            forall|k: int| 0 <= k < j ==> s@[i + k] == sub@[k],
        decreases n - j,
    {
        if s.get_char(i + j) != sub.get_char(j) {
            assert(!occurs_at(s@, sub@, i as int)) by {
                if occurs_at(s@, sub@, i as int) {
                    assert(s@.subrange(i as int, i + sub@.len())[j as int] == s@[i + j]);
                }
            }
            return false;
        }
        j += 1;
    }
    assert(s@.subrange(i as int, i + sub@.len()) =~= sub@);
    true
}

/// Whether `sub` occurs anywhere in `s`, at character level.
pub fn str_contains(s: &str, sub: &str) -> (r: bool)
    ensures
        r == contains_seq(s@, sub@),
{
    let n = sub.unicode_len();
    let m = s.unicode_len();
    if n > m {
        assert(!contains_seq(s@, sub@));
        return false;
    }
    if n == 0 {
        assert(s@.subrange(0, 0) =~= sub@);
        assert(occurs_at(s@, sub@, 0));
        return true;
    }
    let mut i: usize = 0;
    while i <= m - n
        invariant
            0 < n <= m,
            n == sub@.len(),
            m == s@.len(),
            i <= m - n + 1,
            forall|k: int| 0 <= k < i ==> !occurs_at(s@, sub@, k),
        decreases m - i,
    {
        if occurs_here(s, sub, i) {
            return true;
        }
        i += 1;
    }
    assert(forall|k: int| occurs_at(s@, sub@, k) ==> 0 <= k <= m - n);
    false
}

/// `s` with every leading copy of the pattern `p` removed; with an empty
/// pattern the string is returned unchanged.
pub fn str_strip_prefix_all(s: &str, p: &str) -> (r: String)
    ensures
        r@ == strip_prefix_all(s@, p@),
{
    let plen = p.unicode_len();
    if plen == 0 {
        return s.to_owned();
    }
    let mut cur: String = s.to_owned();
    loop
        invariant
            plen == p@.len(),
            plen > 0,
            strip_prefix_all(cur@, p@) == strip_prefix_all(s@, p@),
        decreases cur@.len(),
    {
        let clen = cur.as_str().unicode_len();
        if !str_has_prefix(cur.as_str(), p) {
            return cur;
        }
        let rest = String::from_str(cur.as_str().substring_char(plen, clen));
        cur = rest;
    }
}

/// Characters trimmed around a value read from a reply or the mirror.
pub open spec fn is_trim_char(c: char) -> bool {
    c == ' ' || c == '\t' || c == '\n' || c == '\r'
}

pub open spec fn trim_front(s: Seq<char>) -> Seq<char>
    decreases s.len(),
{
    if s.len() > 0 && is_trim_char(s[0]) {
        trim_front(s.drop_first())
    } else {
        s
    }
}

pub open spec fn trim_back(s: Seq<char>) -> Seq<char>
    decreases s.len(),
{
    if s.len() > 0 && is_trim_char(s.last()) {
        trim_back(s.drop_last())
    } else {
        s
    }
}

/// `s` with surrounding blank characters removed.
pub open spec fn trim_spec(s: Seq<char>) -> Seq<char> {
    trim_back(trim_front(s))
}

proof fn lemma_trim_front_at(s: Seq<char>, i: int)
    requires
        0 <= i <= s.len(),
        forall|j: int| 0 <= j < i ==> is_trim_char(#[trigger] s[j]),
        i == s.len() || !is_trim_char(s[i]),
    ensures
        trim_front(s) == s.subrange(i, s.len() as int),
    decreases i,
{
    if i == 0 {
        assert(s.subrange(0, s.len() as int) =~= s);
    } else {
        lemma_trim_front_at(s.drop_first(), i - 1);
        assert(s.drop_first().subrange(i - 1, s.drop_first().len() as int) =~= s.subrange(
            i,
            s.len() as int,
        ));
    }
}

proof fn lemma_trim_back_at(s: Seq<char>, a: int, b: int, e: int)
    requires
        0 <= a <= b <= e <= s.len(),
        forall|j: int| b <= j < e ==> is_trim_char(#[trigger] s[j]),
        b == a || !is_trim_char(s[b - 1]),
    ensures
        trim_back(s.subrange(a, e)) == s.subrange(a, b),
    decreases e - b,
{
    if b == e {
        let t = s.subrange(a, e);
        if t.len() > 0 {
            assert(t.last() == s[b - 1]);
        }
        assert(s.subrange(a, e) =~= s.subrange(a, b));
    } else {
        let t = s.subrange(a, e);
        assert(t.last() == s[e - 1]);
        assert(t.drop_last() =~= s.subrange(a, e - 1));
        lemma_trim_back_at(s, a, b, e - 1);
    }
}

fn is_trim_char_exec(c: char) -> (r: bool)
    ensures
        r == is_trim_char(c),
{
    c == ' ' || c == '\t' || c == '\n' || c == '\r'
}

/// `s` with surrounding blank characters removed.
pub fn trim_text(s: &str) -> (r: String)
    ensures
        r@ == trim_spec(s@),
{
    let n = s.unicode_len();
    let mut a: usize = 0;
    while a < n && is_trim_char_exec(s.get_char(a))
        invariant
            a <= n,
            n == s@.len(),
            forall|j: int| 0 <= j < a ==> is_trim_char(#[trigger] s@[j]),
        decreases n - a,
    {
        a += 1;
    }
    let mut b: usize = n;
    while b > a && is_trim_char_exec(s.get_char(b - 1))
        invariant
            a <= b <= n,
            n == s@.len(),
            forall|j: int| b <= j < n ==> is_trim_char(#[trigger] s@[j]),
        decreases b,
    {
        b -= 1;
    }
    proof {
        lemma_trim_front_at(s@, a as int);
        lemma_trim_back_at(s@, a as int, b as int, n as int);
    }
    String::from_str(s.substring_char(a, b))
}

/// A token separator inside one listing line.
pub open spec fn is_blank(c: char) -> bool {
    c == ' ' || c == '\t'
}

fn is_blank_exec(c: char) -> (r: bool)
    ensures
        r == is_blank(c),
{
    c == ' ' || c == '\t'
}

/// The position right after the token starting at `i`: the first blank
/// at or after `i`, or the end.
pub open spec fn token_end(s: Seq<char>, i: int) -> int
    decreases s.len() - i,
{
    if i < 0 || i >= s.len() || is_blank(s[i]) {
        i
    } else {
        token_end(s, i + 1)
    }
}

proof fn lemma_token_end_bounds(s: Seq<char>, i: int)
    requires
        0 <= i <= s.len(),
    ensures
        i <= token_end(s, i) <= s.len(),
    decreases s.len() - i,
{
    if i < s.len() && !is_blank(s[i]) {
        lemma_token_end_bounds(s, i + 1);
    }
}

proof fn lemma_token_end_at(s: Seq<char>, i: int, j: int)
    requires
        0 <= i <= j <= s.len(),
        forall|k: int| i <= k < j ==> !is_blank(#[trigger] s[k]),
        j == s.len() || is_blank(s[j]),
    ensures
        token_end(s, i) == j,
    decreases j - i,
{
    if i < j {
        lemma_token_end_at(s, i + 1, j);
    }
}

/// The blank-separated tokens of `s` from position `i` on, in order.
pub open spec fn tokens_from(s: Seq<char>, i: int) -> Seq<Seq<char>>
    decreases s.len() - i,
    via tokens_from_decreases
{
    if i < 0 || i >= s.len() {
        seq![]
    } else if is_blank(s[i]) {
        tokens_from(s, i + 1)
    } else {
        seq![s.subrange(i, token_end(s, i))] + tokens_from(s, token_end(s, i))
    }
}

#[via_fn]
proof fn tokens_from_decreases(s: Seq<char>, i: int) {
    if 0 <= i < s.len() && !is_blank(s[i]) {
        lemma_token_end_bounds(s, i + 1);
    }
}

/// Split one listing line into its blank-separated tokens.
pub fn split_blanks(s: &str) -> (r: Vec<String>)
    ensures
        r.deep_view() == tokens_from(s@, 0),
{
    let n = s.unicode_len();
    let mut out: Vec<String> = Vec::new();
    let mut i: usize = 0;
    while i < n
        invariant
            i <= n,
            n == s@.len(),
            out.deep_view() + tokens_from(s@, i as int) == tokens_from(s@, 0),
        decreases n - i,
    {
        if is_blank_exec(s.get_char(i)) {
            i += 1;
        } else {
            let mut j: usize = i + 1;
            while j < n && !is_blank_exec(s.get_char(j))
                invariant
                    i < j <= n,
                    n == s@.len(),
                    forall|k: int| i <= k < j ==> !is_blank(#[trigger] s@[k]),
                    !is_blank(s@[i as int]),
                decreases n - j,
            {
                j += 1;
            }
            proof {
                lemma_token_end_at(s@, i as int, j as int);
            }
            let ghost before = out.deep_view();
            out.push(String::from_str(s.substring_char(i, j)));
            proof {
                assert(out.deep_view() =~= before.push(s@.subrange(i as int, j as int)));
                assert(out.deep_view() + tokens_from(s@, j as int) =~= tokens_from(s@, 0));
            }
            i = j;
        }
    }
    proof {
        assert(tokens_from(s@, n as int) =~= Seq::<Seq<char>>::empty());
        assert(out.deep_view() =~= out.deep_view() + tokens_from(s@, n as int));
    }
    out
}

/// The position of the line break ending the line that starts at `i`, or
/// the end of the text.
pub open spec fn line_end(s: Seq<char>, i: int) -> int
    decreases s.len() - i,
{
    if i < 0 || i >= s.len() || s[i] == '\n' {
        i
    } else {
        line_end(s, i + 1)
    }
}

proof fn lemma_line_end_bounds(s: Seq<char>, i: int)
    requires
        0 <= i <= s.len(),
    ensures
        i <= line_end(s, i) <= s.len(),
    decreases s.len() - i,
{
    if i < s.len() && s[i] != '\n' {
        lemma_line_end_bounds(s, i + 1);
    }
}

proof fn lemma_line_end_at(s: Seq<char>, i: int, j: int)
    requires
        0 <= i <= j <= s.len(),
        forall|k: int| i <= k < j ==> #[trigger] s[k] != '\n',
        j == s.len() || s[j] == '\n',
    ensures
        line_end(s, i) == j,
    decreases j - i,
{
    if i < j {
        lemma_line_end_at(s, i + 1, j);
    }
}

/// A line with one trailing carriage return removed.
pub open spec fn strip_cr(l: Seq<char>) -> Seq<char> {
    if l.len() > 0 && l.last() == '\r' {
        l.drop_last()
    } else {
        l
    }
}

/// The lines of `s` from position `i` on: the stretches between line
/// breaks, each with a trailing carriage return removed; a final line
/// break closes the last line rather than opening an empty one.
pub open spec fn lines_from(s: Seq<char>, i: int) -> Seq<Seq<char>>
    decreases s.len() - i + 1,
    via lines_from_decreases
{
    if i < 0 || i >= s.len() {
        seq![]
    } else {
        seq![strip_cr(s.subrange(i, line_end(s, i)))] + lines_from(s, line_end(s, i) + 1)
    }
}

#[via_fn]
proof fn lines_from_decreases(s: Seq<char>, i: int) {
    if 0 <= i < s.len() {
        lemma_line_end_bounds(s, i);
    }
}

/// Split a listing reply into its lines.
pub fn split_lines(s: &str) -> (r: Vec<String>)
    ensures
        r.deep_view() == lines_from(s@, 0),
{
    let n = s.unicode_len();
    let mut out: Vec<String> = Vec::new();
    let mut i: usize = 0;
    while i < n
        invariant
            i <= n,
            n == s@.len(),
            out.deep_view() + lines_from(s@, i as int) == lines_from(s@, 0),
        decreases n - i,
    {
        let mut j: usize = i;
        while j < n && s.get_char(j) != '\n'
            invariant
                i <= j <= n,
                n == s@.len(),
                forall|k: int| i <= k < j ==> #[trigger] s@[k] != '\n',
            decreases n - j,
        {
            j += 1;
        }
        proof {
            lemma_line_end_at(s@, i as int, j as int);
        }
        let end = if j > i && s.get_char(j - 1) == '\r' {
            j - 1
        } else {
            j
        };
        proof {
            let l = s@.subrange(i as int, j as int);
            if j > i && s@[j - 1] == '\r' {
                assert(l.last() == s@[j - 1]);
                assert(l.drop_last() =~= s@.subrange(i as int, j - 1));
            }
            assert(strip_cr(l) == s@.subrange(i as int, end as int));
        }
        let ghost before = out.deep_view();
        out.push(String::from_str(s.substring_char(i, end)));
        proof {
            assert(out.deep_view() =~= before.push(s@.subrange(i as int, end as int)));
            assert(out.deep_view() + lines_from(s@, j + 1) =~= lines_from(s@, 0));
        }
        if j == n {
            proof {
                assert(lines_from(s@, j + 1) =~= Seq::<Seq<char>>::empty());
                assert(out.deep_view() =~= out.deep_view() + lines_from(s@, j + 1));
            }
            return out;
        }
        i = j + 1;
    }
    proof {
        assert(lines_from(s@, i as int) =~= Seq::<Seq<char>>::empty());
        assert(out.deep_view() =~= out.deep_view() + lines_from(s@, i as int));
    }
    out
}

/// The tokens from `i` on joined with single blanks.
pub open spec fn join_blank_from(parts: Seq<Seq<char>>, i: int) -> Seq<char>
    decreases parts.len() - i,
{
    if i < 0 || i >= parts.len() {
        seq![]
    } else if i == parts.len() - 1 {
        parts[i]
    } else {
        parts[i] + seq![' '] + join_blank_from(parts, i + 1)
    }
}

/// Join the tokens from `from` on with single blanks.
pub fn join_blanks(parts: &Vec<String>, from: usize) -> (r: String)
    ensures
        r@ == join_blank_from(parts.deep_view(), from as int),
    decreases parts@.len() - from,
{
    proof {
        reveal_strlit(" ");
    }
    let n = parts.len();
    if from >= n {
        let r = String::new();
        assert(r@ =~= join_blank_from(parts.deep_view(), from as int));
        r
    } else if from == n - 1 {
        parts[from].clone()
    } else {
        let rest = join_blanks(parts, from + 1);
        assert(" "@ =~= seq![' ']);
        parts[from].clone().concat(" ").concat(rest.as_str())
    }
}

} // verus!
