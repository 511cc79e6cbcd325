//! Verified text utilities over sequences of characters.
//!
//! Executable code works on `Vec<char>` / `String`; every function is
//! specified against a spec-level function on `Seq<char>`.

use vstd::prelude::*;
use vstd::string::StringExecFns;
use vstd::std_specs::iter::IteratorSpec;

verus! {

broadcast use vstd::string::group_string_axioms;

/// `String::push` appends one character (not specified by vstd).
pub assume_specification[ String::push ](s: &mut String, ch: char)
    ensures
        final(s)@ == old(s)@.push(ch),
;

/// `String::pop` removes and returns the last character (not specified by vstd).
pub assume_specification[ String::pop ](s: &mut String) -> (r: Option<char>)
    ensures
        old(s)@.len() == 0 ==> final(s)@ == old(s)@ && r is None,
        old(s)@.len() > 0 ==> final(s)@ == old(s)@.drop_last() && r == Some(old(s)@.last()),
;

/// The Unicode `White_Space` set, as `char::is_whitespace` recognises it.
pub open spec fn is_ws_char(c: char) -> bool {
    let u = c as u32;
    u == 0x09 || u == 0x0A || u == 0x0B || u == 0x0C || u == 0x0D || u == 0x20 || u == 0x85
        || u == 0xA0 || u == 0x1680 || (0x2000 <= u && u <= 0x200A) || u == 0x2028 || u == 0x2029
        || u == 0x202F || u == 0x205F || u == 0x3000
}

pub fn is_whitespace_char(c: char) -> (r: bool)
    ensures
        r == is_ws_char(c),
{
    let u = c as u32;
    u == 0x09 || u == 0x0A || u == 0x0B || u == 0x0C || u == 0x0D || u == 0x20 || u == 0x85
        || u == 0xA0 || u == 0x1680 || (0x2000 <= u && u <= 0x200A) || u == 0x2028 || u == 0x2029
        || u == 0x202F || u == 0x205F || u == 0x3000
}

pub open spec fn is_ascii_digit_char(c: char) -> bool {
    0x30 <= c as u32 && c as u32 <= 0x39
}

pub fn ascii_digit_char(c: char) -> (r: bool)
    ensures
        r == is_ascii_digit_char(c),
{
    let u = c as u32;
    0x30 <= u && u <= 0x39
}

pub open spec fn is_ascii_upper_char(c: char) -> bool {
    0x41 <= c as u32 && c as u32 <= 0x5A
}

pub fn ascii_upper_char(c: char) -> (r: bool)
    ensures
        r == is_ascii_upper_char(c),
{
    let u = c as u32;
    0x41 <= u && u <= 0x5A
}

pub open spec fn is_ascii_lower_char(c: char) -> bool {
    0x61 <= c as u32 && c as u32 <= 0x7A
}

pub fn ascii_lower_char(c: char) -> (r: bool)
    ensures
        r == is_ascii_lower_char(c),
{
    let u = c as u32;
    0x61 <= u && u <= 0x7A
}

pub open spec fn is_ascii_alnum_char(c: char) -> bool {
    is_ascii_digit_char(c) || is_ascii_upper_char(c) || is_ascii_lower_char(c)
}

pub fn ascii_alnum_char(c: char) -> (r: bool)
    ensures
        r == is_ascii_alnum_char(c),
{
    ascii_digit_char(c) || ascii_upper_char(c) || ascii_lower_char(c)
}

/// ASCII lowercasing of one character.
pub open spec fn lower_char(c: char) -> char {
    if is_ascii_upper_char(c) {
        ((c as u8) + 0x20) as char
    } else {
        c
    }
}

pub fn to_lower_char(c: char) -> (r: char)
    ensures
        r == lower_char(c),
{
    if ascii_upper_char(c) {
        ((c as u8) + 0x20) as char
    } else {
        c
    }
}

/// ASCII lowercasing of a character sequence.
pub open spec fn lower_seq(s: Seq<char>) -> Seq<char> {
    Seq::new(s.len(), |i: int| lower_char(s[i]))
}

pub fn to_lower_chars(v: &Vec<char>) -> (r: Vec<char>)
    ensures
        r@ == lower_seq(v@),
{
    let mut r: Vec<char> = Vec::new();
    let mut i: usize = 0;
    while i < v.len()
        invariant
            i <= v@.len(),
            r@ == lower_seq(v@).take(i as int),
        decreases v@.len() - i,
    {
        r.push(to_lower_char(v[i]));
        proof {
            assert(lower_seq(v@).take(i + 1) =~= lower_seq(v@).take(i as int).push(
                lower_char(v@[i as int]),
            ));
        }
        i += 1;
    }
    proof {
        assert(lower_seq(v@).take(v@.len() as int) =~= lower_seq(v@));
    }
    r
}

/// Collect the characters of a `&str` into a vector.
pub fn str_to_chars(s: &str) -> (v: Vec<char>)
    ensures
        v@ == s@,
{
    let mut it = s.chars();
    let mut v: Vec<char> = Vec::new();
    loop
        invariant
            v@ + it.remaining() == s@,
            it.decrease() is Some,
        decreases it.decrease()->0,
    {
        let ghost prev = it.remaining();
        match it.next() {
            Some(c) => {
                v.push(c);
                proof {
                    assert(v@ + it.remaining() =~= s@);
                }
            },
            None => {
                proof {
                    assert(v@ =~= s@);
                }
                return v;
            },
        }
    }
}

/// Build a `String` from a vector of characters.
pub fn string_from_chars(v: &Vec<char>) -> (s: String)
    ensures
        s@ == v@,
{
    let mut s = String::new();
    let mut i: usize = 0;
    while i < v.len()
        invariant
            i <= v@.len(),
            s@ == v@.take(i as int),
        decreases v@.len() - i,
    {
        s.push(v[i]);
        proof {
            assert(v@.take(i + 1) =~= v@.take(i as int).push(v@[i as int]));
        }
        i += 1;
    }
    proof {
        assert(v@.take(v@.len() as int) =~= v@);
    }
    s
}

/// Concatenation of two string slices.
pub fn str_concat(a: &str, b: &str) -> (r: String)
    ensures
        r@ == a@ + b@,
{
    let mut s = a.to_owned();
    s.append(b);
    s
}

/// Copy of `v[a..b]`.
pub fn sub_chars(v: &Vec<char>, a: usize, b: usize) -> (r: Vec<char>)
    requires
        a <= b <= v@.len(),
    ensures
        r@ == v@.subrange(a as int, b as int),
{
    let mut r: Vec<char> = Vec::new();
    let mut i: usize = a;
    while i < b
        invariant
            a <= i <= b <= v@.len(),
            r@ == v@.subrange(a as int, i as int),
        decreases b - i,
    {
        r.push(v[i]);
        proof {
            assert(v@.subrange(a as int, i + 1) =~= v@.subrange(a as int, i as int).push(
                v@[i as int],
            ));
        }
        i += 1;
    }
    r
}

pub fn eq_chars(a: &Vec<char>, b: &Vec<char>) -> (r: bool)
    ensures
        r == (a@ == b@),
{
    if a.len() != b.len() {
        return false;
    }
    let mut i: usize = 0;
    while i < a.len()
        invariant
            i <= a@.len(),
            a@.len() == b@.len(),
            forall|k: int| 0 <= k < i ==> a@[k] == b@[k],
        decreases a@.len() - i,
    {
        if a[i] != b[i] {
            return false;
        }
        i += 1;
    }
    proof {
        assert(a@ =~= b@);
    }
    true
}

/// Whether the characters of `a` and `b` agree up to ASCII case.
pub fn eq_ignore_case(a: &Vec<char>, b: &Vec<char>) -> (r: bool)
    ensures
        r == (lower_seq(a@) == lower_seq(b@)),
{
    let la = to_lower_chars(a);
    let lb = to_lower_chars(b);
    eq_chars(&la, &lb)
}

/// Leading whitespace removed.
pub open spec fn trim_start_seq(s: Seq<char>) -> Seq<char>
    decreases s.len(),
{
    if s.len() > 0 && is_ws_char(s[0]) {
        trim_start_seq(s.drop_first())
    } else {
        s
    }
}

/// Trailing whitespace removed.
pub open spec fn trim_end_seq(s: Seq<char>) -> Seq<char>
    decreases s.len(),
{
    if s.len() > 0 && is_ws_char(s[s.len() - 1]) {
        trim_end_seq(s.drop_last())
    } else {
        s
    }
}

/// Whitespace removed at both ends, as `str::trim` does.
pub open spec fn trim_seq(s: Seq<char>) -> Seq<char> {
    trim_end_seq(trim_start_seq(s))
}

pub fn trim_chars(v: &Vec<char>) -> (r: Vec<char>)
    ensures
        r@ == trim_seq(v@),
{
    let mut lo: usize = 0;
    proof {
        assert(v@.subrange(0, v@.len() as int) =~= v@);
    }
    while lo < v.len() && is_whitespace_char(v[lo])
        invariant
            lo <= v@.len(),
            trim_start_seq(v@) == trim_start_seq(v@.subrange(lo as int, v@.len() as int)),
        decreases v@.len() - lo,
    {
        proof {
            assert(v@.subrange(lo as int, v@.len() as int).drop_first() =~= v@.subrange(
                lo + 1,
                v@.len() as int,
            ));
        }
        lo += 1;
    }
    proof {
        let tail = v@.subrange(lo as int, v@.len() as int);
        if lo < v@.len() {
            assert(tail.len() > 0 && !is_ws_char(tail[0]));
        }
        assert(trim_start_seq(v@) == tail);
    }
    let mut hi: usize = v.len();
    while hi > lo && is_whitespace_char(v[hi - 1])
        invariant
            lo <= hi <= v@.len(),
            trim_start_seq(v@) == v@.subrange(lo as int, v@.len() as int),
            trim_end_seq(v@.subrange(lo as int, v@.len() as int)) == trim_end_seq(
                v@.subrange(lo as int, hi as int),
            ),
        decreases hi,
    {
        proof {
            assert(v@.subrange(lo as int, hi as int).drop_last() =~= v@.subrange(
                lo as int,
                hi - 1,
            ));
        }
        hi -= 1;
    }
    proof {
        let mid = v@.subrange(lo as int, hi as int);
        if hi > lo {
            assert(mid.len() > 0 && !is_ws_char(mid[mid.len() - 1]));
        }
        assert(trim_end_seq(mid) == mid);
    }
    sub_chars(v, lo, hi)
}

/// `str::trim` on a string slice.
pub fn trim_str(s: &str) -> (r: String)
    ensures
        r@ == trim_seq(s@),
{
    let v = str_to_chars(s);
    let t = trim_chars(&v);
    string_from_chars(&t)
}

/// Index of the first occurrence of `c`, or the length when absent.
pub open spec fn find_char_seq(s: Seq<char>, c: char) -> int
    decreases s.len(),
{
    if s.len() == 0 {
        0
    } else if s[0] == c {
        0
    } else {
        1 + find_char_seq(s.drop_first(), c)
    }
}

pub proof fn lemma_find_char_at(s: Seq<char>, c: char, i: int)
    requires
        0 <= i <= s.len(),
        forall|k: int| 0 <= k < i ==> s[k] != c,
        i == s.len() || s[i] == c,
    ensures
        find_char_seq(s, c) == i,
    decreases s.len(),
{
    if s.len() == 0 {
    } else if s[0] == c {
    } else {
        lemma_find_char_at(s.drop_first(), c, i - 1);
    }
}

/// Splitting on a separator character, keeping empty parts, as
/// `str::split` does.
pub open spec fn split_char_seq(s: Seq<char>, c: char) -> Seq<Seq<char>>
    decreases s.len(),
{
    if s.len() == 0 {
        seq![Seq::<char>::empty()]
    } else if s[0] == c {
        seq![Seq::<char>::empty()] + split_char_seq(s.drop_first(), c)
    } else {
        let rest = split_char_seq(s.drop_first(), c);
        seq![seq![s[0]] + rest[0]] + rest.skip(1)
    }
}

pub proof fn lemma_split_char_len(s: Seq<char>, c: char)
    ensures
        split_char_seq(s, c).len() >= 1,
    decreases s.len(),
{
    if s.len() == 0 {
    } else {
        lemma_split_char_len(s.drop_first(), c);
    }
}

fn split_rec(v: &Vec<char>, i: usize, c: char) -> (parts: Vec<Vec<char>>)
    requires
        i <= v@.len(),
    ensures
        parts.deep_view() == split_char_seq(v@.skip(i as int), c),
        parts@.len() >= 1,
    decreases v@.len() - i,
{
    if i == v.len() {
        let mut parts: Vec<Vec<char>> = Vec::new();
        parts.push(Vec::new());
        proof {
            assert(v@.skip(i as int) =~= Seq::<char>::empty());
            assert(parts.deep_view() =~~= split_char_seq(v@.skip(i as int), c));
        }
        parts
    } else if v[i] == c {
        let mut parts = split_rec(v, i + 1, c);
        parts.insert(0, Vec::new());
        proof {
            assert(v@.skip(i as int).drop_first() =~= v@.skip(i + 1));
            assert(parts.deep_view() =~~= split_char_seq(v@.skip(i as int), c));
        }
        parts
    } else {
        let mut parts = split_rec(v, i + 1, c);
        let mut first = parts.remove(0);
        first.insert(0, v[i]);
        parts.insert(0, first);
        proof {
            let tail = v@.skip(i as int);
            assert(tail.drop_first() =~= v@.skip(i + 1));
            let rest = split_char_seq(v@.skip(i + 1), c);
            assert(first@ =~= seq![tail[0]] + rest[0]);
            assert(parts.deep_view() =~~= seq![seq![tail[0]] + rest[0]] + rest.skip(1));
        }
        parts
    }
}

/// `str::split` on one character, as a vector of parts.
pub fn split_on_char(v: &Vec<char>, c: char) -> (parts: Vec<Vec<char>>)
    ensures
        parts.deep_view() == split_char_seq(v@, c),
        parts@.len() >= 1,
{
    let parts = split_rec(v, 0, c);
    proof {
        assert(v@.skip(0) =~= v@);
    }
    parts
}

/// Parts joined with a separator.
pub open spec fn join_seqs(parts: Seq<Seq<char>>, sep: Seq<char>) -> Seq<char>
    decreases parts.len(),
{
    if parts.len() == 0 {
        Seq::<char>::empty()
    } else if parts.len() == 1 {
        parts[0]
    } else {
        parts[0] + sep + join_seqs(parts.skip(1), sep)
    }
}

pub proof fn lemma_join_push(parts: Seq<Seq<char>>, sep: Seq<char>, x: Seq<char>)
    ensures
        join_seqs(parts.push(x), sep) == if parts.len() == 0 {
            x
        } else {
            join_seqs(parts, sep) + sep + x
        },
    decreases parts.len(),
{
    if parts.len() == 0 {
        assert(parts.push(x)[0] == x);
        assert(join_seqs(parts.push(x), sep) == x);
    } else if parts.len() == 1 {
        assert(parts.push(x).skip(1) =~= seq![x]);
        assert(join_seqs(seq![x], sep) == x);
        assert(parts.push(x)[0] == parts[0]);
        assert(join_seqs(parts.push(x), sep) == parts[0] + sep + x);
    } else {
        lemma_join_push(parts.skip(1), sep, x);
        assert(parts.push(x).skip(1) =~= parts.skip(1).push(x));
        assert(parts.push(x)[0] == parts[0]);
        assert(join_seqs(parts.push(x), sep) == parts[0] + sep + join_seqs(
            parts.skip(1).push(x),
            sep,
        ));
        assert(join_seqs(parts.skip(1).push(x), sep) == join_seqs(parts.skip(1), sep) + sep + x);
        assert(parts[0] + sep + (join_seqs(parts.skip(1), sep) + sep + x) =~= (parts[0] + sep
            + join_seqs(parts.skip(1), sep)) + sep + x);
    }
}

/// Join a vector of strings with a separator.
pub fn join_strings(parts: &Vec<String>, sep: &str) -> (r: String)
    ensures
        r@ == join_seqs(parts.deep_view(), sep@),
{
    if parts.len() == 0 {
        let r = String::new();
        proof {
            assert(parts.deep_view() =~= Seq::<Seq<char>>::empty());
        }
        return r;
    }
    let mut r: String = parts[0].clone();
    let mut i: usize = 1;
    proof {
        assert(parts.deep_view().take(1) =~= seq![parts@[0]@]);
    }
    while i < parts.len()
        invariant
            1 <= i <= parts@.len(),
            parts.deep_view().len() == parts@.len(),
            r@ == join_seqs(parts.deep_view().take(i as int), sep@),
        decreases parts@.len() - i,
    {
        r.append(sep);
        r.append(parts[i].as_str());
        proof {
            lemma_join_push(parts.deep_view().take(i as int), sep@, parts.deep_view()[i as int]);
            assert(parts.deep_view().take(i + 1) =~= parts.deep_view().take(i as int).push(
                parts.deep_view()[i as int],
            ));
        }
        i += 1;
    }
    proof {
        assert(parts.deep_view().take(parts@.len() as int) =~= parts.deep_view());
    }
    r
}

/// Whether `n` occurs as a contiguous subsequence of `h`.
pub open spec fn contains_seq(h: Seq<char>, n: Seq<char>) -> bool {
    exists|i: int| 0 <= i <= h.len() - n.len() && #[trigger] h.subrange(i, i + n.len()) == n
}

pub open spec fn starts_with_seq(h: Seq<char>, n: Seq<char>) -> bool {
    n.len() <= h.len() && h.subrange(0, n.len() as int) == n
}

pub open spec fn ends_with_seq(h: Seq<char>, n: Seq<char>) -> bool {
    n.len() <= h.len() && h.subrange(h.len() - n.len(), h.len() as int) == n
}

fn match_at(h: &Vec<char>, n: &Vec<char>, i: usize) -> (r: bool)
    requires
        i + n@.len() <= h@.len(),
    ensures
        r == (h@.subrange(i as int, i + n@.len()) == n@),
{
    let hl: usize = h.len();
    let nl: usize = n.len();
    let mut j: usize = 0;
    while j < nl
        invariant
            j <= nl,
            nl == n@.len(),
            hl == h@.len(),
            i + nl <= hl,
            forall|k: int| 0 <= k < j ==> h@[i + k] == n@[k],
        decreases nl - j,
    {
        if h[i + j] != n[j] {
            proof {
                assert(h@.subrange(i as int, i + n@.len())[j as int] != n@[j as int]);
            }
            return false;
        }
        j += 1;
    }
    proof {
        assert(h@.subrange(i as int, i + n@.len()) =~= n@);
    }
    true
}

pub fn contains_sub(h: &Vec<char>, n: &Vec<char>) -> (r: bool)
    ensures
        r == contains_seq(h@, n@),
{
    if n.len() > h.len() {
        proof {
            assert(!contains_seq(h@, n@));
        }
        return false;
    }
    if n.len() == 0 {
        proof {
            assert(h@.subrange(0, 0 + n@.len() as int) =~= n@);
        }
        return true;
    }
    let mut i: usize = 0;
    while i <= h.len() - n.len()
        invariant
            0 < n@.len() <= h@.len(),
            i <= h@.len() - n@.len() + 1,
            forall|k: int| 0 <= k < i ==> #[trigger] h@.subrange(k, k + n@.len()) != n@,
        decreases h@.len() - n@.len() + 1 - i,
    {
        if match_at(h, n, i) {
            return true;
        }
        i += 1;
    }
    false
}

pub fn starts_with_sub(h: &Vec<char>, n: &Vec<char>) -> (r: bool)
    ensures
        r == starts_with_seq(h@, n@),
{
    if n.len() > h.len() {
        return false;
    }
    match_at(h, n, 0)
}

pub fn ends_with_sub(h: &Vec<char>, n: &Vec<char>) -> (r: bool)
    ensures
        r == ends_with_seq(h@, n@),
{
    if n.len() > h.len() {
        return false;
    }
    match_at(h, n, h.len() - n.len())
}

/// Whether `n` occurs inside `h`, both given as string slices.
pub fn contains_str(h: &str, n: &str) -> (r: bool)
    ensures
        r == contains_seq(h@, n@),
{
    let hv = str_to_chars(h);
    let nv = str_to_chars(n);
    contains_sub(&hv, &nv)
}

/// Every occurrence of the character `c` replaced by `repl`, as
/// `str::replace` with a one-character pattern.
pub open spec fn replace_char_seq(s: Seq<char>, c: char, repl: Seq<char>) -> Seq<char>
    decreases s.len(),
{
    if s.len() == 0 {
        s
    } else if s[0] == c {
        repl + replace_char_seq(s.drop_first(), c, repl)
    } else {
        seq![s[0]] + replace_char_seq(s.drop_first(), c, repl)
    }
}

pub fn replace_char_in(v: &Vec<char>, c: char, repl: &Vec<char>) -> (r: Vec<char>)
    ensures
        r@ == replace_char_seq(v@, c, repl@),
    decreases v@.len(),
{
    if v.len() == 0 {
        Vec::new()
    } else {
        let tail = sub_chars(v, 1, v.len());
        proof {
            assert(tail@ =~= v@.drop_first());
        }
        let mut rest = replace_char_in(&tail, c, repl);
        if v[0] == c {
            let mut r = sub_chars(repl, 0, repl.len());
            proof {
                assert(r@ =~= repl@);
            }
            r.append(&mut rest);
            proof {
                assert(r@ =~= replace_char_seq(v@, c, repl@));
            }
            r
        } else {
            let mut r: Vec<char> = Vec::new();
            r.push(v[0]);
            r.append(&mut rest);
            proof {
                assert(r@ =~= replace_char_seq(v@, c, repl@));
            }
            r
        }
    }
}

/// Leftmost, non-overlapping replacement of `pat` by `repl`, as
/// `str::replace` with a non-empty pattern.
pub open spec fn replace_pat_seq(s: Seq<char>, pat: Seq<char>, repl: Seq<char>) -> Seq<char>
    decreases s.len(),
{
    if pat.len() == 0 || s.len() < pat.len() {
        s
    } else if s.subrange(0, pat.len() as int) == pat {
        repl + replace_pat_seq(s.skip(pat.len() as int), pat, repl)
    } else {
        seq![s[0]] + replace_pat_seq(s.drop_first(), pat, repl)
    }
}

pub fn replace_pat_in(v: &Vec<char>, pat: &Vec<char>, repl: &Vec<char>) -> (r: Vec<char>)
    requires
        pat@.len() > 0,
    ensures
        r@ == replace_pat_seq(v@, pat@, repl@),
    decreases v@.len(),
{
    if v.len() < pat.len() {
        let r = sub_chars(v, 0, v.len());
        proof {
            assert(r@ =~= v@);
        }
        r
    } else if match_at(v, pat, 0) {
        let tail = sub_chars(v, pat.len(), v.len());
        proof {
            assert(tail@ =~= v@.skip(pat@.len() as int));
        }
        let mut rest = replace_pat_in(&tail, pat, repl);
        let mut r = sub_chars(repl, 0, repl.len());
        proof {
            assert(r@ =~= repl@);
        }
        r.append(&mut rest);
        proof {
            assert(r@ =~= replace_pat_seq(v@, pat@, repl@));
        }
        r
    } else {
        let tail = sub_chars(v, 1, v.len());
        proof {
            assert(tail@ =~= v@.drop_first());
        }
        let mut rest = replace_pat_in(&tail, pat, repl);
        let mut r: Vec<char> = Vec::new();
        r.push(v[0]);
        r.append(&mut rest);
        proof {
            assert(r@ =~= replace_pat_seq(v@, pat@, repl@));
        }
        r
    }
}

pub open spec fn dec_digit(n: int) -> char {
    ((0x30 + n) as u8) as char
}

/// Decimal rendering of a natural number, most significant digit first.
pub open spec fn dec_of(n: nat) -> Seq<char>
    decreases n,
{
    if n < 10 {
        seq![dec_digit(n as int)]
    } else {
        dec_of(n / 10).push(dec_digit((n % 10) as int))
    }
}

fn dec_digit_exec(n: u64) -> (c: char)
    requires
        n < 10,
    ensures
        c == dec_digit(n as int),
{
    ((0x30 + n as u8)) as char
}

pub fn u64_to_dec_chars(n: u64) -> (v: Vec<char>)
    ensures
        v@ == dec_of(n as nat),
    decreases n,
{
    if n < 10 {
        let mut v: Vec<char> = Vec::new();
        v.push(dec_digit_exec(n));
        proof {
            assert(v@ =~= dec_of(n as nat));
        }
        v
    } else {
        let mut v = u64_to_dec_chars(n / 10);
        v.push(dec_digit_exec(n % 10));
        v
    }
}

/// Decimal rendering of a `u64` as a `String`.
pub fn u64_to_string(n: u64) -> (s: String)
    ensures
        s@ == dec_of(n as nat),
{
    let v = u64_to_dec_chars(n);
    string_from_chars(&v)
}

/// `n` copies of the character `c`.
pub open spec fn repeat_char_seq(c: char, n: nat) -> Seq<char> {
    Seq::new(n, |i: int| c)
}

pub fn repeat_char(c: char, n: usize) -> (v: Vec<char>)
    ensures
        v@ == repeat_char_seq(c, n as nat),
{
    let mut v: Vec<char> = Vec::new();
    let mut i: usize = 0;
    while i < n
        invariant
            i <= n,
            v@ == repeat_char_seq(c, i as nat),
        decreases n - i,
    {
        v.push(c);
        proof {
            assert(repeat_char_seq(c, (i + 1) as nat) =~= repeat_char_seq(c, i as nat).push(c));
        }
        i += 1;
    }
    v
}

/// Copy of a character vector.
pub fn copy_chars(v: &Vec<char>) -> (r: Vec<char>)
    ensures
        r@ == v@,
{
    let r = sub_chars(v, 0, v.len());
    proof {
        assert(r@ =~= v@);
    }
    r
}

/// Join a vector of character vectors with a separator.
pub fn join_char_vecs(parts: &Vec<Vec<char>>, sep: &Vec<char>) -> (r: Vec<char>)
    ensures
        r@ == join_seqs(parts.deep_view(), sep@),
{
    if parts.len() == 0 {
        let r: Vec<char> = Vec::new();
        proof {
            assert(parts.deep_view() =~= Seq::<Seq<char>>::empty());
        }
        return r;
    }
    let mut r: Vec<char> = copy_chars(&parts[0]);
    let mut i: usize = 1;
    proof {
        assert(parts@[0].deep_view() =~= parts@[0]@);
        assert(parts.deep_view().take(1) =~= seq![parts@[0].deep_view()]);
        assert(join_seqs(parts.deep_view().take(1), sep@) == parts@[0].deep_view());
    }
    while i < parts.len()
        invariant
            1 <= i <= parts@.len(),
            parts.deep_view().len() == parts@.len(),
            r@ == join_seqs(parts.deep_view().take(i as int), sep@),
        decreases parts@.len() - i,
    {
        let mut sc = copy_chars(sep);
        r.append(&mut sc);
        let mut pc = copy_chars(&parts[i]);
        r.append(&mut pc);
        proof {
            assert(parts@[i as int].deep_view() =~= parts@[i as int]@);
            lemma_join_push(parts.deep_view().take(i as int), sep@, parts.deep_view()[i as int]);
            assert(parts.deep_view().take(i + 1) =~= parts.deep_view().take(i as int).push(
                parts.deep_view()[i as int],
            ));
        }
        i += 1;
    }
    proof {
        assert(parts.deep_view().take(parts@.len() as int) =~= parts.deep_view());
    }
    r
}

/// All leading copies of `c` removed, as `str::trim_start_matches` with a
/// character pattern.
pub open spec fn strip_leading_char(s: Seq<char>, c: char) -> Seq<char>
    decreases s.len(),
{
    if s.len() > 0 && s[0] == c {
        strip_leading_char(s.drop_first(), c)
    } else {
        s
    }
}

pub fn strip_leading(v: &Vec<char>, c: char) -> (r: Vec<char>)
    ensures
        r@ == strip_leading_char(v@, c),
{
    let mut lo: usize = 0;
    proof {
        assert(v@.subrange(0, v@.len() as int) =~= v@);
    }
    while lo < v.len() && v[lo] == c
        invariant
            lo <= v@.len(),
            strip_leading_char(v@, c) == strip_leading_char(
                v@.subrange(lo as int, v@.len() as int),
                c,
            ),
        decreases v@.len() - lo,
    {
        proof {
            assert(v@.subrange(lo as int, v@.len() as int).drop_first() =~= v@.subrange(
                lo + 1,
                v@.len() as int,
            ));
        }
        lo += 1;
    }
    proof {
        let tail = v@.subrange(lo as int, v@.len() as int);
        if lo < v@.len() {
            assert(tail.len() > 0 && tail[0] != c);
        }
        assert(strip_leading_char(v@, c) == tail);
    }
    sub_chars(v, lo, v.len())
}

/// How a vector of vectors looks one level down: each element as its view.
pub proof fn lemma_char_vecs_deep_view(v: Vec<Vec<char>>)
    ensures
        v.deep_view().len() == v@.len(),
        forall|k: int| 0 <= k < v@.len() ==> v.deep_view()[k] == #[trigger] v@[k]@,
{
    assert forall|k: int| 0 <= k < v@.len() implies v.deep_view()[k] == #[trigger] v@[k]@ by {
        assert(v@[k].deep_view() =~= v@[k]@);
    }
}

/// Pushing onto a vector pushes onto its deep view.
pub proof fn lemma_push_deep_view<T: DeepView>(pre: Vec<T>, post: Vec<T>, x: T)
    requires
        post@ == pre@.push(x),
    ensures
        post.deep_view() =~= pre.deep_view().push(x.deep_view()),
{
    assert forall|k: int| 0 <= k < post@.len() implies post.deep_view()[k] == pre.deep_view().push(
        x.deep_view(),
    )[k] by {
        if k < pre@.len() {
            assert(post@[k] == pre@[k]);
        } else {
            assert(post@[k] == x);
        }
    }
}

/// Concatenating vectors concatenates their deep views.
pub proof fn lemma_concat_deep_view<T: DeepView>(a: Vec<T>, b: Vec<T>, c: Vec<T>)
    requires
        c@ == a@ + b@,
    ensures
        c.deep_view() =~= a.deep_view() + b.deep_view(),
{
    assert forall|k: int| 0 <= k < c@.len() implies c.deep_view()[k] == (a.deep_view()
        + b.deep_view())[k] by {
        if k < a@.len() {
            assert(c@[k] == a@[k]);
        } else {
            assert(c@[k] == b@[k - a@.len()]);
        }
    }
}

/// Whether some character of `h` is whitespace.
pub open spec fn has_ws(h: Seq<char>) -> bool {
    exists|k: int| 0 <= k < h.len() && is_ws_char(#[trigger] h[k])
}

/// Whether any character of `v` is whitespace.
pub fn any_ws(v: &Vec<char>) -> (r: bool)
    ensures
        r == has_ws(v@),
{
    let mut i: usize = 0;
    while i < v.len()
        invariant
            i <= v@.len(),
            forall|k: int| 0 <= k < i ==> !is_ws_char(v@[k]),
        decreases v@.len() - i,
    {
        if is_whitespace_char(v[i]) {
            return true;
        }
        i += 1;
    }
    false
}

/// Whether any entry of `acc` equals `x` up to ASCII case.
pub fn contains_ci(acc: &Vec<Vec<char>>, x: &Vec<char>) -> (r: bool)
    ensures
        r == exists|j: int| 0 <= j < acc@.len() && lower_seq(#[trigger] acc@[j]@) == lower_seq(x@),
{
    let mut i: usize = 0;
    while i < acc.len()
        invariant
            i <= acc@.len(),
            forall|j: int| 0 <= j < i ==> lower_seq(#[trigger] acc@[j]@) != lower_seq(x@),
        decreases acc@.len() - i,
    {
        if eq_ignore_case(&acc[i], x) {
            return true;
        }
        i += 1;
    }
    false
}

/// Lexicographic order on character sequences, by code point.
pub open spec fn seq_le(a: Seq<char>, b: Seq<char>) -> bool
    decreases a.len(),
{
    if a.len() == 0 {
        true
    } else if b.len() == 0 {
        false
    } else if (a[0] as u32) < (b[0] as u32) {
        true
    } else if (a[0] as u32) > (b[0] as u32) {
        false
    } else {
        seq_le(a.drop_first(), b.drop_first())
    }
}

pub proof fn lemma_seq_le_total(a: Seq<char>, b: Seq<char>)
    ensures
        seq_le(a, b) || seq_le(b, a),
    decreases a.len(),
{
    if a.len() == 0 || b.len() == 0 {
    } else if a[0] as u32 == b[0] as u32 {
        lemma_seq_le_total(a.drop_first(), b.drop_first());
    }
}

pub proof fn lemma_seq_le_trans(a: Seq<char>, b: Seq<char>, c: Seq<char>)
    requires
        seq_le(a, b),
        seq_le(b, c),
    ensures
        seq_le(a, c),
    decreases a.len(),
{
    if a.len() == 0 {
    } else if b.len() == 0 {
    } else if c.len() == 0 {
    } else {
        if a[0] as u32 == b[0] as u32 && b[0] as u32 == c[0] as u32 {
            lemma_seq_le_trans(a.drop_first(), b.drop_first(), c.drop_first());
        }
    }
}

pub fn chars_le(a: &Vec<char>, b: &Vec<char>) -> (r: bool)
    ensures
        r == seq_le(a@, b@),
{
    let mut i: usize = 0;
    proof {
        assert(a@.skip(0) =~= a@);
        assert(b@.skip(0) =~= b@);
    }
    loop
        invariant
            i <= a@.len(),
            i <= b@.len(),
            seq_le(a@, b@) == seq_le(a@.skip(i as int), b@.skip(i as int)),
            seq_le(b@, a@) == seq_le(b@.skip(i as int), a@.skip(i as int)),
        decreases a@.len() - i,
    {
        if i == a.len() {
            return true;
        }
        if i == b.len() {
            return false;
        }
        let ca = a[i] as u32;
        let cb = b[i] as u32;
        if ca < cb {
            return true;
        }
        if ca > cb {
            return false;
        }
        proof {
            assert(a@.skip(i as int).drop_first() =~= a@.skip(i + 1));
            assert(b@.skip(i as int).drop_first() =~= b@.skip(i + 1));
        }
        i += 1;
    }
}

} // verus!
