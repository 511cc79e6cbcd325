//! Small text helpers of the interface: secret masking, the blink cursor,
//! and the YAML preview scanners.

use vstd::prelude::*;
use crate::text::{
    find_char_seq, is_ascii_digit_char, is_ascii_upper_char, is_ws_char, lemma_char_vecs_deep_view,
    lemma_find_char_at, lemma_push_deep_view, repeat_char_seq, str_to_chars, string_from_chars,
    sub_chars, trim_seq,
};

verus! {

/// One line's trailing carriage return removed.
pub open spec fn strip_tail_cr(l: Seq<char>) -> Seq<char> {
    if l.len() > 0 && l[l.len() - 1] == '\r' {
        l.drop_last()
    } else {
        l
    }
}

/// The lines of a text, as `str::lines` cuts them: split at `\n`, one
/// trailing `\r` per line removed, no final empty line for a trailing
/// newline.
pub open spec fn split_lines(s: Seq<char>) -> Seq<Seq<char>>
    decreases s.len(),
{
    if s.len() == 0 {
        Seq::<Seq<char>>::empty()
    } else {
        let i = find_char_seq(s, '\n');
        if 0 <= i < s.len() {
            seq![strip_tail_cr(s.take(i))] + split_lines(s.skip(i + 1))
        } else {
            seq![strip_tail_cr(s)]
        }
    }
}

/// First whitespace position, or the length.
pub open spec fn find_ws(s: Seq<char>) -> int
    decreases s.len(),
{
    if s.len() == 0 {
        0
    } else if is_ws_char(s[0]) {
        0
    } else {
        1 + find_ws(s.drop_first())
    }
}

/// The whitespace-separated words of one line.
pub open spec fn split_ws(s: Seq<char>) -> Seq<Seq<char>>
    decreases s.len(),
{
    if s.len() == 0 {
        Seq::<Seq<char>>::empty()
    } else if is_ws_char(s[0]) {
        split_ws(s.drop_first())
    } else {
        let j = find_ws(s);
        if 1 <= j <= s.len() {
            seq![s.take(j)] + split_ws(s.skip(j))
        } else {
            seq![s]
        }
    }
}

/// An overlong word cut into pieces of exactly `width` characters, the
/// remainder last.
pub open spec fn chunks_of(w: Seq<char>, width: nat) -> Seq<Seq<char>>
    decreases w.len(),
{
    if width == 0 || w.len() == 0 {
        Seq::<Seq<char>>::empty()
    } else if w.len() <= width {
        seq![w]
    } else {
        seq![w.take(width as int)] + chunks_of(w.skip(width as int), width)
    }
}

/// Greedy filling: each word joins the current line when it fits behind a
/// space, else starts a new one; overlong words are cut into width-sized
/// pieces and leave the current line empty.
pub open spec fn fill_words(words: Seq<Seq<char>>, width: nat, current: Seq<char>) -> (
    Seq<Seq<char>>,
    Seq<char>,
)
    decreases words.len(),
{
    if words.len() == 0 {
        (Seq::<Seq<char>>::empty(), current)
    } else {
        let w = words[0];
        let rest = words.drop_first();
        if current.len() == 0 {
            if w.len() <= width {
                fill_words(rest, width, w)
            } else {
                let tail = fill_words(rest, width, Seq::<char>::empty());
                (chunks_of(w, width) + tail.0, tail.1)
            }
        } else if current.len() + 1 + w.len() <= width {
            fill_words(rest, width, current + seq![' '] + w)
        } else {
            if w.len() <= width {
                let tail = fill_words(rest, width, w);
                (seq![current] + tail.0, tail.1)
            } else {
                let tail = fill_words(rest, width, Seq::<char>::empty());
                (seq![current] + chunks_of(w, width) + tail.0, tail.1)
            }
        }
    }
}

/// One raw line wrapped: the filled lines, the unfinished line if any, and
/// an empty output line for an empty input line.
pub open spec fn wrap_line(line: Seq<char>, width: nat) -> Seq<Seq<char>> {
    let filled = fill_words(split_ws(line), width, Seq::<char>::empty());
    if filled.1.len() > 0 {
        filled.0 + seq![filled.1]
    } else if line.len() == 0 {
        filled.0 + seq![Seq::<char>::empty()]
    } else {
        filled.0
    }
}

pub open spec fn wrap_all_lines(lines: Seq<Seq<char>>, width: nat) -> Seq<Seq<char>>
    decreases lines.len(),
{
    if lines.len() == 0 {
        Seq::<Seq<char>>::empty()
    } else {
        wrap_line(lines[0], width) + wrap_all_lines(lines.drop_first(), width)
    }
}

/// The display wrapping of a feed entry: zero width passes the text
/// through; otherwise each line is word-wrapped at `width` characters, and
/// an empty result becomes one empty line.
pub open spec fn wrap_spec(input: Seq<char>, width: nat) -> Seq<Seq<char>> {
    if width == 0 {
        seq![input]
    } else {
        let ls = wrap_all_lines(split_lines(input), width);
        if ls.len() == 0 {
            seq![Seq::<char>::empty()]
        } else {
            ls
        }
    }
}

/// Whether a name looks like an environment-variable reference: non-empty,
/// all capitals, digits and underscores.
pub open spec fn is_env_name(s: Seq<char>) -> bool {
    s.len() > 0 && forall|k: int|
        0 <= k < s.len() ==> ((#[trigger] s[k]) == '_' || is_ascii_upper_char(s[k])
            || is_ascii_digit_char(s[k]))
}

pub fn is_env_var_name(name: &str) -> (r: bool)
    ensures
        r == is_env_name(name@),
{
    let v = str_to_chars(name);
    if v.len() == 0 {
        return false;
    }
    let mut i: usize = 0;
    while i < v.len()
        invariant
            i <= v@.len(),
            v@ == name@,
            v@.len() > 0,
            forall|k: int|
                0 <= k < i ==> ((#[trigger] v@[k]) == '_' || is_ascii_upper_char(v@[k])
                    || is_ascii_digit_char(v@[k])),
        decreases v@.len() - i,
    {
        let c = v[i];
        if !(c == '_' || crate::text::ascii_upper_char(c) || crate::text::ascii_digit_char(c)) {
            return false;
        }
        i += 1;
    }
    true
}

/// A secret replaced by one asterisk per character.
pub fn mask_secret(input: &str) -> (r: String)
    ensures
        r@ == repeat_char_seq('*', input@.len()),
{
    let v = str_to_chars(input);
    let m = crate::text::repeat_char('*', v.len());
    string_from_chars(&m)
}

/// A text field's display: the active field shows a blinking cursor.
pub fn with_blink_cursor(input: &str, active: bool, blink_on: bool) -> (r: String)
    ensures
        !active ==> r@ == input@,
        active && blink_on ==> r@ == input@ + "_"@,
        active && !blink_on ==> r@ == input@ + " "@,
{
    if !active {
        return input.to_owned();
    }
    let mut r = input.to_owned();
    if blink_on {
        r.append("_");
    } else {
        r.append(" ");
    }
    r
}

/// What the key field shows: environment references stay readable, anything
/// else is masked.
pub fn api_key_input_display(input: &str) -> (r: String)
    ensures
        ({
            let t = trim_seq(input@);
            if t.len() == 0 {
                r@.len() == 0
            } else if t[0] == '$' && is_env_name(t.drop_first()) {
                r@ == t
            } else if t[0] != '$' && is_env_name(t) {
                r@ == t
            } else {
                r@ == repeat_char_seq('*', t.len())
            }
        }),
{
    let iv = str_to_chars(input);
    let tv = crate::text::trim_chars(&iv);
    if tv.len() == 0 {
        return String::new();
    }
    let trimmed = string_from_chars(&tv);
    if tv[0] == '$' {
        let rest = sub_chars(&tv, 1, tv.len());
        proof {
            assert(rest@ =~= tv@.drop_first());
        }
        let rest_s = string_from_chars(&rest);
        if is_env_var_name(rest_s.as_str()) {
            return trimmed;
        }
    } else {
        if is_env_var_name(trimmed.as_str()) {
            return trimmed;
        }
    }
    mask_secret(trimmed.as_str())
}

fn find_nl(v: &Vec<char>) -> (r: usize)
    ensures
        r as int == find_char_seq(v@, '\n'),
        r <= v@.len(),
{
    let mut i: usize = 0;
    while i < v.len()
        invariant
            i <= v@.len(),
            forall|k: int| 0 <= k < i ==> #[trigger] v@[k] != '\n',
        decreases v@.len() - i,
    {
        if v[i] == '\n' {
            proof {
                lemma_find_char_at(v@, '\n', i as int);
            }
            return i;
        }
        i += 1;
    }
    proof {
        lemma_find_char_at(v@, '\n', v@.len() as int);
    }
    v.len()
}

fn strip_tail_cr_exec(line: &mut Vec<char>)
    ensures
        final(line)@ == strip_tail_cr(old(line)@),
{
    if line.len() > 0 && line[line.len() - 1] == '\r' {
        line.truncate(line.len() - 1);
        proof {
            assert(line@ =~= old(line)@.drop_last());
        }
    }
}

fn split_lines_exec(v: &Vec<char>) -> (r: Vec<Vec<char>>)
    ensures
        r.deep_view() == split_lines(v@),
    decreases v@.len(),
{
    if v.len() == 0 {
        let r: Vec<Vec<char>> = Vec::new();
        proof {
            assert(r.deep_view() =~= split_lines(v@));
        }
        return r;
    }
    let i = find_nl(v);
    if i < v.len() {
        let mut head = sub_chars(v, 0, i);
        proof {
            assert(head@ =~= v@.take(i as int));
        }
        strip_tail_cr_exec(&mut head);
        let tail_src = sub_chars(v, i + 1, v.len());
        proof {
            assert(tail_src@ =~= v@.skip(i + 1));
        }
        let mut rest = split_lines_exec(&tail_src);
        rest.insert(0, head);
        proof {
            assert(rest.deep_view() =~~= seq![strip_tail_cr(v@.take(i as int))] + split_lines(
                v@.skip(i + 1),
            ));
        }
        rest
    } else {
        let mut head = sub_chars(v, 0, v.len());
        proof {
            assert(head@ =~= v@);
        }
        strip_tail_cr_exec(&mut head);
        let mut r: Vec<Vec<char>> = Vec::new();
        r.push(head);
        proof {
            assert(r.deep_view() =~~= seq![strip_tail_cr(v@)]);
        }
        r
    }
}

proof fn lemma_find_ws_nonneg(s: Seq<char>)
    ensures
        find_ws(s) >= 0,
    decreases s.len(),
{
    if s.len() == 0 {
    } else if is_ws_char(s[0]) {
    } else {
        lemma_find_ws_nonneg(s.drop_first());
    }
}

proof fn lemma_find_ws_at(s: Seq<char>, i: int)
    requires
        0 <= i <= s.len(),
        forall|k: int| 0 <= k < i ==> !is_ws_char(#[trigger] s[k]),
        i == s.len() || is_ws_char(s[i]),
    ensures
        find_ws(s) == i,
    decreases s.len(),
{
    if s.len() == 0 {
    } else if is_ws_char(s[0]) {
    } else {
        lemma_find_ws_at(s.drop_first(), i - 1);
    }
}

fn find_ws_pos(v: &Vec<char>) -> (r: usize)
    ensures
        r as int == find_ws(v@),
        r <= v@.len(),
{
    let mut i: usize = 0;
    while i < v.len()
        invariant
            i <= v@.len(),
            forall|k: int| 0 <= k < i ==> !is_ws_char(#[trigger] v@[k]),
        decreases v@.len() - i,
    {
        if crate::text::is_whitespace_char(v[i]) {
            proof {
                lemma_find_ws_at(v@, i as int);
            }
            return i;
        }
        i += 1;
    }
    proof {
        lemma_find_ws_at(v@, v@.len() as int);
    }
    v.len()
}

fn split_ws_exec(v: &Vec<char>) -> (r: Vec<Vec<char>>)
    ensures
        r.deep_view() == split_ws(v@),
    decreases v@.len(),
{
    if v.len() == 0 {
        let r: Vec<Vec<char>> = Vec::new();
        proof {
            assert(r.deep_view() =~= split_ws(v@));
        }
        return r;
    }
    if crate::text::is_whitespace_char(v[0]) {
        let t = sub_chars(v, 1, v.len());
        proof {
            assert(t@ =~= v@.drop_first());
        }
        return split_ws_exec(&t);
    }
    let j = find_ws_pos(v);
    proof {
        lemma_find_ws_nonneg(v@.drop_first());
        assert(j >= 1);
    }
    let head = sub_chars(v, 0, j);
    let tail = sub_chars(v, j, v.len());
    proof {
        assert(head@ =~= v@.take(j as int));
        assert(tail@ =~= v@.skip(j as int));
    }
    let mut rest = split_ws_exec(&tail);
    rest.insert(0, head);
    proof {
        assert(rest.deep_view() =~~= seq![v@.take(j as int)] + split_ws(v@.skip(j as int)));
    }
    rest
}

fn chunks_exec(w: &Vec<char>, width: usize) -> (r: Vec<Vec<char>>)
    requires
        width > 0,
    ensures
        r.deep_view() == chunks_of(w@, width as nat),
    decreases w@.len(),
{
    if w.len() == 0 {
        let r: Vec<Vec<char>> = Vec::new();
        proof {
            assert(r.deep_view() =~= chunks_of(w@, width as nat));
        }
        r
    } else if w.len() <= width {
        let mut r: Vec<Vec<char>> = Vec::new();
        let c = crate::text::copy_chars(w);
        r.push(c);
        proof {
            assert(r.deep_view() =~~= seq![w@]);
        }
        r
    } else {
        let head = sub_chars(w, 0, width);
        let tail = sub_chars(w, width, w.len());
        proof {
            assert(head@ =~= w@.take(width as int));
            assert(tail@ =~= w@.skip(width as int));
        }
        let mut rest = chunks_exec(&tail, width);
        rest.insert(0, head);
        proof {
            assert(rest.deep_view() =~~= seq![w@.take(width as int)] + chunks_of(
                w@.skip(width as int),
                width as nat,
            ));
        }
        rest
    }
}

fn fill_exec(words: &Vec<Vec<char>>, wi: usize, width: usize, current: Vec<char>) -> (r: (
    Vec<Vec<char>>,
    Vec<char>,
))
    requires
        width > 0,
        wi <= words@.len(),
    ensures
        r.0.deep_view() == fill_words(words.deep_view().skip(wi as int), width as nat, current@).0,
        r.1@ == fill_words(words.deep_view().skip(wi as int), width as nat, current@).1,
    decreases words@.len() - wi,
{
    proof {
        lemma_char_vecs_deep_view(*words);
    }
    if wi == words.len() {
        let r: Vec<Vec<char>> = Vec::new();
        proof {
            assert(words.deep_view().skip(wi as int) =~= Seq::<Seq<char>>::empty());
            assert(r.deep_view() =~= Seq::<Seq<char>>::empty());
        }
        return (r, current);
    }
    proof {
        assert(words.deep_view().skip(wi as int)[0] == words.deep_view()[wi as int]);
        assert(words.deep_view().skip(wi as int).drop_first() =~= words.deep_view().skip(wi + 1));
    }
    let w = &words[wi];
    let fits_behind_space = w.len() < width && current.len() <= width - 1 - w.len();
    if current.len() == 0 {
        if w.len() <= width {
            let wcopy = crate::text::copy_chars(w);
            fill_exec(words, wi + 1, width, wcopy)
        } else {
            let mut pieces = chunks_exec(w, width);
            let tail = fill_exec(words, wi + 1, width, Vec::new());
            let (mut tail_lines, cur) = tail;
            let ghost pre = pieces;
            let ghost tl0 = tail_lines;
            pieces.append(&mut tail_lines);
            proof {
                crate::text::lemma_concat_deep_view(pre, tl0, pieces);
            }
            (pieces, cur)
        }
    } else if fits_behind_space {
        let ghost cur0 = current@;
        let mut joined = current;
        joined.push(' ');
        let mut wcopy = crate::text::copy_chars(w);
        joined.append(&mut wcopy);
        proof {
            assert(joined@ =~= cur0 + seq![' '] + words.deep_view().skip(wi as int)[0]);
        }
        fill_exec(words, wi + 1, width, joined)
    } else {
        if w.len() <= width {
            let ghost cur0 = current@;
            let wcopy = crate::text::copy_chars(w);
            let tail = fill_exec(words, wi + 1, width, wcopy);
            let (tail_lines, cur) = tail;
            let mut out: Vec<Vec<char>> = Vec::new();
            out.push(current);
            let ghost pre = out;
            proof {
                assert(pre.deep_view() =~~= seq![cur0]);
            }
            let mut tl = tail_lines;
            let ghost tl0 = tl;
            out.append(&mut tl);
            proof {
                crate::text::lemma_concat_deep_view(pre, tl0, out);
                assert(out.deep_view() =~= seq![cur0] + fill_words(
                    words.deep_view().skip(wi + 1),
                    width as nat,
                    words.deep_view().skip(wi as int)[0],
                ).0);
            }
            (out, cur)
        } else {
            let ghost cur0 = current@;
            let mut pieces = chunks_exec(w, width);
            let tail = fill_exec(words, wi + 1, width, Vec::new());
            let (mut tail_lines, cur) = tail;
            let mut out: Vec<Vec<char>> = Vec::new();
            out.push(current);
            let ghost pre1 = out;
            proof {
                assert(pre1.deep_view() =~~= seq![cur0]);
            }
            let ghost p0 = pieces;
            out.append(&mut pieces);
            proof {
                crate::text::lemma_concat_deep_view(pre1, p0, out);
            }
            let ghost pre2 = out;
            let ghost tl0 = tail_lines;
            out.append(&mut tail_lines);
            proof {
                crate::text::lemma_concat_deep_view(pre2, tl0, out);
                assert(out.deep_view() =~= (seq![cur0] + chunks_of(
                    words.deep_view().skip(wi as int)[0],
                    width as nat,
                )) + fill_words(
                    words.deep_view().skip(wi + 1),
                    width as nat,
                    Seq::<char>::empty(),
                ).0);
                assert((seq![cur0] + chunks_of(words.deep_view().skip(wi as int)[0], width as nat))
                    + fill_words(words.deep_view().skip(wi + 1), width as nat, Seq::<char>::empty()).0
                    =~= seq![cur0] + chunks_of(words.deep_view().skip(wi as int)[0], width as nat)
                    + fill_words(words.deep_view().skip(wi + 1), width as nat, Seq::<char>::empty()).0);
            }
            (out, cur)
        }
    }
}

fn wrap_line_exec(line: &Vec<char>, width: usize) -> (r: Vec<Vec<char>>)
    requires
        width > 0,
    ensures
        r.deep_view() == wrap_line(line@, width as nat),
{
    let words = split_ws_exec(line);
    let filled = fill_exec(&words, 0, width, Vec::new());
    let (mut lines, cur) = filled;
    proof {
        assert(words.deep_view().skip(0) =~= words.deep_view());
    }
    if cur.len() > 0 {
        let ghost pre = lines;
        lines.push(cur);
        proof {
            lemma_push_deep_view(pre, lines, lines@[lines@.len() - 1]);
            assert(lines@[lines@.len() - 1].deep_view() =~= lines@[lines@.len() - 1]@);
            assert(lines.deep_view() =~= wrap_line(line@, width as nat));
        }
        lines
    } else if line.len() == 0 {
        let ghost pre = lines;
        lines.push(Vec::new());
        proof {
            lemma_push_deep_view(pre, lines, lines@[lines@.len() - 1]);
            assert(lines@[lines@.len() - 1].deep_view() =~= Seq::<char>::empty());
            assert(lines.deep_view() =~= wrap_line(line@, width as nat));
        }
        lines
    } else {
        lines
    }
}

fn wrap_all_exec(lines: &Vec<Vec<char>>, li: usize, width: usize) -> (r: Vec<Vec<char>>)
    requires
        width > 0,
        li <= lines@.len(),
    ensures
        r.deep_view() == wrap_all_lines(lines.deep_view().skip(li as int), width as nat),
    decreases lines@.len() - li,
{
    proof {
        lemma_char_vecs_deep_view(*lines);
    }
    if li == lines.len() {
        let r: Vec<Vec<char>> = Vec::new();
        proof {
            assert(lines.deep_view().skip(li as int) =~= Seq::<Seq<char>>::empty());
            assert(r.deep_view() =~= Seq::<Seq<char>>::empty());
        }
        return r;
    }
    proof {
        assert(lines.deep_view().skip(li as int)[0] == lines.deep_view()[li as int]);
        assert(lines.deep_view().skip(li as int).drop_first() =~= lines.deep_view().skip(li + 1));
    }
    let mut head = wrap_line_exec(&lines[li], width);
    let mut rest = wrap_all_exec(lines, li + 1, width);
    let ghost h0 = head;
    let ghost r0 = rest;
    head.append(&mut rest);
    proof {
        crate::text::lemma_concat_deep_view(h0, r0, head);
    }
    head
}

/// Wrap a feed line for the given display width, as the interface shows
/// it: words fill each line greedily, overlong words are cut into
/// width-sized pieces, empty lines survive, and a zero width passes the
/// text through.
pub fn wrap_for_width(input: &str, width: usize) -> (r: Vec<String>)
    ensures
        r.deep_view() == wrap_spec(input@, width as nat),
{
    let v = str_to_chars(input);
    if width == 0 {
        let mut r: Vec<String> = Vec::new();
        r.push(input.to_owned());
        proof {
            assert(r.deep_view() =~~= seq![input@]);
        }
        return r;
    }
    let raw_lines = split_lines_exec(&v);
    let wrapped = wrap_all_exec(&raw_lines, 0, width);
    proof {
        assert(raw_lines.deep_view().skip(0) =~= raw_lines.deep_view());
    }
    if wrapped.len() == 0 {
        let mut r: Vec<String> = Vec::new();
        r.push(String::new());
        proof {
            assert(r.deep_view() =~~= seq![Seq::<char>::empty()]);
        }
        r
    } else {
        let r = crate::models::strings_of_char_vecs(&wrapped);
        r
    }
}

/// Cut an overlong word into width-sized pieces and append them to the
/// wrapped lines.
pub fn push_split_word(word: &str, width: usize, lines: &mut Vec<String>)
    requires
        width > 0,
    ensures
        final(lines).deep_view() == old(lines).deep_view() + chunks_of(word@, width as nat),
{
    let v = str_to_chars(word);
    let pieces = chunks_exec(&v, width);
    let piece_strings = crate::models::strings_of_char_vecs(&pieces);
    let mut i: usize = 0;
    proof {
        assert(lines.deep_view() =~= old(lines).deep_view() + piece_strings.deep_view().take(0));
    }
    while i < piece_strings.len()
        invariant
            i <= piece_strings@.len(),
            piece_strings.deep_view() == chunks_of(word@, width as nat),
            piece_strings.deep_view().len() == piece_strings@.len(),
            lines.deep_view() == old(lines).deep_view() + piece_strings.deep_view().take(i as int),
        decreases piece_strings@.len() - i,
    {
        let ghost pre = *lines;
        lines.push(piece_strings[i].clone());
        proof {
            lemma_push_deep_view(pre, *lines, lines@[lines@.len() - 1]);
            assert(piece_strings.deep_view().take(i + 1) =~= piece_strings.deep_view().take(
                i as int,
            ).push(piece_strings.deep_view()[i as int]));
            assert(lines.deep_view() =~= old(lines).deep_view()
                + piece_strings.deep_view().take(i + 1));
        }
        i += 1;
    }
    proof {
        assert(piece_strings.deep_view().take(piece_strings@.len() as int)
            =~= piece_strings.deep_view());
    }
}

/// Index of the first `#` that stands outside single and double quotes, or
/// the length: where a YAML line's trailing comment starts.
pub open spec fn comment_scan(s: Seq<char>, in_s: bool, in_d: bool) -> int
    decreases s.len(),
{
    if s.len() == 0 {
        0
    } else if s[0] == '\'' && !in_d {
        1 + comment_scan(s.drop_first(), !in_s, in_d)
    } else if s[0] == '"' && !in_s {
        1 + comment_scan(s.drop_first(), in_s, !in_d)
    } else if s[0] == '#' && !in_s && !in_d {
        0
    } else {
        1 + comment_scan(s.drop_first(), in_s, in_d)
    }
}

/// Split a YAML line body into its content and an optional trailing
/// comment, quotes respected.
pub fn split_yaml_comment(body: &str) -> (r: (String, Option<String>))
    ensures
        ({
            let idx = comment_scan(body@, false, false);
            r.0@ == body@.subrange(0, idx) && (idx == body@.len() ==> r.1 is None) && (idx
                < body@.len() ==> (r.1 matches Some(c) && c@ == body@.subrange(
                idx,
                body@.len() as int,
            )))
        }),
{
    let v = str_to_chars(body);
    let mut in_single = false;
    let mut in_double = false;
    let mut i: usize = 0;
    proof {
        assert(v@.skip(0) =~= v@);
    }
    while i < v.len()
        invariant
            i <= v@.len(),
            v@ == body@,
            comment_scan(body@, false, false) == i + comment_scan(
                v@.skip(i as int),
                in_single,
                in_double,
            ),
        decreases v@.len() - i,
    {
        proof {
            assert(v@.skip(i as int)[0] == v@[i as int]);
            assert(v@.skip(i as int).drop_first() =~= v@.skip(i + 1));
        }
        let c = v[i];
        if c == '\'' && !in_double {
            in_single = !in_single;
        } else if c == '"' && !in_single {
            in_double = !in_double;
        } else if c == '#' && !in_single && !in_double {
            let content = sub_chars(&v, 0, i);
            let comment = sub_chars(&v, i, v.len());
            proof {
                assert(comment@ =~= body@.subrange(i as int, body@.len() as int));
            }
            return (string_from_chars(&content), Some(string_from_chars(&comment)));
        }
        i += 1;
    }
    proof {
        assert(v@.skip(v@.len() as int) =~= Seq::<char>::empty());
        assert(v@.subrange(0, v@.len() as int) =~= v@);
    }
    let content = sub_chars(&v, 0, v.len());
    (string_from_chars(&content), None)
}

/// Index (in characters) of the first `:` outside quotes, if any: where a
/// YAML mapping key ends.
pub open spec fn colon_scan(s: Seq<char>, in_s: bool, in_d: bool) -> int
    decreases s.len(),
{
    if s.len() == 0 {
        0
    } else if s[0] == '\'' && !in_d {
        1 + colon_scan(s.drop_first(), !in_s, in_d)
    } else if s[0] == '"' && !in_s {
        1 + colon_scan(s.drop_first(), in_s, !in_d)
    } else if s[0] == ':' && !in_s && !in_d {
        0
    } else {
        1 + colon_scan(s.drop_first(), in_s, in_d)
    }
}

/// The position of the first unquoted colon, if one exists.
pub fn find_unquoted_colon(input: &str) -> (r: Option<usize>)
    ensures
        ({
            let idx = colon_scan(input@, false, false);
            (idx == input@.len() ==> r is None) && (idx < input@.len() ==> r == Some(idx as usize))
        }),
{
    let v = str_to_chars(input);
    let mut in_single = false;
    let mut in_double = false;
    let mut i: usize = 0;
    proof {
        assert(v@.skip(0) =~= v@);
    }
    while i < v.len()
        invariant
            i <= v@.len(),
            v@ == input@,
            colon_scan(input@, false, false) == i + colon_scan(
                v@.skip(i as int),
                in_single,
                in_double,
            ),
        decreases v@.len() - i,
    {
        proof {
            assert(v@.skip(i as int)[0] == v@[i as int]);
            assert(v@.skip(i as int).drop_first() =~= v@.skip(i + 1));
        }
        let c = v[i];
        if c == '\'' && !in_double {
            in_single = !in_single;
        } else if c == '"' && !in_single {
            in_double = !in_double;
        } else if c == ':' && !in_single && !in_double {
            return Some(i);
        }
        i += 1;
    }
    proof {
        assert(v@.skip(v@.len() as int) =~= Seq::<char>::empty());
    }
    None
}

} // verus!
