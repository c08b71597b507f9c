//! Reading the output of Linux terminal commands.
use vstd::prelude::*;
use crate::text::{
    concat2, parse_octal, parse_octal_chars, chars_of, lines_of, owned, slice_chars, split_lines, split_once, split_once_chars, starts_with,
    starts_with_chars, string_of, trim, trim_chars,
};
use crate::params::strings_view;
use vstd::string::StringSliceAdditionalSpecFns;
use vstd::utf8::{
    decode_utf8, encode_utf8, encode_utf8_decode_utf8, encode_utf8_valid_utf8, is_char_boundary,
    is_char_boundary_iff_not_is_continuation_byte, is_char_boundary_start_end_of_seq, valid_utf8, valid_utf8_split,
};

verus! {

/// How often `c` occurs in `s`.
pub open spec fn count_char(s: Seq<char>, c: char) -> nat
    decreases s.len(),
{
    if s.len() == 0 {
        0
    } else {
        count_char(s.drop_last(), c) + (if s.last() == c {
            1nat
        } else {
            0nat
        })
    }
}

/// Where the last `(` before position `i` is, or 0 when there is none.
pub open spec fn open_before(s: Seq<char>, i: int) -> int
    decreases i,
{
    if i <= 0 {
        0
    } else if s[i - 1] == '(' {
        i - 1
    } else {
        open_before(s, i - 1)
    }
}

/// The text between two character positions of `s`, each taken as an
/// offset into the UTF-8 bytes of `s` (as slicing a `str` takes it).
pub open spec fn byte_cut(s: Seq<char>, from: int, to: int) -> Seq<char> {
    decode_utf8(encode_utf8(s).subrange(from, to))
}

/// For every `)` among the first `n` characters, in order: the text from
/// after the last `(` before it (or from position 1 when there is none) up
/// to it, the positions counted in characters and cut in bytes.
pub open spec fn bracket_items_upto(s: Seq<char>, n: int) -> Seq<Seq<char>>
    decreases n,
{
    if n <= 0 {
        seq![]
    } else {
        let rest = bracket_items_upto(s, n - 1);
        if s[n - 1] == ')' {
            rest.push(byte_cut(s, open_before(s, n - 1) + 1, n - 1))
        } else {
            rest
        }
    }
}

/// The cut for the `)` at position `i` can be made: the text after the
/// last `(` starts no later than the `)`, and both ends fall on character
/// boundaries of the UTF-8 bytes.
pub open spec fn bracket_cut_ok(s: Seq<char>, i: int) -> bool {
    let from = open_before(s, i) + 1;
    &&& from <= i
    &&& is_char_boundary(encode_utf8(s), from)
    &&& is_char_boundary(encode_utf8(s), i)
}

/// Every `)` among the first `n` characters can be cut at.
pub open spec fn bracket_cuts_ok(s: Seq<char>, n: int) -> bool
    decreases n,
{
    if n <= 0 {
        true
    } else {
        bracket_cuts_ok(s, n - 1) && (s[n - 1] == ')' ==> bracket_cut_ok(s, n - 1))
    }
}

/// The texts inside brackets, when the text has at least one `(` and as
/// many `)` as `(`.
pub open spec fn bracket_contents(s: Seq<char>) -> Option<Seq<Seq<char>>> {
    if count_char(s, '(') == 0 || count_char(s, '(') != count_char(s, ')') {
        None
    } else {
        Some(bracket_items_upto(s, s.len() as int))
    }
}

/// Bracket extraction is defined on the text: when the brackets balance,
/// every cut can be made.
pub open spec fn bracket_text_ok(s: Seq<char>) -> bool {
    bracket_contents(s) is Some ==> bracket_cuts_ok(s, s.len() as int)
}

proof fn lemma_bracket_cut_at(s: Seq<char>, n: int, i: int)
    requires
        bracket_cuts_ok(s, n),
        0 <= i < n <= s.len(),
        s[i] == ')',
    ensures
        bracket_cut_ok(s, i),
    decreases n,
{
    if i < n - 1 {
        lemma_bracket_cut_at(s, n - 1, i);
    }
}

/// A boundary of the bytes is a boundary of the bytes up to a later
/// boundary.
proof fn lemma_prefix_boundary(b: Seq<u8>, from: int, to: int)
    requires
        valid_utf8(b),
        is_char_boundary(b, from),
        is_char_boundary(b, to),
        0 <= from <= to,
    ensures
        valid_utf8(b.subrange(0, to)),
        is_char_boundary(b.subrange(0, to), from),
{
    valid_utf8_split(b, to);
    let p = b.subrange(0, to);
    if from == to {
        is_char_boundary_start_end_of_seq(p);
    } else if from > 0 {
        assert(to <= b.len());
        is_char_boundary_iff_not_is_continuation_byte(b, from);
        is_char_boundary_iff_not_is_continuation_byte(p, from);
        assert(p[from] == b[from]);
    }
}

/// The text of `string` between two byte offsets that fall on character
/// boundaries.
fn cut_text(string: &str, from: usize, to: usize) -> (r: String)
    requires
        from <= to,
        is_char_boundary(encode_utf8(string@), from as int),
        is_char_boundary(encode_utf8(string@), to as int),
    ensures
        r@ == byte_cut(string@, from as int, to as int),
{
    proof {
        encode_utf8_valid_utf8(string@);
        lemma_prefix_boundary(encode_utf8(string@), from as int, to as int);
    }
    let (head, _) = string.split_at(to);
    let (_, item) = head.split_at(from);
    proof {
        let b = encode_utf8(string@);
        assert(item.spec_bytes() =~= b.subrange(from as int, to as int));
        encode_utf8_decode_utf8(item@);
    }
    owned(item)
}

proof fn lemma_open_before_range(s: Seq<char>, i: int)
    requires
        0 <= i <= s.len(),
    ensures
        0 <= open_before(s, i) <= i,
        i > 0 ==> open_before(s, i) < i,
        open_before(s, i) > 0 ==> s[open_before(s, i)] == '(',
    decreases i,
{
    if i > 0 && s[i - 1] != '(' {
        lemma_open_before_range(s, i - 1);
    }
}

fn count_char_exec(s: &[char], c: char) -> (r: usize)
    ensures
        r == count_char(s@, c),
{
    let mut n: usize = 0;
    let mut i: usize = 0;
    while i < s.len()
        invariant
            i <= s.len(),
            n == count_char(s@.take(i as int), c),
            n <= i,
        decreases s.len() - i,
    {
        proof {
            assert(s@.take(i + 1).drop_last() =~= s@.take(i as int));
        }
        if s[i] == c {
            n = n + 1;
        }
        i = i + 1;
    }
    assert(s@.take(s.len() as int) =~= s@);
    n
}

/// Whether bracket extraction is defined on the text.
fn bracket_text_is_ok(string: &str) -> (r: bool)
    ensures
        r == bracket_text_ok(string@),
{
    let s = chars_of(string);
    let count_open = count_char_exec(s.as_slice(), '(');
    let count_close = count_char_exec(s.as_slice(), ')');
    if count_open == 0 || count_open != count_close {
        return true;
    }
    let mut opening_pos: usize = 0;
    let mut i: usize = 0;
    while i < s.len()
        invariant
            i <= s.len(),
            s@ == string@,
            bracket_contents(s@) is Some,
            opening_pos == open_before(s@, i as int),
            bracket_cuts_ok(s@, i as int),
        decreases s.len() - i,
    {
        proof {
            lemma_open_before_range(s@, i as int);
        }
        let chr = s[i];
        if chr == '(' {
            opening_pos = i;
        } else if chr == ')' {
            if !(opening_pos + 1 <= i && string.is_char_boundary(opening_pos + 1) && string.is_char_boundary(i)) {
                proof {
                    if bracket_cuts_ok(s@, s@.len() as int) {
                        lemma_bracket_cut_at(s@, s@.len() as int, i as int);
                    }
                }
                return false;
            }
        }
        i = i + 1;
    }
    true
}

/// The texts between matching brackets of a line.
pub fn extract_contents_from_brackets(string: &str) -> (r: Option<Vec<String>>)
    requires
        bracket_text_ok(string@),
    ensures
        match r {
            Some(v) => bracket_contents(string@) == Some(strings_view(v@)),
            None => bracket_contents(string@) is None,
        },
{
    let s = chars_of(string);
    let count_open = count_char_exec(s.as_slice(), '(');
    let count_close = count_char_exec(s.as_slice(), ')');
    if count_open == 0 || count_open != count_close {
        return None;
    }
    let mut contents: Vec<String> = Vec::new();
    let mut opening_pos: usize = 0;
    let mut i: usize = 0;
    while i < s.len()
        invariant
            i <= s.len(),
            s@ == string@,
            bracket_text_ok(s@),
            bracket_contents(s@) is Some,
            opening_pos == open_before(s@, i as int),
            strings_view(contents@) == bracket_items_upto(s@, i as int),
        decreases s.len() - i,
    {
        proof {
            lemma_open_before_range(s@, i as int);
        }
        let chr = s[i];
        if chr == '(' {
            opening_pos = i;
        } else if chr == ')' {
            proof {
                lemma_bracket_cut_at(s@, s@.len() as int, i as int);
            }
            let item = cut_text(string, opening_pos + 1, i);
            let ghost prev = contents@;
            contents.push(item);
            proof {
                assert(strings_view(contents@) =~= strings_view(prev).push(item@));
            }
        }
        i = i + 1;
    }
    Some(contents)
}

/// The first line that starts with `Access:`, when there is one.
pub open spec fn access_line_from(ls: Seq<Seq<char>>, i: int) -> Option<Seq<char>>
    decreases ls.len() - i,
{
    if i < 0 || i >= ls.len() {
        None
    } else if starts_with(ls[i], "Access:"@) {
        Some(ls[i])
    } else {
        access_line_from(ls, i + 1)
    }
}

pub open spec fn access_line(output: Seq<char>) -> Option<Seq<char>> {
    access_line_from(lines_of(output), 0)
}

/// The permissions digits, owner and group that a bracket list of `stat`
/// gives: `(0644/-rw-r--r--)`, `( 1000/ owner)`, `( 1000/ group)`.
pub open spec fn stat_triple(items: Seq<Seq<char>>) -> (Seq<char>, Seq<char>, Seq<char>) {
    let perm = split_once(items[0], '/').unwrap().0;
    let owner = trim(split_once(items[1], '/').unwrap().1);
    let group = trim(split_once(items[2], '/').unwrap().1);
    (perm.skip(1), owner, group)
}

/// The items have the shape the extraction reads: a `/` in each, and a
/// permissions part that opens with a one-byte character (the extraction
/// drops its first byte).
pub open spec fn stat_items_ok(items: Seq<Seq<char>>) -> bool {
    &&& split_once(items[0], '/') is Some
    &&& split_once(items[0], '/').unwrap().0.len() > 0
    &&& split_once(items[0], '/').unwrap().0[0] <= '\u{7f}'
    &&& split_once(items[1], '/') is Some
    &&& split_once(items[2], '/') is Some
}

/// The details `stat` reports on its `Access:` line with three bracket
/// items, when it has one.
pub open spec fn stat_details(output: Seq<char>) -> Option<(Seq<char>, Seq<char>, Seq<char>)> {
    match access_line(output) {
        Some(l) => match bracket_contents(l) {
            Some(items) => if items.len() == 3 {
                Some(stat_triple(items))
            } else {
                None
            },
            None => None,
        },
        None => None,
    }
}

/// The `stat` output can be read without failing.
pub open spec fn stat_output_ok(output: Seq<char>) -> bool {
    match access_line(output) {
        Some(l) => bracket_text_ok(l) && match bracket_contents(l) {
            Some(items) => items.len() == 3 ==> stat_items_ok(items),
            None => true,
        },
        None => true,
    }
}

/// The first line of a list that starts with `Access:`.
fn find_access_line(ls: &Vec<Vec<char>>) -> (r: Option<usize>)
    ensures
        match r {
            Some(i) => i < ls@.len() && access_line_from(crate::text::vecs_view(ls@), 0) == Some(ls@[i as int]@),
            None => access_line_from(crate::text::vecs_view(ls@), 0) is None,
        },
{
    let ghost v = crate::text::vecs_view(ls@);
    let prefix: [char; 7] = ['A', 'c', 'c', 'e', 's', 's', ':'];
    proof {
        reveal_strlit("Access:");
        assert(prefix@ =~= "Access:"@);
    }
    let mut i: usize = 0;
    while i < ls.len()
        invariant
            i <= ls.len(),
            v == crate::text::vecs_view(ls@),
            prefix@ == "Access:"@,
            access_line_from(v, 0) == access_line_from(v, i as int),
        decreases ls.len() - i,
    {
        if starts_with_chars(ls[i].as_slice(), &prefix) {
            return Some(i);
        }
        i = i + 1;
    }
    None
}

/// Whether the `stat` output can be read without failing.
pub fn stat_output_is_readable(output: &str) -> (r: bool)
    ensures
        r == stat_output_ok(output@),
{
    let chars = chars_of(output);
    let ls = split_lines(chars.as_slice());
    proof {
        assert(crate::text::vecs_view(ls@) =~= lines_of(output@));
    }
    match find_access_line(&ls) {
        None => true,
        Some(k) => {
            let line = &ls[k];
            assert(access_line(output@) == Some(line@));
            let l = string_of(line.as_slice());
            if !bracket_text_is_ok(l.as_str()) {
                return false;
            }
            let open = count_char_exec(line.as_slice(), '(');
            let close = count_char_exec(line.as_slice(), ')');
            if open == 0 || open != close {
                return true;
            }
            let l = string_of(line.as_slice());
            let items = extract_contents_from_brackets(l.as_str());
            match items {
                Some(items) => {
                    if items.len() != 3 {
                        return true;
                    }
                    let a = chars_of(items[0].as_str());
                    let b = chars_of(items[1].as_str());
                    let c = chars_of(items[2].as_str());
                    match (split_once_chars(a.as_slice(), '/'), split_once_chars(b.as_slice(), '/'), split_once_chars(c.as_slice(), '/')) {
                        (Some(pa), Some(_), Some(_)) => pa.0.len() > 0 && pa.0[0] <= '\u{7f}',
                        _ => false,
                    }
                },
                None => true,
            }
        },
    }
}

/// Reads the `stat` details of a file: the permissions in octal digits,
/// the owner and the group.
pub fn extract_details_from_stat_output(output: &str) -> (r: Option<(String, String, String)>)
    requires
        stat_output_ok(output@),
    ensures
        match r {
            Some(t) => stat_details(output@) == Some((t.0@, t.1@, t.2@)),
            None => stat_details(output@) is None,
        },
{
    let chars = chars_of(output);
    let ls = split_lines(chars.as_slice());
    proof {
        assert(crate::text::vecs_view(ls@) =~= lines_of(output@));
    }
    match find_access_line(&ls) {
        None => None,
        Some(k) => {
            let line = string_of(ls[k].as_slice());
            match extract_contents_from_brackets(line.as_str()) {
                Some(items) => {
                    if items.len() == 3 {
                        let a = chars_of(items[0].as_str());
                        let b = chars_of(items[1].as_str());
                        let c = chars_of(items[2].as_str());
                        let pa = split_once_chars(a.as_slice(), '/').unwrap();
                        let pb = split_once_chars(b.as_slice(), '/').unwrap();
                        let pc = split_once_chars(c.as_slice(), '/').unwrap();
                        let perm = slice_chars(pa.0.as_slice(), 1, pa.0.len());
                        assert(perm@ =~= pa.0@.skip(1));
                        let owner = trim_chars(pb.1.as_slice());
                        let group = trim_chars(pc.1.as_slice());
                        Some((string_of(perm.as_slice()), string_of(owner.as_slice()), string_of(group.as_slice())))
                    } else {
                        None
                    }
                },
                None => None,
            }
        },
    }
}

/// The permissions to write a file back with, read from its `stat`
/// output: the octal permissions reported, or `644` when none are
/// reported; `Err` when the output cannot be read or the permissions are
/// not an octal number.
pub open spec fn stat_file_mode(output: Seq<char>) -> Result<i32, Seq<char>> {
    if !stat_output_ok(output) {
        Err("the stat output could not be read"@)
    } else {
        match stat_details(output) {
            None => Ok(0o644),
            Some(t) => match parse_octal(t.0) {
                Some(m) => Ok(m),
                None => Err("the file permissions are not an octal number: "@ + t.0),
            },
        }
    }
}

pub fn file_mode_from_stat(output: &str) -> (r: Result<i32, String>)
    ensures
        match r {
            Ok(m) => stat_file_mode(output@) == Ok::<i32, Seq<char>>(m),
            Err(e) => stat_file_mode(output@) == Err::<i32, Seq<char>>(e@),
        },
{
    if !stat_output_is_readable(output) {
        return Err(owned("the stat output could not be read"));
    }
    match extract_details_from_stat_output(output) {
        None => Ok(0o644),
        Some(t) => {
            let digits = chars_of(t.0.as_str());
            match parse_octal_chars(digits.as_slice()) {
                Some(m) => Ok(m),
                None => Err(concat2("the file permissions are not an octal number: ", t.0.as_str())),
            }
        },
    }
}

} // verus!
