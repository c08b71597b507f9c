//! Text handling over character sequences: the string operations that the
//! configuration and command logic is built from, each with its meaning
//! stated over `Seq<char>`.
use vstd::prelude::*;
use vstd::string::*;

verus! {

broadcast use vstd::string::group_string_axioms;

// ---------------------------------------------------------------------
// Specifications
// ---------------------------------------------------------------------

/// Unicode `White_Space` characters (the set `char::is_whitespace` tests).
pub open spec fn is_ws(c: char) -> bool {
    ||| c == '\t' || c == '\n' || c == '\u{0B}' || c == '\u{0C}' || c == '\r' || c == ' '
    ||| c == '\u{85}' || c == '\u{A0}' || c == '\u{1680}'
    ||| ('\u{2000}' <= c && c <= '\u{200A}')
    ||| c == '\u{2028}' || c == '\u{2029}' || c == '\u{202F}' || c == '\u{205F}' || c == '\u{3000}'
}

/// Position of the first `c` at or after `i`, or -1.
pub open spec fn find_char_from(s: Seq<char>, c: char, i: int) -> int
    decreases s.len() - i,
{
    if i < 0 || i >= s.len() {
        -1
    } else if s[i] == c {
        i
    } else {
        find_char_from(s, c, i + 1)
    }
}

pub open spec fn has_char(s: Seq<char>, c: char) -> bool {
    exists|j: int| 0 <= j < s.len() && s[j] == c
}

/// Drops one trailing carriage return.
pub open spec fn strip_cr(t: Seq<char>) -> Seq<char> {
    if t.len() > 0 && t.last() == '\r' {
        t.drop_last()
    } else {
        t
    }
}

/// The lines of a text, as `str::lines` gives them: split at `\n`, a `\r`
/// before the `\n` dropped, no empty line after a final `\n`.
pub open spec fn lines_of(s: Seq<char>) -> Seq<Seq<char>>
    decreases s.len(),
{
    if s.len() == 0 {
        seq![]
    } else {
        let k = find_char_from(s, '\n', 0);
        if k < 0 {
            seq![s]
        } else {
            proof {
                lemma_find_char_range(s, '\n', 0);
            }
            seq![strip_cr(s.take(k))] + lines_of(s.skip(k + 1))
        }
    }
}

/// The pieces joined with `sep` between them.
pub open spec fn join(parts: Seq<Seq<char>>, sep: Seq<char>) -> Seq<char>
    decreases parts.len(),
{
    if parts.len() == 0 {
        seq![]
    } else if parts.len() == 1 {
        parts[0]
    } else {
        join(parts.drop_last(), sep) + sep + parts.last()
    }
}

/// The texts of a list of character vectors.
pub open spec fn vecs_view(v: Seq<Vec<char>>) -> Seq<Seq<char>> {
    v.map_values(|p: Vec<char>| p@)
}

pub open spec fn trim_start(s: Seq<char>) -> Seq<char>
    decreases s.len(),
{
    if s.len() > 0 && is_ws(s[0]) {
        trim_start(s.drop_first())
    } else {
        s
    }
}

pub open spec fn trim_end(s: Seq<char>) -> Seq<char>
    decreases s.len(),
{
    if s.len() > 0 && is_ws(s.last()) {
        trim_end(s.drop_last())
    } else {
        s
    }
}

pub open spec fn trim(s: Seq<char>) -> Seq<char> {
    trim_end(trim_start(s))
}

pub open spec fn starts_with(s: Seq<char>, p: Seq<char>) -> bool {
    p.len() <= s.len() && s.take(p.len() as int) == p
}

pub open spec fn ends_with(s: Seq<char>, p: Seq<char>) -> bool {
    p.len() <= s.len() && s.skip(s.len() - p.len()) == p
}

pub open spec fn occurs_at(s: Seq<char>, p: Seq<char>, i: int) -> bool {
    0 <= i && i + p.len() <= s.len() && s.subrange(i, i + p.len()) == p
}

/// Position of the first occurrence of `p` at or after `i`, or -1.
pub open spec fn find_from(s: Seq<char>, p: Seq<char>, i: int) -> int
    decreases s.len() + 1 - i,
{
    if i < 0 || i + p.len() > s.len() {
        -1
    } else if occurs_at(s, p, i) {
        i
    } else {
        find_from(s, p, i + 1)
    }
}

pub open spec fn contains(s: Seq<char>, p: Seq<char>) -> bool {
    find_from(s, p, 0) >= 0
}

/// The text before and after the first `c`, when there is one.
pub open spec fn split_once(s: Seq<char>, c: char) -> Option<(Seq<char>, Seq<char>)> {
    let k = find_char_from(s, c, 0);
    if k < 0 {
        None
    } else {
        Some((s.take(k), s.skip(k + 1)))
    }
}

/// All the pieces between occurrences of `c`, as `str::split` gives them.
pub open spec fn split_all(s: Seq<char>, c: char) -> Seq<Seq<char>>
    decreases s.len(),
{
    let k = find_char_from(s, c, 0);
    if k < 0 {
        seq![s]
    } else {
        proof {
            lemma_find_char_range(s, c, 0);
        }
        seq![s.take(k)] + split_all(s.skip(k + 1), c)
    }
}

pub open spec fn digit_char(d: nat) -> char
    recommends
        d < 10,
{
    (d + 48) as char
}

/// Decimal digits of a natural number.
pub open spec fn nat_decimal(n: nat) -> Seq<char>
    decreases n,
{
    if n < 10 {
        seq![digit_char(n)]
    } else {
        nat_decimal(n / 10).push(digit_char(n % 10))
    }
}

/// Decimal text of an integer, as `{}` formats it.
pub open spec fn int_decimal(i: int) -> Seq<char> {
    if i < 0 {
        seq!['-'] + nat_decimal((-i) as nat)
    } else {
        nat_decimal(i as nat)
    }
}

pub open spec fn is_digit(c: char) -> bool {
    '0' <= c && c <= '9'
}

pub open spec fn all_digits(s: Seq<char>) -> bool {
    forall|i: int| 0 <= i < s.len() ==> is_digit(#[trigger] s[i])
}

/// The number that a run of decimal digits denotes.
pub open spec fn digits_value(s: Seq<char>) -> nat
    decreases s.len(),
{
    if s.len() == 0 {
        0
    } else {
        digits_value(s.drop_last()) * 10 + ((s.last() as int - 48) as nat)
    }
}

/// What `str::parse::<u32>` gives: an optional `+`, then at least one
/// decimal digit, with a value that fits.
pub open spec fn parse_u32(s: Seq<char>) -> Option<u32> {
    let d = if s.len() > 0 && s[0] == '+' {
        s.drop_first()
    } else {
        s
    };
    if d.len() > 0 && all_digits(d) && digits_value(d) <= u32::MAX {
        Some(digits_value(d) as u32)
    } else {
        None
    }
}

pub open spec fn is_octal_digit(c: char) -> bool {
    '0' <= c && c <= '7'
}

pub open spec fn all_octal(s: Seq<char>) -> bool {
    forall|i: int| 0 <= i < s.len() ==> is_octal_digit(#[trigger] s[i])
}

pub open spec fn octal_value(s: Seq<char>) -> nat
    decreases s.len(),
{
    if s.len() == 0 {
        0
    } else {
        octal_value(s.drop_last()) * 8 + ((s.last() as int - 48) as nat)
    }
}

/// What `i32::from_str_radix(s, 8)` gives for text without a sign: at least
/// one octal digit, with a value that fits.
pub open spec fn parse_octal(s: Seq<char>) -> Option<i32> {
    let d = if s.len() > 0 && s[0] == '+' {
        s.drop_first()
    } else {
        s
    };
    if s.len() > 0 && s[0] == '-' {
        let m = s.drop_first();
        if m.len() > 0 && all_octal(m) && octal_value(m) <= 0x8000_0000 {
            Some((-(octal_value(m) as int)) as i32)
        } else {
            None
        }
    } else if d.len() > 0 && all_octal(d) && octal_value(d) <= i32::MAX {
        Some(octal_value(d) as i32)
    } else {
        None
    }
}

pub open spec fn ascii_lower(c: char) -> char {
    if 'A' <= c && c <= 'Z' {
        ((c as int) + 32) as char
    } else {
        c
    }
}

pub open spec fn lower_ascii(s: Seq<char>) -> Seq<char> {
    Seq::new(s.len(), |i: int| ascii_lower(s[i]))
}

pub open spec fn eq_ignore_ascii_case(a: Seq<char>, b: Seq<char>) -> bool {
    lower_ascii(a) == lower_ascii(b)
}

// ---------------------------------------------------------------------
// Lemmas
// ---------------------------------------------------------------------

pub proof fn lemma_find_char_range(s: Seq<char>, c: char, i: int)
    requires
        0 <= i,
    ensures
        find_char_from(s, c, i) == -1 || (i <= find_char_from(s, c, i) < s.len() && s[find_char_from(s, c, i)] == c),
        find_char_from(s, c, i) >= 0 ==> forall|j: int| i <= j < find_char_from(s, c, i) ==> s[j] != c,
        find_char_from(s, c, i) == -1 ==> forall|j: int| i <= j < s.len() ==> s[j] != c,
    decreases s.len() - i,
{
    if i < 0 || i >= s.len() {
    } else if s[i] == c {
    } else {
        lemma_find_char_range(s, c, i + 1);
    }
}

/// The first `c` is found where it stands when nothing before it is a `c`.
pub proof fn lemma_find_char_at(s: Seq<char>, c: char, i: int, k: int)
    requires
        0 <= i <= k < s.len(),
        s[k] == c,
        forall|j: int| i <= j < k ==> s[j] != c,
    ensures
        find_char_from(s, c, i) == k,
    decreases k - i,
{
    if i < k {
        lemma_find_char_at(s, c, i + 1, k);
    }
}

pub proof fn lemma_find_char_none(s: Seq<char>, c: char, i: int)
    requires
        0 <= i,
        forall|j: int| i <= j < s.len() ==> s[j] != c,
    ensures
        find_char_from(s, c, i) == -1,
    decreases s.len() - i,
{
    if i < s.len() {
        lemma_find_char_none(s, c, i + 1);
    }
}

pub proof fn lemma_find_range(s: Seq<char>, p: Seq<char>, i: int)
    requires
        0 <= i,
    ensures
        find_from(s, p, i) == -1 || (i <= find_from(s, p, i) && occurs_at(s, p, find_from(s, p, i))),
        find_from(s, p, i) >= 0 ==> forall|j: int| i <= j < find_from(s, p, i) ==> !occurs_at(s, p, j),
        find_from(s, p, i) == -1 ==> forall|j: int| i <= j ==> !occurs_at(s, p, j),
    decreases s.len() + 1 - i,
{
    if i < 0 || i + p.len() > s.len() {
    } else if occurs_at(s, p, i) {
    } else {
        lemma_find_range(s, p, i + 1);
    }
}

pub proof fn lemma_find_at(s: Seq<char>, p: Seq<char>, i: int, k: int)
    requires
        0 <= i <= k,
        occurs_at(s, p, k),
        forall|j: int| i <= j < k ==> !occurs_at(s, p, j),
    ensures
        find_from(s, p, i) == k,
    decreases k - i,
{
    if i < k {
        lemma_find_at(s, p, i + 1, k);
    }
}

pub proof fn lemma_find_none(s: Seq<char>, p: Seq<char>, i: int)
    requires
        0 <= i,
        forall|j: int| i <= j ==> !occurs_at(s, p, j),
    ensures
        find_from(s, p, i) == -1,
    decreases s.len() + 1 - i,
{
    if i + p.len() <= s.len() {
        lemma_find_none(s, p, i + 1);
    }
}

/// Lines of a line without newline followed by more text.
proof fn lemma_lines_step(cur: Seq<char>, rest: Seq<char>)
    requires
        !has_char(cur, '\n'),
        rest.len() > 0,
        rest[0] == '\n',
    ensures
        lines_of(cur + rest) == seq![strip_cr(cur)] + lines_of(rest.skip(1)),
{
    let t = cur + rest;
    assert(t[cur.len() as int] == '\n');
    assert forall|j: int| 0 <= j < cur.len() implies t[j] != '\n' by {
        assert(t[j] == cur[j]);
    }
    lemma_find_char_at(t, '\n', 0, cur.len() as int);
    assert(t.take(cur.len() as int) =~= cur);
    assert(t.skip(cur.len() as int + 1) =~= rest.skip(1));
}

proof fn lemma_lines_last(cur: Seq<char>)
    requires
        !has_char(cur, '\n'),
    ensures
        lines_of(cur) == (if cur.len() == 0 { seq![] } else { seq![cur] }),
{
    if cur.len() > 0 {
        lemma_find_char_none(cur, '\n', 0);
    }
}

pub proof fn lemma_trim_start_suffix(s: Seq<char>)
    ensures
        exists|k: int| 0 <= k <= s.len() && trim_start(s) == s.skip(k),
    decreases s.len(),
{
    if s.len() > 0 && is_ws(s[0]) {
        lemma_trim_start_suffix(s.drop_first());
        let k = choose|k: int| 0 <= k <= s.drop_first().len() && trim_start(s.drop_first()) == s.drop_first().skip(k);
        assert(s.drop_first().skip(k) =~= s.skip(k + 1));
    } else {
        assert(s.skip(0) =~= s);
    }
}

// ---------------------------------------------------------------------
// Executable operations
// ---------------------------------------------------------------------

/// The characters of a string.
pub fn chars_of(s: &str) -> (v: Vec<char>)
    ensures
        v@ == s@,
{
    let mut v: Vec<char> = Vec::new();
    for c in it: s.chars()
        invariant
            v@ == it.seq().take(it.index() as int),
            it.seq() == s@,
    {
        v.push(c);
    }
    v
}

/// `String::push`: appends one character.
#[verifier::external_body]
fn push_char(s: &mut String, c: char)
    ensures
        final(s)@ == old(s)@.push(c),
{
    s.push(c);
}

/// A string holding the given characters.
pub fn string_of(v: &[char]) -> (s: String)
    ensures
        s@ == v@,
{
    let mut s = String::new();
    let mut i: usize = 0;
    while i < v.len()
        invariant
            i <= v.len(),
            s@ == v@.take(i as int),
        decreases v.len() - i,
    {
        push_char(&mut s, v[i]);
        assert(v@.take(i + 1) =~= v@.take(i as int).push(v@[i as int]));
        i = i + 1;
    }
    assert(v@.take(v.len() as int) =~= v@);
    s
}

/// Appends the characters of `b` to `a`.
pub fn push_all(a: &mut Vec<char>, b: &[char])
    ensures
        final(a)@ == old(a)@ + b@,
{
    let mut i: usize = 0;
    while i < b.len()
        invariant
            i <= b.len(),
            a@ == old(a)@ + b@.take(i as int),
        decreases b.len() - i,
    {
        a.push(b[i]);
        assert(b@.take(i + 1) =~= b@.take(i as int).push(b@[i as int]));
        i = i + 1;
    }
    assert(b@.take(b.len() as int) =~= b@);
}

/// Appends the characters of a string.
pub fn push_str(a: &mut Vec<char>, b: &str)
    ensures
        final(a)@ == old(a)@ + b@,
{
    let v = chars_of(b);
    push_all(a, v.as_slice());
}

/// A string made of two pieces.
pub fn concat2(a: &str, b: &str) -> (r: String)
    ensures
        r@ == a@ + b@,
{
    let mut s = String::new();
    s.append(a);
    s.append(b);
    s
}

/// A string made of three pieces.
pub fn concat3(a: &str, b: &str, c: &str) -> (r: String)
    ensures
        r@ == a@ + b@ + c@,
{
    let mut s = String::new();
    s.append(a);
    s.append(b);
    s.append(c);
    s
}

/// A string made of four pieces.
pub fn concat4(a: &str, b: &str, c: &str, d: &str) -> (r: String)
    ensures
        r@ == a@ + b@ + c@ + d@,
{
    let mut s = String::new();
    s.append(a);
    s.append(b);
    s.append(c);
    s.append(d);
    s
}

/// A string made of five pieces.
pub fn concat5(a: &str, b: &str, c: &str, d: &str, e: &str) -> (r: String)
    ensures
        r@ == a@ + b@ + c@ + d@ + e@,
{
    let mut s = String::new();
    s.append(a);
    s.append(b);
    s.append(c);
    s.append(d);
    s.append(e);
    s
}

/// A copy of a string slice.
pub fn owned(a: &str) -> (r: String)
    ensures
        r@ == a@,
{
    let mut s = String::new();
    s.append(a);
    s
}

/// Whether two character sequences are equal.
pub fn chars_eq(a: &[char], b: &[char]) -> (r: bool)
    ensures
        r == (a@ == b@),
{
    if a.len() != b.len() {
        return false;
    }
    let mut i: usize = 0;
    while i < a.len()
        invariant
            i <= a.len(),
            a.len() == b.len(),
            forall|j: int| 0 <= j < i ==> a@[j] == b@[j],
        decreases a.len() - i,
    {
        if a[i] != b[i] {
            return false;
        }
        i = i + 1;
    }
    assert(a@ =~= b@);
    true
}

/// Whether two strings hold the same text.
pub fn str_eq(a: &str, b: &str) -> (r: bool)
    ensures
        r == (a@ == b@),
{
    let x = chars_of(a);
    let y = chars_of(b);
    chars_eq(x.as_slice(), y.as_slice())
}

/// `char::is_whitespace`.
pub fn is_whitespace(c: char) -> (r: bool)
    ensures
        r == is_ws(c),
{
    c == '\t' || c == '\n' || c == '\u{0B}' || c == '\u{0C}' || c == '\r' || c == ' ' || c == '\u{85}'
        || c == '\u{A0}' || c == '\u{1680}' || ('\u{2000}' <= c && c <= '\u{200A}') || c == '\u{2028}'
        || c == '\u{2029}' || c == '\u{202F}' || c == '\u{205F}' || c == '\u{3000}'
}

/// The characters from `from` to `to`.
pub fn slice_chars(s: &[char], from: usize, to: usize) -> (r: Vec<char>)
    requires
        from <= to <= s.len(),
    ensures
        r@ == s@.subrange(from as int, to as int),
{
    let mut r: Vec<char> = Vec::new();
    let mut i = from;
    while i < to
        invariant
            from <= i <= to <= s.len(),
            r@ == s@.subrange(from as int, i as int),
        decreases to - i,
    {
        r.push(s[i]);
        assert(s@.subrange(from as int, i + 1) =~= s@.subrange(from as int, i as int).push(s@[i as int]));
        i = i + 1;
    }
    r
}

/// The lines of a text (`str::lines`).
pub fn split_lines(s: &[char]) -> (r: Vec<Vec<char>>)
    ensures
        r@.len() == lines_of(s@).len(),
        forall|i: int| 0 <= i < r@.len() ==> #[trigger] r@[i]@ == lines_of(s@)[i],
{
    let mut done: Vec<Vec<char>> = Vec::new();
    let ghost mut done_v: Seq<Seq<char>> = seq![];
    let mut cur: Vec<char> = Vec::new();
    let mut i: usize = 0;
    assert(cur@ + s@.skip(0) =~= s@);
    assert(done_v + lines_of(s@) =~= lines_of(s@));
    while i < s.len()
        invariant
            i <= s.len(),
            done@.len() == done_v.len(),
            forall|j: int| 0 <= j < done@.len() ==> #[trigger] done@[j]@ == done_v[j],
            !has_char(cur@, '\n'),
            lines_of(s@) == done_v + lines_of(cur@ + s@.skip(i as int)),
        decreases s.len() - i,
    {
        let c = s[i];
        if c == '\n' {
            proof {
                assert(s@.skip(i as int)[0] == '\n');
                lemma_lines_step(cur@, s@.skip(i as int));
                assert(s@.skip(i as int).skip(1) =~= s@.skip(i + 1));
            }
            let n = cur.len();
            let line = if n > 0 && cur[n - 1] == '\r' {
                slice_chars(cur.as_slice(), 0, n - 1)
            } else {
                slice_chars(cur.as_slice(), 0, n)
            };
            proof {
                assert(cur@.subrange(0, n as int) =~= cur@);
                assert(n > 0 ==> cur@.subrange(0, n - 1) =~= cur@.drop_last());
                done_v = done_v.push(strip_cr(cur@));
                assert(seq![strip_cr(cur@)] + lines_of(s@.skip(i + 1)) =~= seq![strip_cr(cur@)].add(
                    lines_of(s@.skip(i + 1)),
                ));
                assert(done_v.drop_last() + (seq![strip_cr(cur@)] + lines_of(s@.skip(i + 1))) =~= done_v
                    + lines_of(s@.skip(i + 1)));
            }
            done.push(line);
            cur = Vec::new();
            proof {
                assert(cur@ + s@.skip(i + 1) =~= s@.skip(i + 1));
            }
        } else {
            proof {
                assert(cur@ + s@.skip(i as int) =~= cur@.push(c) + s@.skip(i + 1));
                assert forall|j: int| 0 <= j < cur@.push(c).len() implies cur@.push(c)[j] != '\n' by {
                    if j < cur@.len() {
                        assert(cur@.push(c)[j] == cur@[j]);
                    }
                }
            }
            cur.push(c);
        }
        i = i + 1;
    }
    proof {
        assert(s@.skip(s.len() as int) =~= Seq::<char>::empty());
        assert(cur@ + s@.skip(s.len() as int) =~= cur@);
        lemma_lines_last(cur@);
    }
    if cur.len() > 0 {
        proof {
            done_v = done_v.push(cur@);
        }
        done.push(cur);
    } else {
        proof {
            assert(done_v + Seq::<Seq<char>>::empty() =~= done_v);
        }
    }
    proof {
        assert(lines_of(s@) =~= done_v);
    }
    done
}

/// The pieces joined with `sep` between them (`[..].join(sep)`).
pub fn join_chars(parts: &Vec<Vec<char>>, sep: &[char]) -> (r: Vec<char>)
    ensures
        r@ == join(vecs_view(parts@), sep@),
{
    let ghost pv = vecs_view(parts@);
    let mut r: Vec<char> = Vec::new();
    let mut i: usize = 0;
    while i < parts.len()
        invariant
            i <= parts.len(),
            pv == vecs_view(parts@),
            r@ == join(pv.take(i as int), sep@),
        decreases parts.len() - i,
    {
        if i > 0 {
            push_all(&mut r, sep);
        }
        push_all(&mut r, parts[i].as_slice());
        proof {
            let t = pv.take(i + 1);
            assert(t.drop_last() =~= pv.take(i as int));
            assert(t.last() == parts@[i as int]@);
            if i == 0 {
                assert(join(pv.take(0), sep@) =~= Seq::<char>::empty());
                assert(t.len() == 1);
                assert(join(t, sep@) == t[0]);
            }
        }
        i = i + 1;
    }
    proof {
        assert(pv.take(parts.len() as int) =~= pv);
    }
    r
}

/// Whether `s` begins with `p`.
pub fn starts_with_chars(s: &[char], p: &[char]) -> (r: bool)
    ensures
        r == starts_with(s@, p@),
{
    if p.len() > s.len() {
        return false;
    }
    let mut i: usize = 0;
    while i < p.len()
        invariant
            i <= p.len() <= s.len(),
            forall|j: int| 0 <= j < i ==> s@[j] == p@[j],
        decreases p.len() - i,
    {
        if s[i] != p[i] {
            assert(s@.take(p.len() as int)[i as int] != p@[i as int]);
            return false;
        }
        i = i + 1;
    }
    assert(s@.take(p.len() as int) =~= p@);
    true
}

/// Whether `s` ends with `p`.
pub fn ends_with_chars(s: &[char], p: &[char]) -> (r: bool)
    ensures
        r == ends_with(s@, p@),
{
    if p.len() > s.len() {
        return false;
    }
    let off = s.len() - p.len();
    let mut i: usize = 0;
    while i < p.len()
        invariant
            i <= p.len() <= s.len(),
            off == s.len() - p.len(),
            forall|j: int| 0 <= j < i ==> s@[off + j] == p@[j],
        decreases p.len() - i,
    {
        if s[off + i] != p[i] {
            assert(s@.skip(off as int)[i as int] != p@[i as int]);
            return false;
        }
        i = i + 1;
    }
    assert(s@.skip(off as int) =~= p@);
    true
}

/// Whether `p` occurs in `s` at position `i`.
pub fn occurs_at_chars(s: &[char], p: &[char], i: usize) -> (r: bool)
    ensures
        r == occurs_at(s@, p@, i as int),
{
    if i > s.len() || p.len() > s.len() - i {
        return false;
    }
    let mut j: usize = 0;
    while j < p.len()
        invariant
            j <= p.len(),
            i + p.len() <= s.len(),
            forall|k: int| 0 <= k < j ==> s@[i + k] == p@[k],
        decreases p.len() - j,
    {
        if s[i + j] != p[j] {
            assert(s@.subrange(i as int, i + p.len())[j as int] != p@[j as int]);
            return false;
        }
        j = j + 1;
    }
    assert(s@.subrange(i as int, i + p.len()) =~= p@);
    true
}

/// The position of the first occurrence of `p` in `s` (`str::find`).
pub fn find_chars(s: &[char], p: &[char]) -> (r: Option<usize>)
    ensures
        match r {
            Some(k) => find_from(s@, p@, 0) == k as int,
            None => find_from(s@, p@, 0) == -1,
        },
{
    if p.len() > s.len() {
        proof {
            lemma_find_none(s@, p@, 0);
        }
        return None;
    }
    let last = s.len() - p.len();
    let mut i: usize = 0;
    loop
        invariant
            last == s.len() - p.len(),
            p.len() <= s.len(),
            i <= last,
            forall|j: int| 0 <= j < i ==> !occurs_at(s@, p@, j),
        ensures
            forall|j: int| 0 <= j <= last ==> !occurs_at(s@, p@, j),
        decreases last - i,
    {
        if occurs_at_chars(s, p, i) {
            proof {
                lemma_find_at(s@, p@, 0, i as int);
            }
            return Some(i);
        }
        if i == last {
            break;
        }
        i = i + 1;
    }
    proof {
        assert forall|j: int| 0 <= j implies !occurs_at(s@, p@, j) by {
            if j > last {
                assert(j + p@.len() > s@.len());
            }
        }
        lemma_find_none(s@, p@, 0);
    }
    None
}

/// Whether `p` occurs in `s` (`str::contains`).
pub fn contains_chars(s: &[char], p: &[char]) -> (r: bool)
    ensures
        r == contains(s@, p@),
{
    find_chars(s, p).is_some()
}

/// The position of the first `c` in `s`.
pub fn find_char(s: &[char], c: char) -> (r: Option<usize>)
    ensures
        match r {
            Some(k) => find_char_from(s@, c, 0) == k as int,
            None => find_char_from(s@, c, 0) == -1,
        },
{
    let mut i: usize = 0;
    while i < s.len()
        invariant
            i <= s.len(),
            forall|j: int| 0 <= j < i ==> s@[j] != c,
        decreases s.len() - i,
    {
        if s[i] == c {
            proof {
                lemma_find_char_at(s@, c, 0, i as int);
            }
            return Some(i);
        }
        i = i + 1;
    }
    proof {
        lemma_find_char_none(s@, c, 0);
    }
    None
}

/// Whether `c` occurs in `s`.
pub fn has_char_exec(s: &[char], c: char) -> (r: bool)
    ensures
        r == has_char(s@, c),
{
    let f = find_char(s, c);
    proof {
        lemma_find_char_range(s@, c, 0);
    }
    f.is_some()
}

/// The text before and after the first `c` (`str::split_once`).
pub fn split_once_chars(s: &[char], c: char) -> (r: Option<(Vec<char>, Vec<char>)>)
    ensures
        match r {
            Some(p) => split_once(s@, c) == Some((p.0@, p.1@)),
            None => split_once(s@, c) is None,
        },
{
    match find_char(s, c) {
        Some(k) => {
            proof {
                lemma_find_char_range(s@, c, 0);
            }
            assert(k < s.len());
            let a = slice_chars(s, 0, k);
            let b = slice_chars(s, k + 1, s.len());
            assert(a@ =~= s@.take(k as int));
            assert(b@ =~= s@.skip(k + 1));
            Some((a, b))
        },
        None => None,
    }
}

/// All the pieces between occurrences of `c` (`str::split`).
pub fn split_all_chars(s: &[char], c: char) -> (r: Vec<Vec<char>>)
    ensures
        r@.len() == split_all(s@, c).len(),
        forall|i: int| 0 <= i < r@.len() ==> #[trigger] r@[i]@ == split_all(s@, c)[i],
{
    let mut done: Vec<Vec<char>> = Vec::new();
    let ghost mut done_v: Seq<Seq<char>> = seq![];
    let mut start: usize = 0;
    assert(s@.skip(0) =~= s@);
    assert(done_v + split_all(s@, c) =~= split_all(s@, c));
    let mut i: usize = 0;
    while i < s.len()
        invariant
            start <= i <= s.len(),
            done@.len() == done_v.len(),
            forall|j: int| 0 <= j < done@.len() ==> #[trigger] done@[j]@ == done_v[j],
            forall|j: int| start <= j < i ==> s@[j] != c,
            split_all(s@, c) == done_v + split_all(s@.skip(start as int), c),
        decreases s.len() - i,
    {
        if s[i] == c {
            let piece = slice_chars(s, start, i);
            proof {
                let t = s@.skip(start as int);
                assert(t[i - start] == c);
                assert forall|j: int| 0 <= j < i - start implies t[j] != c by {
                    assert(t[j] == s@[start + j]);
                }
                lemma_find_char_at(t, c, 0, i - start);
                assert(t.take(i - start) =~= piece@);
                assert(t.skip(i - start + 1) =~= s@.skip(i + 1));
                done_v = done_v.push(piece@);
                assert(done_v.drop_last() + (seq![piece@] + split_all(s@.skip(i + 1), c)) =~= done_v
                    + split_all(s@.skip(i + 1), c));
            }
            done.push(piece);
            start = i + 1;
        }
        i = i + 1;
    }
    let piece = slice_chars(s, start, s.len());
    proof {
        let t = s@.skip(start as int);
        assert forall|j: int| 0 <= j < t.len() implies t[j] != c by {
            assert(t[j] == s@[start + j]);
        }
        lemma_find_char_none(t, c, 0);
        assert(t =~= piece@);
        done_v = done_v.push(piece@);
        assert(split_all(s@, c) =~= done_v);
    }
    done.push(piece);
    done
}

/// The text without leading whitespace (`str::trim_start`).
pub fn trim_start_chars(s: &[char]) -> (r: Vec<char>)
    ensures
        r@ == trim_start(s@),
{
    let mut i: usize = 0;
    assert(s@.skip(0) =~= s@);
    while i < s.len() && is_whitespace(s[i])
        invariant
            i <= s.len(),
            trim_start(s@) == trim_start(s@.skip(i as int)),
        decreases s.len() - i,
    {
        proof {
            assert(s@.skip(i as int).drop_first() =~= s@.skip(i + 1));
        }
        i = i + 1;
    }
    slice_chars(s, i, s.len())
}

/// The text without trailing whitespace (`str::trim_end`).
pub fn trim_end_chars(s: &[char]) -> (r: Vec<char>)
    ensures
        r@ == trim_end(s@),
{
    let mut n: usize = s.len();
    assert(s@.take(n as int) =~= s@);
    while n > 0 && is_whitespace(s[n - 1])
        invariant
            n <= s.len(),
            trim_end(s@) == trim_end(s@.take(n as int)),
        decreases n,
    {
        proof {
            assert(s@.take(n as int).drop_last() =~= s@.take(n - 1));
        }
        n = n - 1;
    }
    let r = slice_chars(s, 0, n);
    assert(r@ =~= s@.take(n as int));
    r
}

/// The text without surrounding whitespace (`str::trim`).
pub fn trim_chars(s: &[char]) -> (r: Vec<char>)
    ensures
        r@ == trim(s@),
{
    let a = trim_start_chars(s);
    trim_end_chars(a.as_slice())
}

/// The decimal text of a natural number.
pub fn u64_decimal(n: u64) -> (r: Vec<char>)
    ensures
        r@ == nat_decimal(n as nat),
    decreases n,
{
    if n < 10 {
        let c = ((n as u8) + 48) as char;
        let mut v: Vec<char> = Vec::new();
        v.push(c);
        assert(v@ =~= seq![digit_char(n as nat)]);
        v
    } else {
        let mut v = u64_decimal(n / 10);
        let d = n % 10;
        let c = ((d as u8) + 48) as char;
        v.push(c);
        v
    }
}

/// The decimal text of an integer, as `format!("{}", i)` gives it.
pub fn i64_decimal(i: i64) -> (r: Vec<char>)
    ensures
        r@ == int_decimal(i as int),
{
    if i < 0 {
        let m: u64 = if i == i64::MIN {
            0x8000_0000_0000_0000u64
        } else {
            (-i) as u64
        };
        let d = u64_decimal(m);
        let mut v: Vec<char> = Vec::new();
        v.push('-');
        push_all(&mut v, d.as_slice());
        v
    } else {
        u64_decimal(i as u64)
    }
}

/// The decimal text of an integer as a string.
pub fn int_to_string(i: i64) -> (r: String)
    ensures
        r@ == int_decimal(i as int),
{
    let v = i64_decimal(i);
    string_of(v.as_slice())
}

/// `str::parse::<u32>`.
pub fn parse_u32_chars(s: &[char]) -> (r: Option<u32>)
    ensures
        r == parse_u32(s@),
{
    let start: usize = if s.len() > 0 && s[0] == '+' {
        1
    } else {
        0
    };
    let ghost d = if s@.len() > 0 && s@[0] == '+' {
        s@.drop_first()
    } else {
        s@
    };
    assert(d =~= s@.skip(start as int));
    if start == s.len() {
        return None;
    }
    let mut acc: u64 = 0;
    let mut i: usize = start;
    while i < s.len()
        invariant
            start <= i <= s.len(),
            d =~= s@.skip(start as int),
            d == (if s@.len() > 0 && s@[0] == '+' {
                s@.drop_first()
            } else {
                s@
            }),
            all_digits(s@.subrange(start as int, i as int)),
            acc as nat == digits_value(s@.subrange(start as int, i as int)),
            acc <= u32::MAX,
        decreases s.len() - i,
    {
        let c = s[i];
        if !('0' <= c && c <= '9') {
            assert(d[i - start] == c);
            assert(!is_digit(d[i - start]));
            assert(!all_digits(d));
            assert(parse_u32(s@) is None);
            return None;
        }
        let ghost prev = s@.subrange(start as int, i as int);
        let next = acc * 10 + ((c as u32) - 48) as u64;
        proof {
            let t = s@.subrange(start as int, i + 1);
            assert(t.drop_last() =~= prev);
            assert(t.last() == c);
        }
        if next > 0xFFFF_FFFFu64 {
            proof {
                let t = s@.subrange(start as int, i + 1);
                assert(d.take(t.len() as int) =~= t);
                if all_digits(d) {
                    lemma_digits_prefix_bound(d, t.len() as int);
                }
            }
            return None;
        }
        acc = next;
        i = i + 1;
    }
    assert(s@.subrange(start as int, s.len() as int) =~= d);
    Some(acc as u32)
}

/// A longer run of digits never denotes less than a prefix of it.
proof fn lemma_digits_prefix_bound(d: Seq<char>, k: int)
    requires
        0 <= k <= d.len(),
        all_digits(d),
    ensures
        digits_value(d) >= digits_value(d.take(k)),
    decreases d.len(),
{
    if d.len() == k {
        assert(d.take(k) =~= d);
    } else {
        assert(all_digits(d.drop_last())) by {
            assert forall|i: int| 0 <= i < d.drop_last().len() implies is_digit(#[trigger] d.drop_last()[i]) by {
                assert(d.drop_last()[i] == d[i]);
            }
        }
        lemma_digits_prefix_bound(d.drop_last(), k);
        assert(d.drop_last().take(k) =~= d.take(k));
        assert(is_digit(d[d.len() - 1]));
    }
}

/// The value of a run of octal digits, when every character is one and
/// the value is at most 2^31.
fn octal_run_value(d: &[char]) -> (r: Option<u64>)
    ensures
        match r {
            Some(v) => all_octal(d@) && v == octal_value(d@) && v <= 0x8000_0000,
            None => !all_octal(d@) || octal_value(d@) > 0x8000_0000,
        },
{
    let mut acc: u64 = 0;
    let mut i: usize = 0;
    while i < d.len()
        invariant
            i <= d.len(),
            forall|j: int| 0 <= j < i ==> is_octal_digit(#[trigger] d@[j]),
            acc as nat == octal_value(d@.take(i as int)),
            acc <= 0x8000_0000u64,
        decreases d.len() - i,
    {
        let c = d[i];
        if !('0' <= c && c <= '7') {
            assert(!is_octal_digit(d@[i as int]));
            assert(!all_octal(d@));
            return None;
        }
        proof {
            let t = d@.take(i + 1);
            assert(t.drop_last() =~= d@.take(i as int));
            assert(t.last() == c);
        }
        let next = acc * 8 + ((c as u32) - 48) as u64;
        if next > 0x8000_0000u64 {
            proof {
                if all_octal(d@) {
                    lemma_octal_prefix_bound(d@, i + 1);
                }
            }
            return None;
        }
        acc = next;
        i = i + 1;
    }
    assert(d@.take(d.len() as int) =~= d@);
    Some(acc)
}

/// Octal text to a number (`i32::from_str_radix(s, 8)`).
pub fn parse_octal_chars(s: &[char]) -> (r: Option<i32>)
    ensures
        r == parse_octal(s@),
{
    if s.len() > 0 && s[0] == '-' {
        let m = slice_chars(s, 1, s.len());
        assert(m@ =~= s@.drop_first());
        if m.len() == 0 {
            return None;
        }
        match octal_run_value(m.as_slice()) {
            Some(v) => Some((0 - (v as i64)) as i32),
            None => {
                assert(parse_octal(s@) is None);
                None
            },
        }
    } else {
        let start: usize = if s.len() > 0 && s[0] == '+' {
            1
        } else {
            0
        };
        let m = slice_chars(s, start, s.len());
        assert(start == 1 ==> m@ =~= s@.drop_first());
        assert(start == 0 ==> m@ =~= s@);
        assert(!(s@.len() > 0 && s@[0] == '-'));
        assert((if s@.len() > 0 && s@[0] == '+' { s@.drop_first() } else { s@ }) == m@);
        if m.len() == 0 {
            return None;
        }
        match octal_run_value(m.as_slice()) {
            Some(v) => {
                if v <= 0x7FFF_FFFFu64 {
                    Some(v as i32)
                } else {
                    None
                }
            },
            None => None,
        }
    }
}

/// A longer run of octal digits never denotes less than a prefix of it.
proof fn lemma_octal_prefix_bound(d: Seq<char>, k: int)
    requires
        0 <= k <= d.len(),
        forall|j: int| 0 <= j < d.len() ==> is_octal_digit(#[trigger] d[j]),
    ensures
        octal_value(d) >= octal_value(d.take(k)),
    decreases d.len(),
{
    if d.len() == k {
        assert(d.take(k) =~= d);
    } else {
        assert forall|j: int| 0 <= j < d.drop_last().len() implies is_octal_digit(#[trigger] d.drop_last()[j]) by {
            assert(d.drop_last()[j] == d[j]);
        }
        lemma_octal_prefix_bound(d.drop_last(), k);
        assert(d.drop_last().take(k) =~= d.take(k));
        assert(is_octal_digit(d[d.len() - 1]));
    }
}

/// ASCII lower-case of a text.
pub fn to_ascii_lower(s: &[char]) -> (r: Vec<char>)
    ensures
        r@ == lower_ascii(s@),
{
    let mut r: Vec<char> = Vec::new();
    let mut i: usize = 0;
    while i < s.len()
        invariant
            i <= s.len(),
            r@ == lower_ascii(s@.take(i as int)),
        decreases s.len() - i,
    {
        let c = s[i];
        let l = if 'A' <= c && c <= 'Z' {
            ((c as u8) + 32) as char
        } else {
            c
        };
        r.push(l);
        assert(lower_ascii(s@.take(i + 1)) =~= lower_ascii(s@.take(i as int)).push(ascii_lower(c)));
        i = i + 1;
    }
    assert(s@.take(s.len() as int) =~= s@);
    r
}

/// Case-insensitive ASCII comparison (`str::eq_ignore_ascii_case`).
pub fn eq_ignore_ascii_case_chars(a: &[char], b: &[char]) -> (r: bool)
    ensures
        r == eq_ignore_ascii_case(a@, b@),
{
    let x = to_ascii_lower(a);
    let y = to_ascii_lower(b);
    chars_eq(x.as_slice(), y.as_slice())
}

/// The texts joined with `sep` between them (`[String]::join`).
pub fn join_strings(parts: &Vec<String>, sep: &str) -> (r: String)
    ensures
        r@ == join(parts@.map_values(|s: String| s@), sep@),
{
    let ghost sv = parts@.map_values(|s: String| s@);
    let mut out = String::new();
    let mut i: usize = 0;
    while i < parts.len()
        invariant
            i <= parts@.len(),
            sv == parts@.map_values(|s: String| s@),
            out@ == join(sv.take(i as int), sep@),
        decreases parts@.len() - i,
    {
        proof {
            assert(sv.take(i + 1).drop_last() =~= sv.take(i as int));
            assert(sv.take(i + 1).last() == parts@[i as int]@);
        }
        if i > 0 {
            out.append(sep);
        } else {
            assert(sv.take(1) =~= seq![parts@[0]@]);
        }
        out.append(parts[i].as_str());
        i = i + 1;
    }
    proof {
        assert(sv.take(parts@.len() as int) =~= sv);
    }
    out
}

} // verus!
