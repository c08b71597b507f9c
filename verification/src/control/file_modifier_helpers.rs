//! Changes to sshd configuration text: setting a parameter keeps one active
//! line for it and comments out the lines that set it before.
use vstd::prelude::*;
use crate::text::{
    chars_of, concat2, concat3, find_chars, find_from, join, join_chars, lemma_find_range, lines_of,
    occurs_at, owned, push_all, slice_chars, split_lines, starts_with, starts_with_chars, string_of,
    trim, trim_chars, int_decimal, vecs_view, int_to_string, has_char,
};
use crate::params::strings_view;

verus! {

pub enum SshDPermitRootLoginType {
    No,
    ProhibitPassword,
    Yes,
}

pub struct ModifySshDConfigParams {
    pub password_authentication: Option<bool>,
    pub permit_empty_passwords: Option<bool>,
    pub permit_root_login: Option<SshDPermitRootLoginType>,
    pub port: Option<u16>,
    pub pub_key_authentication: Option<bool>,
}

impl ModifySshDConfigParams {
    pub fn new() -> (r: ModifySshDConfigParams)
        ensures
            r.password_authentication is None,
            r.permit_empty_passwords is None,
            r.permit_root_login is None,
            r.port is None,
            r.pub_key_authentication is None,
    {
        ModifySshDConfigParams {
            password_authentication: None,
            permit_empty_passwords: None,
            permit_root_login: None,
            port: None,
            pub_key_authentication: None,
        }
    }

    pub open spec fn spec_any_set(&self) -> bool {
        ||| self.password_authentication is Some
        ||| self.permit_empty_passwords is Some
        ||| self.permit_root_login is Some
        ||| self.port is Some
        ||| self.pub_key_authentication is Some
    }

    /// Whether any of the settings is to be changed.
    pub fn any_set(&self) -> (r: bool)
        ensures
            r == self.spec_any_set(),
    {
        self.password_authentication.is_some() || self.permit_empty_passwords.is_some()
            || self.permit_root_login.is_some() || self.port.is_some()
            || self.pub_key_authentication.is_some()
    }
}

// ---------------------------------------------------------------------
// How a line stands towards a parameter key
// ---------------------------------------------------------------------

/// Where the key first occurs in the line, or -1.
pub open spec fn key_pos(line: Seq<char>, key: Seq<char>) -> int {
    find_from(line, key, 0)
}

/// The line does not mention the key as a whole word: the key is absent,
/// or the character right after its first occurrence is neither a space
/// nor a tab.
pub open spec fn is_unrelated(line: Seq<char>, key: Seq<char>) -> bool {
    let k = key_pos(line, key);
    k < 0 || {
        let rem = line.skip(k + key.len());
        rem.len() > 0 && rem[0] != ' ' && rem[0] != '\t'
    }
}

/// The line mentions the key behind a comment character.
pub open spec fn is_commented(line: Seq<char>, key: Seq<char>) -> bool {
    !is_unrelated(line, key) && key_pos(line, key) > 0 && starts_with(
        trim(line.take(key_pos(line, key))),
        seq!['#'],
    )
}

/// The line sets the key: it mentions it, not behind a comment character.
pub open spec fn is_active(line: Seq<char>, key: Seq<char>) -> bool {
    !is_unrelated(line, key) && !is_commented(line, key)
}

/// Index of the last line that sets the key, or -1.
pub open spec fn last_active(ls: Seq<Seq<char>>, key: Seq<char>) -> int
    decreases ls.len(),
{
    if ls.len() == 0 {
        -1
    } else if is_active(ls.last(), key) {
        ls.len() - 1
    } else {
        last_active(ls.drop_last(), key)
    }
}

/// Index of the first line that mentions the key behind a comment, or -1.
pub open spec fn first_commented(ls: Seq<Seq<char>>, key: Seq<char>) -> int
    decreases ls.len(),
{
    if ls.len() == 0 {
        -1
    } else {
        let f = first_commented(ls.drop_last(), key);
        if f >= 0 {
            f
        } else if is_commented(ls.last(), key) {
            ls.len() - 1
        } else {
            -1
        }
    }
}

/// Where the new setting goes: above the last line that set the key; else
/// above the first commented mention of it; else at the top.
pub open spec fn setting_position(ls: Seq<Seq<char>>, key: Seq<char>) -> int {
    if last_active(ls, key) >= 0 {
        last_active(ls, key)
    } else if first_commented(ls, key) >= 0 {
        first_commented(ls, key)
    } else {
        0
    }
}

/// A line after the change: lines that set the key are commented out.
pub open spec fn disabled_line(line: Seq<char>, key: Seq<char>) -> Seq<char> {
    if is_active(line, key) {
        seq!['#'] + line
    } else {
        line
    }
}

/// The text of the new setting line: the key, a space, the value.
pub open spec fn setting_line(key: Seq<char>, value: Seq<char>) -> Seq<char> {
    key + seq![' '] + value
}

/// The lines after setting `key` to `value`.
pub open spec fn set_param_lines(ls: Seq<Seq<char>>, key: Seq<char>, value: Seq<char>) -> Seq<Seq<char>> {
    Seq::new(ls.len(), |i: int| disabled_line(ls[i], key)).insert(
        setting_position(ls, key),
        setting_line(key, value),
    )
}

// ---------------------------------------------------------------------
// Laws
// ---------------------------------------------------------------------

/// A key that starts with something other than `c` first occurs in
/// `c + l` one place later than in `l`.
proof fn lemma_find_after_prefix(l: Seq<char>, key: Seq<char>, c: char)
    requires
        key.len() > 0,
        key[0] != c,
    ensures
        find_from(seq![c] + l, key, 0) == (if find_from(l, key, 0) < 0 {
            -1
        } else {
            find_from(l, key, 0) + 1
        }),
{
    let t = seq![c] + l;
    lemma_find_range(l, key, 0);
    assert(!occurs_at(t, key, 0)) by {
        if occurs_at(t, key, 0) {
            assert(t.subrange(0, key.len() as int)[0] == key[0]);
        }
    }
    assert forall|j: int| 0 <= j implies #[trigger] occurs_at(t, key, j + 1) == occurs_at(l, key, j) by {
        if j + 1 + key.len() <= t.len() {
            assert(t.subrange(j + 1, j + 1 + key.len()) =~= l.subrange(j, j + key.len()));
        }
    }
    let f = find_from(l, key, 0);
    if f < 0 {
        assert forall|j: int| 0 <= j implies !occurs_at(t, key, j) by {
            if j > 0 {
                assert(occurs_at(t, key, (j - 1) + 1) == occurs_at(l, key, j - 1));
            }
        }
        crate::text::lemma_find_none(t, key, 0);
    } else {
        assert(occurs_at(t, key, f + 1) == occurs_at(l, key, f));
        assert forall|j: int| 0 <= j < f + 1 implies !occurs_at(t, key, j) by {
            if j > 0 {
                assert(occurs_at(t, key, (j - 1) + 1) == occurs_at(l, key, j - 1));
            }
        }
        crate::text::lemma_find_at(t, key, 0, f + 1);
    }
}

/// Trimming the end of a text that starts with a non-space keeps its start.
proof fn lemma_trim_end_keeps_first(s: Seq<char>)
    requires
        s.len() > 0,
        !crate::text::is_ws(s[0]),
    ensures
        crate::text::trim_end(s).len() > 0,
        crate::text::trim_end(s)[0] == s[0],
    decreases s.len(),
{
    if s.len() > 1 && crate::text::is_ws(s.last()) {
        lemma_trim_end_keeps_first(s.drop_last());
    }
}

/// A line that set the key, once commented out, mentions it behind a comment.
proof fn lemma_disabled_is_commented(l: Seq<char>, key: Seq<char>)
    requires
        key.len() > 0,
        !has_char(key, '#'),
        is_active(l, key),
    ensures
        is_commented(seq!['#'] + l, key),
{
    let t = seq!['#'] + l;
    assert(key[0] != '#');
    lemma_find_after_prefix(l, key, '#');
    let k = key_pos(l, key);
    lemma_find_range(l, key, 0);
    assert(k >= 0);
    assert(occurs_at(l, key, k));
    assert(key_pos(t, key) == k + 1);
    assert(t.skip(k + 1 + key.len()) =~= l.skip(k + key.len()));
    let before = t.take(k + 1);
    assert(before[0] == '#');
    assert(crate::text::trim_start(before) == before) by {
        assert(!crate::text::is_ws(before[0]));
    }
    lemma_trim_end_keeps_first(before);
    assert(trim(before) == crate::text::trim_end(before));
    assert(trim(before).take(1) =~= seq!['#']);
}

/// The new setting line sets the key.
proof fn lemma_setting_line_active(key: Seq<char>, value: Seq<char>)
    ensures
        is_active(setting_line(key, value), key),
{
    let t = setting_line(key, value);
    assert(t.subrange(0, key.len() as int) =~= key);
    crate::text::lemma_find_at(t, key, 0, 0);
    assert(t.skip(key.len() as int)[0] == ' ');
}

/// After a parameter is set, exactly one line sets it: the new line. (For a
/// key with no `#` in it; the lines that set it before are now comments.)
pub proof fn lemma_set_param_single_setting(ls: Seq<Seq<char>>, key: Seq<char>, value: Seq<char>)
    requires
        key.len() > 0,
        !has_char(key, '#'),
    ensures
        ({
            let r = set_param_lines(ls, key, value);
            &&& r.len() == ls.len() + 1
            &&& r[setting_position(ls, key)] == setting_line(key, value)
            &&& forall|i: int| 0 <= i < r.len() ==> (is_active(#[trigger] r[i], key) <==> i
                == setting_position(ls, key))
        }),
{
    lemma_setting_position_range(ls, key);
    let p = setting_position(ls, key);
    let base = Seq::new(ls.len(), |i: int| disabled_line(ls[i], key));
    let r = set_param_lines(ls, key, value);
    lemma_setting_line_active(key, value);
    assert forall|i: int| 0 <= i < base.len() implies !is_active(#[trigger] base[i], key) by {
        if is_active(ls[i], key) {
            lemma_disabled_is_commented(ls[i], key);
        }
    }
    assert forall|i: int| 0 <= i < r.len() implies (is_active(#[trigger] r[i], key) <==> i == p) by {
        if i < p {
            assert(r[i] == base[i]);
        } else if i > p {
            assert(r[i] == base[i - 1]);
        }
    }
}

proof fn lemma_last_active_range(ls: Seq<Seq<char>>, key: Seq<char>)
    ensures
        -1 <= last_active(ls, key) < ls.len(),
    decreases ls.len(),
{
    if ls.len() > 0 {
        lemma_last_active_range(ls.drop_last(), key);
    }
}

proof fn lemma_first_commented_range(ls: Seq<Seq<char>>, key: Seq<char>)
    ensures
        -1 <= first_commented(ls, key) < ls.len(),
    decreases ls.len(),
{
    if ls.len() > 0 {
        lemma_first_commented_range(ls.drop_last(), key);
    }
}

proof fn lemma_setting_position_range(ls: Seq<Seq<char>>, key: Seq<char>)
    ensures
        0 <= setting_position(ls, key) <= ls.len(),
{
    lemma_last_active_range(ls, key);
    lemma_first_commented_range(ls, key);
}

// ---------------------------------------------------------------------
// Executable
// ---------------------------------------------------------------------

/// Classifies a line: 0 unrelated, 1 commented mention, 2 setting.
fn classify_line(line: &[char], key: &[char]) -> (r: u8)
    ensures
        r == 0 <==> is_unrelated(line@, key@),
        r == 1 <==> is_commented(line@, key@),
        r == 2 <==> is_active(line@, key@),
{
    match find_chars(line, key) {
        None => 0,
        Some(k) => {
            proof {
                lemma_find_range(line@, key@, 0);
                assert(occurs_at(line@, key@, k as int));
                assert(k + key@.len() <= line@.len());
                assert(key@.len() == key.len());
                assert(line@.len() == line.len());
            }
            let after = k + key.len();
            if after < line.len() && line[after] != ' ' && line[after] != '\t' {
                assert(line@.skip(after as int)[0] == line@[after as int]);
                return 0;
            }
            assert(after == line.len() ==> line@.skip(after as int).len() == 0);
            assert(after < line.len() ==> line@.skip(after as int)[0] == line@[after as int]);
            if k > 0 {
                let before = slice_chars(line, 0, k);
                assert(before@ =~= line@.take(k as int));
                let trimmed = trim_chars(before.as_slice());
                let hash: [char; 1] = ['#'];
                assert(hash@ =~= seq!['#']);
                if starts_with_chars(trimmed.as_slice(), &hash) {
                    1
                } else {
                    2
                }
            } else {
                2
            }
        },
    }
}

/// Sets `key` to `value` in configuration lines: every line that sets the
/// key is commented out, and a line `key value` is added above the last of
/// them, or else above the first commented mention, or else at the top.
pub fn set_file_lines_param_value(file_content_lines: &mut Vec<String>, key: &str, value: &str) -> (r:
    bool)
    ensures
        r,
        strings_view(final(file_content_lines)@) == set_param_lines(
            strings_view(old(file_content_lines)@),
            key@,
            value@,
        ),
{
    let ghost ls = strings_view(file_content_lines@);
    let key_chars = chars_of(key);
    let mut candidate: Option<usize> = None;
    let mut idx: usize = 0;
    let n = file_content_lines.len();
    while idx < n
        invariant
            n == file_content_lines@.len(),
            ls.len() == n,
            idx <= n,
            key_chars@ == key@,
            forall|j: int| 0 <= j < idx ==> #[trigger] file_content_lines@[j]@ == disabled_line(ls[j], key@),
            forall|j: int| idx <= j < n ==> #[trigger] file_content_lines@[j]@ == ls[j],
            match candidate {
                Some(c) => c as int == (if last_active(ls.take(idx as int), key@) >= 0 {
                    last_active(ls.take(idx as int), key@)
                } else {
                    first_commented(ls.take(idx as int), key@)
                }) && c < idx,
                None => last_active(ls.take(idx as int), key@) < 0 && first_commented(
                    ls.take(idx as int),
                    key@,
                ) < 0,
            },
        decreases n - idx,
    {
        let line_chars = chars_of(file_content_lines[idx].as_str());
        let kind = classify_line(line_chars.as_slice(), key_chars.as_slice());
        proof {
            assert(ls.take(idx + 1).drop_last() =~= ls.take(idx as int));
            assert(ls.take(idx + 1).last() == ls[idx as int]);
            assert(line_chars@ == ls[idx as int]);
        }
        if kind == 1 {
            if candidate.is_none() {
                candidate = Some(idx);
            }
        } else if kind == 2 {
            proof {
                reveal_strlit("#");
            }
            let new_line = concat2("#", file_content_lines[idx].as_str());
            file_content_lines.set(idx, new_line);
            candidate = Some(idx);
        }
        idx = idx + 1;
    }
    proof {
        assert(ls.take(n as int) =~= ls);
    }
    let line = concat3(key, " ", value);
    let pos: usize = match candidate {
        Some(c) => c,
        None => 0,
    };
    file_content_lines.insert(pos, line);
    proof {
        let target = set_param_lines(ls, key@, value@);
        let base = Seq::new(ls.len(), |i: int| disabled_line(ls[i], key@));
        assert(strings_view(file_content_lines@) =~= target) by {
            assert(setting_position(ls, key@) == pos);
            assert forall|j: int| 0 <= j < target.len() implies #[trigger] strings_view(file_content_lines@)[j]
                == target[j] by {
                if j < pos {
                    assert(target[j] == base[j]);
                } else if j == pos {
                    assert(" "@ == seq![' ']) by {
                        reveal_strlit(" ");
                    }
                } else {
                    assert(target[j] == base[j - 1]);
                }
            }
        }
    }
    true
}

/// Replaces the setting of `key` in the text of a configuration file.
pub fn set_text_param(lines: &mut Vec<String>, key: &str, value: &str)
    ensures
        strings_view(final(lines)@) == set_param_lines(strings_view(old(lines)@), key@, value@),
{
    set_file_lines_param_value(lines, key, value);
}

/// The lines of a text as strings.
pub fn text_lines(content: &str) -> (r: Vec<String>)
    ensures
        strings_view(r@) == lines_of(content@),
{
    let chars = chars_of(content);
    let ls = split_lines(chars.as_slice());
    let mut r: Vec<String> = Vec::new();
    let mut i: usize = 0;
    while i < ls.len()
        invariant
            i <= ls.len(),
            ls@.len() == lines_of(content@).len(),
            forall|j: int| 0 <= j < ls@.len() ==> #[trigger] ls@[j]@ == lines_of(content@)[j],
            strings_view(r@) == lines_of(content@).take(i as int),
            r@.len() == i,
        decreases ls.len() - i,
    {
        let s = string_of(ls[i].as_slice());
        let ghost prev = r@;
        r.push(s);
        proof {
            assert forall|j: int| 0 <= j < i + 1 implies #[trigger] strings_view(r@)[j] == lines_of(content@).take(
                i + 1,
            )[j] by {
                if j < i {
                    assert(r@[j] == prev[j]);
                    assert(strings_view(prev)[j] == prev[j]@);
                }
            }
            assert(strings_view(r@) =~= lines_of(content@).take(i + 1));
        }
        i = i + 1;
    }
    proof {
        assert(lines_of(content@).take(ls.len() as int) =~= lines_of(content@));
    }
    r
}

/// The lines joined with newlines between them, and optionally one at the end.
pub fn join_lines(lines: &Vec<String>, final_newline: bool) -> (r: String)
    ensures
        r@ == join(strings_view(lines@), seq!['\n']) + (if final_newline {
            seq!['\n']
        } else {
            Seq::<char>::empty()
        }),
{
    let mut parts: Vec<Vec<char>> = Vec::new();
    let mut i: usize = 0;
    while i < lines.len()
        invariant
            i <= lines.len(),
            vecs_view(parts@) == strings_view(lines@).take(i as int),
            parts@.len() == i,
        decreases lines.len() - i,
    {
        let ghost prev = parts@;
        parts.push(chars_of(lines[i].as_str()));
        proof {
            assert forall|j: int| 0 <= j < i + 1 implies #[trigger] vecs_view(parts@)[j]
                == strings_view(lines@).take(i + 1)[j] by {
                if j < i {
                    assert(parts@[j] == prev[j]);
                    assert(vecs_view(prev)[j] == prev[j]@);
                }
            }
            assert(vecs_view(parts@) =~= strings_view(lines@).take(i + 1));
        }
        i = i + 1;
    }
    proof {
        assert(strings_view(lines@).take(lines.len() as int) =~= strings_view(lines@));
    }
    let nl: [char; 1] = ['\n'];
    assert(nl@ =~= seq!['\n']);
    let mut joined = join_chars(&parts, &nl);
    if final_newline {
        joined.push('\n');
    } else {
        assert(joined@ + Seq::<char>::empty() =~= joined@);
    }
    string_of(joined.as_slice())
}

pub open spec fn yes_no(b: bool) -> Seq<char> {
    if b {
        "yes"@
    } else {
        "no"@
    }
}

pub open spec fn permit_root_login_text(t: SshDPermitRootLoginType) -> Seq<char> {
    match t {
        SshDPermitRootLoginType::No => "no"@,
        SshDPermitRootLoginType::ProhibitPassword => "prohibit-password"@,
        SshDPermitRootLoginType::Yes => "yes"@,
    }
}

/// Applies one setting when it is given.
pub open spec fn apply_opt(ls: Seq<Seq<char>>, key: Seq<char>, value: Option<Seq<char>>) -> Seq<Seq<char>> {
    match value {
        Some(v) => set_param_lines(ls, key, v),
        None => ls,
    }
}

/// The configuration lines after all the requested settings, applied in the
/// order PasswordAuthentication, PermitEmptyPasswords, PermitRootLogin,
/// Port, PubkeyAuthentication.
pub open spec fn sshd_config_lines(ls: Seq<Seq<char>>, p: ModifySshDConfigParams) -> Seq<Seq<char>> {
    let l1 = apply_opt(
        ls,
        "PasswordAuthentication"@,
        match p.password_authentication {
            Some(b) => Some(yes_no(b)),
            None => None,
        },
    );
    let l2 = apply_opt(
        l1,
        "PermitEmptyPasswords"@,
        match p.permit_empty_passwords {
            Some(b) => Some(yes_no(b)),
            None => None,
        },
    );
    let l3 = apply_opt(
        l2,
        "PermitRootLogin"@,
        match p.permit_root_login {
            Some(t) => Some(permit_root_login_text(t)),
            None => None,
        },
    );
    let l4 = apply_opt(
        l3,
        "Port"@,
        match p.port {
            Some(n) => Some(int_decimal(n as int)),
            None => None,
        },
    );
    apply_opt(
        l4,
        "PubkeyAuthentication"@,
        match p.pub_key_authentication {
            Some(b) => Some(yes_no(b)),
            None => None,
        },
    )
}

fn yes_no_str(b: bool) -> (r: &'static str)
    ensures
        r@ == yes_no(b),
{
    if b {
        "yes"
    } else {
        "no"
    }
}

/// Takes the current contents of an sshd configuration file and gives the
/// contents with the requested settings changed; the result always ends
/// with a newline.
pub fn modify_sshd_config_file_contents(file_content: &str, params: &ModifySshDConfigParams) -> (r:
    Option<String>)
    ensures
        r matches Some(t) && t@ == join(sshd_config_lines(lines_of(file_content@), *params), seq!['\n'])
            + seq!['\n'],
{
    let mut lines = text_lines(file_content);
    let ghost l0 = strings_view(lines@);
    if let Some(b) = params.password_authentication {
        set_text_param(&mut lines, "PasswordAuthentication", yes_no_str(b));
    }
    let ghost l1 = strings_view(lines@);
    if let Some(b) = params.permit_empty_passwords {
        set_text_param(&mut lines, "PermitEmptyPasswords", yes_no_str(b));
    }
    let ghost l2 = strings_view(lines@);
    match &params.permit_root_login {
        Some(t) => {
            let v = match t {
                SshDPermitRootLoginType::No => "no",
                SshDPermitRootLoginType::ProhibitPassword => "prohibit-password",
                SshDPermitRootLoginType::Yes => "yes",
            };
            set_text_param(&mut lines, "PermitRootLogin", v);
        },
        None => {},
    }
    let ghost l3 = strings_view(lines@);
    if let Some(port) = params.port {
        let v = int_to_string(port as i64);
        set_text_param(&mut lines, "Port", v.as_str());
    }
    let ghost l4 = strings_view(lines@);
    if let Some(b) = params.pub_key_authentication {
        set_text_param(&mut lines, "PubkeyAuthentication", yes_no_str(b));
    }
    let final_content = join_lines(&lines, true);
    Some(final_content)
}

/// Sets one parameter in a text and joins the lines without a final newline.
pub fn test_modify_helper(input_content: &str, param_key: &str, param_value: &str) -> (r: String)
    ensures
        r@ == join(set_param_lines(lines_of(input_content@), param_key@, param_value@), seq!['\n']),
{
    let mut lines = text_lines(input_content);
    set_file_lines_param_value(&mut lines, param_key, param_value);
    let r = join_lines(&lines, false);
    assert(r@ =~= join(set_param_lines(lines_of(input_content@), param_key@, param_value@), seq!['\n']));
    r
}

} // verus!
