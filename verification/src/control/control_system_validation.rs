//! Checks that a host is the system a control script expects: a
//! distribution name and a release version constraint.
use vstd::prelude::*;
use vstd::std_specs::cmp::PartialEqSpecImpl;
use crate::text::{
    chars_of, concat2, concat3, eq_ignore_ascii_case, eq_ignore_ascii_case_chars, find_char,
    find_char_from, has_char, has_char_exec, lemma_find_char_range, owned, parse_u32,
    parse_u32_chars, slice_chars, split_once, split_once_chars, str_eq, string_of, trim, trim_chars,
};

verus! {

/// Whether `char::is_numeric` holds of a character: it has one of Unicode's
/// number categories.
pub uninterp spec fn unicode_numeric(c: char) -> bool;

/// Whether `char::is_alphabetic` holds of a character: it has Unicode's
/// `Alphabetic` property.
pub uninterp spec fn unicode_alphabetic(c: char) -> bool;

/// Whether a character is a number, as `char::is_numeric` says: among
/// ASCII characters the digits `0`-`9`; beyond ASCII, Unicode's number
/// categories.
pub open spec fn numeric_char(c: char) -> bool {
    if c <= '\u{7f}' {
        '0' <= c && c <= '9'
    } else {
        unicode_numeric(c)
    }
}

/// Whether a character is alphabetic, as `char::is_alphabetic` says: among
/// ASCII characters the letters; beyond ASCII, Unicode's `Alphabetic`
/// property.
pub open spec fn alphabetic_char(c: char) -> bool {
    if c <= '\u{7f}' {
        ('a' <= c && c <= 'z') || ('A' <= c && c <= 'Z')
    } else {
        unicode_alphabetic(c)
    }
}

/// `char::is_numeric`. Among ASCII characters only the digits `0`-`9` are
/// numbers; beyond ASCII the result is named, not restated.
#[verifier::external_body]
fn char_is_numeric(c: char) -> (r: bool)
    ensures
        r == unicode_numeric(c),
        r == numeric_char(c),
{
    c.is_numeric()
}

/// `char::is_alphabetic`. Among ASCII characters only the letters are
/// alphabetic; beyond ASCII the result is named, not restated.
#[verifier::external_body]
fn char_is_alphabetic(c: char) -> (r: bool)
    ensures
        r == unicode_alphabetic(c),
        r == alphabetic_char(c),
{
    c.is_alphabetic()
}

/// A release version constraint, held as text so that both `12` and `20.04`
/// can be written.
#[derive(Clone, Debug)]
pub enum SystemValidationReleaseVersion {
    NotSet,
    Equal(String),
    LessThan(String),
    LessThanOrEqual(String),
    GreaterThan(String),
    GreaterThanOrEqual(String),
}

/// A release version constraint with its text as characters.
pub enum ReleaseConstraint {
    NotSet,
    Equal(Seq<char>),
    LessThan(Seq<char>),
    LessThanOrEqual(Seq<char>),
    GreaterThan(Seq<char>),
    GreaterThanOrEqual(Seq<char>),
}

impl View for SystemValidationReleaseVersion {
    type V = ReleaseConstraint;

    open spec fn view(&self) -> ReleaseConstraint {
        match self {
            SystemValidationReleaseVersion::NotSet => ReleaseConstraint::NotSet,
            SystemValidationReleaseVersion::Equal(s) => ReleaseConstraint::Equal(s@),
            SystemValidationReleaseVersion::LessThan(s) => ReleaseConstraint::LessThan(s@),
            SystemValidationReleaseVersion::LessThanOrEqual(s) => ReleaseConstraint::LessThanOrEqual(s@),
            SystemValidationReleaseVersion::GreaterThan(s) => ReleaseConstraint::GreaterThan(s@),
            SystemValidationReleaseVersion::GreaterThanOrEqual(s) => ReleaseConstraint::GreaterThanOrEqual(s@),
        }
    }
}

impl PartialEq for SystemValidationReleaseVersion {
    fn eq(&self, other: &Self) -> (r: bool) {
        match (self, other) {
            (SystemValidationReleaseVersion::NotSet, SystemValidationReleaseVersion::NotSet) => true,
            (SystemValidationReleaseVersion::Equal(a), SystemValidationReleaseVersion::Equal(b)) => str_eq(a.as_str(), b.as_str()),
            (SystemValidationReleaseVersion::LessThan(a), SystemValidationReleaseVersion::LessThan(b)) => str_eq(a.as_str(), b.as_str()),
            (SystemValidationReleaseVersion::LessThanOrEqual(a), SystemValidationReleaseVersion::LessThanOrEqual(b)) => str_eq(a.as_str(), b.as_str()),
            (SystemValidationReleaseVersion::GreaterThan(a), SystemValidationReleaseVersion::GreaterThan(b)) => str_eq(a.as_str(), b.as_str()),
            (SystemValidationReleaseVersion::GreaterThanOrEqual(a), SystemValidationReleaseVersion::GreaterThanOrEqual(b)) => str_eq(a.as_str(), b.as_str()),
            _ => false,
        }
    }
}

impl PartialEqSpecImpl for SystemValidationReleaseVersion {
    open spec fn obeys_eq_spec() -> bool {
        true
    }

    open spec fn eq_spec(&self, other: &Self) -> bool {
        self@ == other@
    }
}

impl ReleaseConstraint {
    pub open spec fn version_text(self) -> Option<Seq<char>> {
        match self {
            ReleaseConstraint::NotSet => None,
            ReleaseConstraint::Equal(s) => Some(s),
            ReleaseConstraint::LessThan(s) => Some(s),
            ReleaseConstraint::LessThanOrEqual(s) => Some(s),
            ReleaseConstraint::GreaterThan(s) => Some(s),
            ReleaseConstraint::GreaterThanOrEqual(s) => Some(s),
        }
    }

    /// Whether a host release satisfies the constraint. Versions with a `.`
    /// in them are not supported and fail; both versions must otherwise be
    /// whole numbers.
    pub open spec fn accepts(self, host: Seq<char>) -> bool {
        match self.version_text() {
            None => true,
            Some(expected) => {
                if has_char(expected, '.') {
                    false
                } else {
                    match parse_u32(expected) {
                        None => false,
                        Some(e) => if has_char(host, '.') {
                            false
                        } else {
                            match parse_u32(host) {
                                None => false,
                                Some(a) => match self {
                                    ReleaseConstraint::LessThan(_) => a < e,
                                    ReleaseConstraint::LessThanOrEqual(_) => a <= e,
                                    ReleaseConstraint::Equal(_) => a == e,
                                    ReleaseConstraint::GreaterThan(_) => a > e,
                                    ReleaseConstraint::GreaterThanOrEqual(_) => a >= e,
                                    ReleaseConstraint::NotSet => false,
                                },
                            }
                        },
                    }
                }
            },
        }
    }
}

impl SystemValidationReleaseVersion {
    /// Whether a host release version satisfies the constraint.
    pub fn is_version_okay(&self, host_version: &str) -> (r: bool)
        ensures
            r == self@.accepts(host_version@),
    {
        match self.get_version_string() {
            None => true,
            Some(expected) => {
                let e = chars_of(expected.as_str());
                if has_char_exec(e.as_slice(), '.') {
                    return false;
                }
                match parse_u32_chars(e.as_slice()) {
                    None => false,
                    Some(expected_value) => {
                        let h = chars_of(host_version);
                        if has_char_exec(h.as_slice(), '.') {
                            return false;
                        }
                        match parse_u32_chars(h.as_slice()) {
                            None => false,
                            Some(actual) => match self {
                                SystemValidationReleaseVersion::LessThan(_) => actual < expected_value,
                                SystemValidationReleaseVersion::LessThanOrEqual(_) => actual <= expected_value,
                                SystemValidationReleaseVersion::Equal(_) => actual == expected_value,
                                SystemValidationReleaseVersion::GreaterThan(_) => actual > expected_value,
                                SystemValidationReleaseVersion::GreaterThanOrEqual(_) => actual >= expected_value,
                                SystemValidationReleaseVersion::NotSet => false,
                            },
                        }
                    },
                }
            },
        }
    }

    /// The version text of the constraint, when there is one.
    pub fn get_version_string(&self) -> (r: Option<String>)
        ensures
            match r {
                Some(s) => self@.version_text() == Some(s@),
                None => self@.version_text() is None,
            },
    {
        match self {
            SystemValidationReleaseVersion::NotSet => None,
            SystemValidationReleaseVersion::LessThan(value) => Some(value.clone()),
            SystemValidationReleaseVersion::LessThanOrEqual(value) => Some(value.clone()),
            SystemValidationReleaseVersion::Equal(value) => Some(value.clone()),
            SystemValidationReleaseVersion::GreaterThan(value) => Some(value.clone()),
            SystemValidationReleaseVersion::GreaterThanOrEqual(value) => Some(value.clone()),
        }
    }

    /// Whether no constraint is set.
    pub fn is_none(&self) -> (r: bool)
        ensures
            r == (self@ is NotSet),
    {
        match self {
            SystemValidationReleaseVersion::NotSet => true,
            _ => false,
        }
    }
}

/// What to check of a host: optionally its distribution name, optionally a
/// release constraint.
#[derive(Clone, Debug)]
pub struct SystemValidation {
    pub id_name: Option<String>,
    pub release: SystemValidationReleaseVersion,
}

/// A validation with its text as characters.
pub struct ValidationSpec {
    pub id_name: Option<Seq<char>>,
    pub release: ReleaseConstraint,
}

impl View for SystemValidation {
    type V = ValidationSpec;

    open spec fn view(&self) -> ValidationSpec {
        ValidationSpec {
            id_name: match self.id_name {
                Some(s) => Some(s@),
                None => None,
            },
            release: self.release@,
        }
    }
}

/// Whether a host's distribution name (compared ignoring ASCII case) and
/// release satisfy a validation.
pub open spec fn accepts_host(v: ValidationSpec, distro_id: Seq<char>, release: Seq<char>) -> bool {
    (match v.id_name {
        Some(n) => eq_ignore_ascii_case(n, distro_id),
        None => true,
    }) && v.release.accepts(release)
}

/// Position of the first numeric character at or after `i`, or -1.
pub open spec fn first_numeric_from(v: Seq<char>, i: int) -> int
    decreases v.len() - i,
{
    if i < 0 || i >= v.len() {
        -1
    } else if numeric_char(v[i]) {
        i
    } else {
        first_numeric_from(v, i + 1)
    }
}

pub open spec fn any_alphabetic(v: Seq<char>) -> bool {
    exists|i: int| 0 <= i < v.len() && alphabetic_char(#[trigger] v[i])
}

/// What one value of a validation string sets, or `None` when it is not
/// understood: text with a number is a release version, optionally behind
/// one of the operators `=`, `<`, `<=`, `>`, `>=`; text without one is a
/// distribution name, which must hold a letter.
pub open spec fn process_value_spec(s: ValidationSpec, v: Seq<char>) -> Option<ValidationSpec> {
    let p = first_numeric_from(v, 0);
    if p >= 0 {
        if p != 0 {
            let prefix = v.take(p);
            let rest = v.skip(p);
            if rest.len() == 0 {
                None
            } else if prefix == "="@ {
                Some(ValidationSpec { release: ReleaseConstraint::Equal(rest), ..s })
            } else if prefix == "<"@ {
                Some(ValidationSpec { release: ReleaseConstraint::LessThan(rest), ..s })
            } else if prefix == "<="@ {
                Some(ValidationSpec { release: ReleaseConstraint::LessThanOrEqual(rest), ..s })
            } else if prefix == ">"@ {
                Some(ValidationSpec { release: ReleaseConstraint::GreaterThan(rest), ..s })
            } else if prefix == ">="@ {
                Some(ValidationSpec { release: ReleaseConstraint::GreaterThanOrEqual(rest), ..s })
            } else {
                None
            }
        } else {
            Some(ValidationSpec { release: ReleaseConstraint::Equal(v), ..s })
        }
    } else if v.len() == 0 || !any_alphabetic(v) {
        None
    } else {
        Some(ValidationSpec { id_name: Some(v), ..s })
    }
}

/// The number of bytes of the UTF-8 encoding of a text.
pub open spec fn utf8_len(s: Seq<char>) -> nat
    decreases s.len(),
{
    if s.len() == 0 {
        0
    } else {
        utf8_len(s.drop_last()) + (if (s.last() as u32) < 0x80 {
            1nat
        } else if (s.last() as u32) < 0x800 {
            2nat
        } else if (s.last() as u32) < 0x10000 {
            3nat
        } else {
            4nat
        })
    }
}

/// Byte position `b` of the encoding of `s` is at the start of a character.
pub open spec fn is_char_start(s: Seq<char>, b: int) -> bool {
    exists|k: int| 0 <= k <= s.len() && #[trigger] utf8_len(s.take(k)) == b
}

/// Splitting a value at its first number, a position counted in
/// characters but used as a byte offset, stays on a character boundary.
pub open spec fn value_split_ok(v: Seq<char>) -> bool {
    let p = first_numeric_from(v, 0);
    p <= 0 || is_char_start(v, p)
}

pub open spec fn empty_validation() -> ValidationSpec {
    ValidationSpec { id_name: None, release: ReleaseConstraint::NotSet }
}

/// The inner text of a validation string: what is between `(` and `)`, or
/// the whole text when it does not start with `(`.
pub open spec fn validation_body(value: Seq<char>) -> Option<Seq<char>> {
    if value.len() > 0 && value[0] == '(' {
        let c = value.drop_first();
        if c.len() > 0 && c.last() == ')' {
            Some(c.drop_last())
        } else {
            None
        }
    } else {
        Some(value)
    }
}

/// The values a validation string is made of.
pub open spec fn validation_parts(value: Seq<char>) -> Seq<Seq<char>> {
    match validation_body(value) {
        Some(w) => match split_once(w, ',') {
            Some(p) => seq![trim(p.0), trim(p.1)],
            None => seq![w],
        },
        None => seq![],
    }
}

/// A validation string can be read without failing.
pub open spec fn validation_text_ok(value: Seq<char>) -> bool {
    forall|i: int| 0 <= i < validation_parts(value).len() ==> value_split_ok(#[trigger] validation_parts(value)[i])
}

/// What a validation string gives: `Err` with a message when it is not
/// understood.
pub open spec fn parse_validation(value: Seq<char>) -> Result<ValidationSpec, Seq<char>> {
    match validation_body(value) {
        None => Err("Invalid SystemValidation string: missing closing parenthesis"@),
        Some(w) => if w.len() == 0 {
            Err("Invalid SystemValidation string: empty value"@)
        } else {
            match split_once(w, ',') {
                Some(p) => match process_value_spec(empty_validation(), trim(p.0)) {
                    None => Err(
                        "Invalid SystemValidation string: couldn't interpret string value correctly: '"@
                            + p.0 + "'"@,
                    ),
                    Some(s1) => match process_value_spec(s1, trim(p.1)) {
                        None => Err(
                            "Invalid SystemValidation string: couldn't interpret string value correctly: '"@
                                + p.1 + "'"@,
                        ),
                        Some(s2) => Ok(s2),
                    },
                },
                None => match process_value_spec(empty_validation(), w) {
                    None => Err(
                        "Invalid SystemValidation string: couldn't interpret string value correctly: '"@
                            + w + "'"@,
                    ),
                    Some(s1) => Ok(s1),
                },
            }
        },
    }
}

/// What a read validation holds: a distribution name that is not empty,
/// holds a letter and no number; a release version that starts with a
/// number.
pub open spec fn validation_well_read(s: ValidationSpec) -> bool {
    &&& (s.id_name matches Some(n) ==> n.len() > 0 && any_alphabetic(n) && forall|j: int|
        0 <= j < n.len() ==> !numeric_char(#[trigger] n[j]))
    &&& (s.release.version_text() matches Some(v) ==> v.len() > 0 && numeric_char(v[0]))
}

/// A validation string that reads gives something to check: a distribution
/// name with a letter and no number, and a release version that starts
/// with a number.
pub proof fn lemma_parsed_validation_is_checkable(value: Seq<char>)
    requires
        parse_validation(value) is Ok,
    ensures
        parse_validation(value)->Ok_0.id_name is Some || !(parse_validation(value)->Ok_0.release is NotSet),
        validation_well_read(parse_validation(value)->Ok_0),
{
    let w = validation_body(value)->Some_0;
    match split_once(w, ',') {
        Some(p) => {
            lemma_process_value_well_read(empty_validation(), trim(p.0));
            let s1 = process_value_spec(empty_validation(), trim(p.0))->Some_0;
            lemma_process_value_well_read(s1, trim(p.1));
        },
        None => {
            lemma_process_value_well_read(empty_validation(), w);
        },
    }
}

/// Reading one value keeps a validation well read, and sets something.
proof fn lemma_process_value_well_read(s: ValidationSpec, v: Seq<char>)
    requires
        validation_well_read(s),
        process_value_spec(s, v) is Some,
    ensures
        validation_well_read(process_value_spec(s, v)->Some_0),
        process_value_spec(s, v)->Some_0.id_name is Some || !(process_value_spec(s, v)->Some_0.release is NotSet),
{
    lemma_first_numeric_from(v, 0);
    let p = first_numeric_from(v, 0);
    let t = process_value_spec(s, v)->Some_0;
    if p > 0 {
        let rest = v.skip(p);
        assert(rest[0] == v[p]);
        assert(t.id_name == s.id_name);
        assert(t.release.version_text() == Some(rest));
    } else if p == 0 {
        assert(t.id_name == s.id_name);
        assert(t.release.version_text() == Some(v));
    } else {
        assert(t.release == s.release);
        assert(t.id_name == Some(v));
    }
}

proof fn lemma_first_numeric_from(v: Seq<char>, i: int)
    requires
        0 <= i,
    ensures
        first_numeric_from(v, i) >= -1,
        first_numeric_from(v, i) == -1 ==> forall|j: int| i <= j < v.len() ==> !numeric_char(#[trigger] v[j]),
        first_numeric_from(v, i) >= 0 ==> i <= first_numeric_from(v, i) < v.len() && numeric_char(
            v[first_numeric_from(v, i)],
        ),
    decreases v.len() - i,
{
    if i < v.len() && !numeric_char(v[i]) {
        lemma_first_numeric_from(v, i + 1);
    }
}

/// The first numeric character of a text.
fn first_numeric(v: &[char]) -> (r: Option<usize>)
    ensures
        match r {
            Some(p) => first_numeric_from(v@, 0) == p && p < v@.len(),
            None => first_numeric_from(v@, 0) == -1,
        },
{
    let mut i: usize = 0;
    while i < v.len()
        invariant
            i <= v.len(),
            first_numeric_from(v@, 0) == first_numeric_from(v@, i as int),
        decreases v.len() - i,
    {
        if char_is_numeric(v[i]) {
            return Some(i);
        }
        i = i + 1;
    }
    None
}

/// Whether a text holds an alphabetic character.
fn has_alphabetic(v: &[char]) -> (r: bool)
    ensures
        r == any_alphabetic(v@),
{
    let mut i: usize = 0;
    while i < v.len()
        invariant
            i <= v.len(),
            forall|j: int| 0 <= j < i ==> !alphabetic_char(#[trigger] v@[j]),
        decreases v.len() - i,
    {
        if char_is_alphabetic(v[i]) {
            return true;
        }
        i = i + 1;
    }
    false
}

fn is_text(v: &[char], lit: &str) -> (r: bool)
    ensures
        r == (v@ == lit@),
{
    let l = chars_of(lit);
    crate::text::chars_eq(v, l.as_slice())
}

impl SystemValidation {
    pub fn new() -> (r: SystemValidation)
        ensures
            r@ == empty_validation(),
    {
        SystemValidation { id_name: None, release: SystemValidationReleaseVersion::NotSet }
    }

    /// Whether anything is to be checked.
    pub fn needs_checking(&self) -> (r: bool)
        ensures
            r == (self@.id_name is Some || !(self@.release is NotSet)),
    {
        self.id_name.is_some() || !self.release.is_none()
    }

    /// Whether the host's distribution name (compared ignoring ASCII case)
    /// and release satisfy the validation.
    pub fn check_actual_distro_values(&self, distro_id: &str, release: &str) -> (r: bool)
        ensures
            r == accepts_host(self@, distro_id@, release@),
    {
        if let Some(expected_id_name) = &self.id_name {
            let a = chars_of(expected_id_name.as_str());
            let b = chars_of(distro_id);
            if !eq_ignore_ascii_case_chars(a.as_slice(), b.as_slice()) {
                return false;
            }
        }
        if !self.release.is_version_okay(release) {
            return false;
        }
        true
    }

    /// Takes one value of a validation string into the validation; false
    /// when it is not understood.
    pub fn process_value(&mut self, value: &str) -> (r: bool)
        requires
            value_split_ok(value@),
        ensures
            match process_value_spec(old(self)@, value@) {
                Some(s) => r && final(self)@ == s,
                None => !r,
            },
    {
        let v = chars_of(value);
        match first_numeric(v.as_slice()) {
            Some(p) => {
                if p != 0 {
                    let prefix = slice_chars(v.as_slice(), 0, p);
                    let rest = slice_chars(v.as_slice(), p, v.len());
                    assert(prefix@ =~= v@.take(p as int));
                    assert(rest@ =~= v@.skip(p as int));
                    if rest.len() == 0 {
                        return false;
                    }
                    let remainder = string_of(rest.as_slice());
                    if is_text(prefix.as_slice(), "=") {
                        self.release = SystemValidationReleaseVersion::Equal(remainder);
                    } else if is_text(prefix.as_slice(), "<") {
                        self.release = SystemValidationReleaseVersion::LessThan(remainder);
                    } else if is_text(prefix.as_slice(), "<=") {
                        self.release = SystemValidationReleaseVersion::LessThanOrEqual(remainder);
                    } else if is_text(prefix.as_slice(), ">") {
                        self.release = SystemValidationReleaseVersion::GreaterThan(remainder);
                    } else if is_text(prefix.as_slice(), ">=") {
                        self.release = SystemValidationReleaseVersion::GreaterThanOrEqual(remainder);
                    } else {
                        return false;
                    }
                } else {
                    self.release = SystemValidationReleaseVersion::Equal(owned(value));
                }
            },
            None => {
                if v.len() == 0 {
                    return false;
                }
                if !has_alphabetic(v.as_slice()) {
                    return false;
                }
                self.id_name = Some(owned(value));
            },
        }
        true
    }

    /// Reads a validation string: a distribution name (`Debian`), a release
    /// version (`12`, `20.04`, `>=12`), or both in brackets separated by a
    /// comma (`(Debian,12)`), in either order.
    pub fn parse_string_value(value: &str) -> (r: Result<SystemValidation, String>)
        requires
            validation_text_ok(value@),
        ensures
            match parse_validation(value@) {
                Ok(s) => r matches Ok(v) && v@ == s,
                Err(m) => r matches Err(e) && e@ == m,
            },
            r matches Ok(v) ==> (v@.id_name is Some || !(v@.release is NotSet)) && validation_well_read(v@),
    {
        proof {
            if parse_validation(value@) is Ok {
                lemma_parsed_validation_is_checkable(value@);
            }
        }
        let chars = chars_of(value);
        let n = chars.len();
        let working: Vec<char> = if n > 0 && chars[0] == '(' {
            if n > 1 && chars[n - 1] == ')' {
                let w = slice_chars(chars.as_slice(), 1, n - 1);
                assert(w@ =~= value@.drop_first().drop_last());
                w
            } else {
                return Err(owned("Invalid SystemValidation string: missing closing parenthesis"));
            }
        } else {
            chars
        };
        assert(validation_body(value@) == Some(working@));
        if working.len() == 0 {
            return Err(owned("Invalid SystemValidation string: empty value"));
        }
        let mut parsed_values = SystemValidation::new();
        match split_once_chars(working.as_slice(), ',') {
            Some(parts) => {
                let v1 = trim_chars(parts.0.as_slice());
                let v2 = trim_chars(parts.1.as_slice());
                assert(validation_parts(value@)[0] == v1@);
                assert(validation_parts(value@)[1] == v2@);
                let s1 = string_of(v1.as_slice());
                if !parsed_values.process_value(s1.as_str()) {
                    let raw = string_of(parts.0.as_slice());
                    return Err(concat3(
                        "Invalid SystemValidation string: couldn't interpret string value correctly: '",
                        raw.as_str(),
                        "'",
                    ));
                }
                let s2 = string_of(v2.as_slice());
                if !parsed_values.process_value(s2.as_str()) {
                    let raw = string_of(parts.1.as_slice());
                    return Err(concat3(
                        "Invalid SystemValidation string: couldn't interpret string value correctly: '",
                        raw.as_str(),
                        "'",
                    ));
                }
            },
            None => {
                assert(validation_parts(value@)[0] == working@);
                let w = string_of(working.as_slice());
                if !parsed_values.process_value(w.as_str()) {
                    return Err(concat3(
                        "Invalid SystemValidation string: couldn't interpret string value correctly: '",
                        w.as_str(),
                        "'",
                    ));
                }
            },
        }
        Ok(parsed_values)
    }
}

/// The bytes a character takes in UTF-8.
pub open spec fn utf8_width(c: char) -> nat {
    if (c as u32) < 0x80 {
        1
    } else if (c as u32) < 0x800 {
        2
    } else if (c as u32) < 0x10000 {
        3
    } else {
        4
    }
}

fn utf8_width_exec(c: char) -> (r: usize)
    ensures
        r == utf8_width(c),
{
    let n = c as u32;
    if n < 0x80 {
        1
    } else if n < 0x800 {
        2
    } else if n < 0x10000 {
        3
    } else {
        4
    }
}

proof fn lemma_utf8_len_step(s: Seq<char>, k: int)
    requires
        0 <= k < s.len(),
    ensures
        utf8_len(s.take(k + 1)) == utf8_len(s.take(k)) + utf8_width(s[k]),
        utf8_len(s.take(k + 1)) > utf8_len(s.take(k)),
{
    assert(s.take(k + 1).drop_last() =~= s.take(k));
}

proof fn lemma_utf8_len_mono(s: Seq<char>, a: int, b: int)
    requires
        0 <= a <= b <= s.len(),
    ensures
        utf8_len(s.take(a)) + (b - a) <= utf8_len(s.take(b)),
    decreases b - a,
{
    if a < b {
        lemma_utf8_len_mono(s, a, b - 1);
        lemma_utf8_len_step(s, b - 1);
    }
}

/// Whether byte position `b` of the encoding of a text starts a character.
fn is_char_start_exec(v: &[char], b: usize) -> (r: bool)
    requires
        b <= v@.len(),
    ensures
        r == is_char_start(v@, b as int),
{
    let mut k: usize = 0;
    let mut acc: u128 = 0;
    let target: u128 = b as u128;
    assert(v@.take(0) =~= Seq::<char>::empty());
    while k <= v.len()
        invariant
            k <= v@.len() + 1,
            k <= v@.len() ==> acc == utf8_len(v@.take(k as int)),
            acc <= b + 4,
            target == b,
            b <= v@.len(),
            forall|q: int| 0 <= q < k && q <= v@.len() ==> #[trigger] utf8_len(v@.take(q)) != b,
        decreases v@.len() + 1 - k,
    {
        if acc == target {
            assert(utf8_len(v@.take(k as int)) == b);
            return true;
        }
        if acc > target {
            proof {
                assert forall|q: int| 0 <= q <= v@.len() implies #[trigger] utf8_len(v@.take(q)) != b by {
                    if q >= k {
                        lemma_utf8_len_mono(v@, k as int, q);
                    }
                }
            }
            return false;
        }
        if k == v.len() {
            return false;
        }
        proof {
            lemma_utf8_len_step(v@, k as int);
        }
        acc = acc + (utf8_width_exec(v[k]) as u128);
        k = k + 1;
    }
    false
}

fn value_split_ok_exec(v: &[char]) -> (r: bool)
    ensures
        r == value_split_ok(v@),
{
    match first_numeric(v) {
        None => true,
        Some(p) => if p == 0 {
            true
        } else {
            is_char_start_exec(v, p)
        },
    }
}

/// Whether a validation string can be read without failing.
pub fn validation_text_is_readable(value: &str) -> (r: bool)
    ensures
        r == validation_text_ok(value@),
{
    let chars = chars_of(value);
    let n = chars.len();
    let working: Vec<char> = if n > 0 && chars[0] == '(' {
        if n > 1 && chars[n - 1] == ')' {
            let w = slice_chars(chars.as_slice(), 1, n - 1);
            assert(w@ =~= value@.drop_first().drop_last());
            w
        } else {
            assert(validation_parts(value@) =~= Seq::<Seq<char>>::empty());
            return true;
        }
    } else {
        chars
    };
    assert(validation_body(value@) == Some(working@));
    match split_once_chars(working.as_slice(), ',') {
        Some(parts) => {
            let a = trim_chars(parts.0.as_slice());
            let b = trim_chars(parts.1.as_slice());
            let oka = value_split_ok_exec(a.as_slice());
            let okb = value_split_ok_exec(b.as_slice());
            assert(validation_parts(value@) =~= seq![a@, b@]);
            if !oka {
                assert(!value_split_ok(validation_parts(value@)[0]));
            }
            if !okb {
                assert(!value_split_ok(validation_parts(value@)[1]));
            }
            oka && okb
        },
        None => {
            assert(validation_parts(value@) =~= seq![working@]);
            let ok = value_split_ok_exec(working.as_slice());
            if !ok {
                assert(!value_split_ok(validation_parts(value@)[0]));
            }
            ok
        },
    }
}



/// A release constraint on whole numbers compares the host's release with
/// the required one as numbers: `>=` accepts a release at least the
/// required one, `>` one above it, `=` the same, `<` one below it and `<=`
/// one at most the required one.
pub proof fn lemma_release_constraints_compare_numbers(expected: Seq<char>, host: Seq<char>)
    requires
        !has_char(expected, '.'),
        !has_char(host, '.'),
        parse_u32(expected) is Some,
        parse_u32(host) is Some,
    ensures
        ({
            let e = parse_u32(expected)->Some_0;
            let a = parse_u32(host)->Some_0;
            &&& ReleaseConstraint::GreaterThanOrEqual(expected).accepts(host) == (a >= e)
            &&& ReleaseConstraint::GreaterThan(expected).accepts(host) == (a > e)
            &&& ReleaseConstraint::Equal(expected).accepts(host) == (a == e)
            &&& ReleaseConstraint::LessThan(expected).accepts(host) == (a < e)
            &&& ReleaseConstraint::LessThanOrEqual(expected).accepts(host) == (a <= e)
        }),
{
}

/// A host at exactly the required whole-number release passes `>=`, `<=`
/// and `=` and fails `>` and `<`; no constraint at all accepts any release.
pub proof fn lemma_release_constraints_at_the_required_release(version: Seq<char>, host: Seq<char>)
    requires
        !has_char(version, '.'),
        parse_u32(version) is Some,
    ensures
        ReleaseConstraint::GreaterThanOrEqual(version).accepts(version),
        ReleaseConstraint::LessThanOrEqual(version).accepts(version),
        ReleaseConstraint::Equal(version).accepts(version),
        !ReleaseConstraint::GreaterThan(version).accepts(version),
        !ReleaseConstraint::LessThan(version).accepts(version),
        ReleaseConstraint::NotSet.accepts(host),
{
}

/// A host whose distribution name is the required one passes the check of
/// a `>=` validation exactly when its whole-number release is at least the
/// required one.
pub proof fn lemma_host_check_at_least_release(name: Seq<char>, version: Seq<char>, host_release: Seq<char>)
    requires
        !has_char(version, '.'),
        !has_char(host_release, '.'),
        parse_u32(version) is Some,
        parse_u32(host_release) is Some,
    ensures
        accepts_host(
            ValidationSpec { id_name: Some(name), release: ReleaseConstraint::GreaterThanOrEqual(version) },
            name,
            host_release,
        ) == (parse_u32(host_release)->Some_0 >= parse_u32(version)->Some_0),
{
}

} // verus!
