//! Parameter values of control actions, as read from a control script.
use vstd::prelude::*;
use crate::text::{concat3, int_decimal, int_to_string, nat_decimal, owned, str_eq, string_of, u64_decimal};
use crate::yaml::YamlNode;
use crate::keyed::{by_name, name_order, name_order_upto};

verus! {

/// A parameter value. A map keeps one entry per key.
#[derive(Debug)]
pub enum ParamValue {
    NotSet,
    Unknown,
    Bool(bool),
    Int(i32),
    Str(String),
    Array(Vec<ParamValue>),
    Mapping(Vec<(String, ParamValue)>),
}

/// A parameter value with its text held as character sequences.
pub enum ParamVal {
    NotSet,
    Unknown,
    Bool(bool),
    Int(i32),
    Str(Seq<char>),
    Array(Seq<ParamVal>),
    Mapping(Seq<(Seq<char>, ParamVal)>),
}

pub open spec fn param_seq_view(s: Seq<ParamValue>) -> Seq<ParamVal>
    decreases s,
{
    if s.len() == 0 {
        seq![]
    } else {
        param_seq_view(s.drop_last()).push(s.last().view_val())
    }
}

pub open spec fn entry_seq_view(s: Seq<(String, ParamValue)>) -> Seq<(Seq<char>, ParamVal)>
    decreases s,
{
    if s.len() == 0 {
        seq![]
    } else {
        entry_seq_view(s.drop_last()).push((s.last().0@, s.last().1.view_val()))
    }
}

impl ParamValue {
    pub open spec fn view_val(self) -> ParamVal
        decreases self,
    {
        match self {
            ParamValue::NotSet => ParamVal::NotSet,
            ParamValue::Unknown => ParamVal::Unknown,
            ParamValue::Bool(b) => ParamVal::Bool(b),
            ParamValue::Int(i) => ParamVal::Int(i),
            ParamValue::Str(s) => ParamVal::Str(s@),
            ParamValue::Array(v) => ParamVal::Array(param_seq_view(v@)),
            ParamValue::Mapping(m) => ParamVal::Mapping(entry_seq_view(m@)),
        }
    }
}

impl View for ParamValue {
    type V = ParamVal;

    open spec fn view(&self) -> ParamVal {
        self.view_val()
    }
}

/// Index of the first entry under `key`, at or after `i`, or -1.
pub open spec fn key_index(e: Seq<(String, ParamValue)>, key: Seq<char>, i: int) -> int
    decreases e.len() - i,
{
    if i < 0 || i >= e.len() {
        -1
    } else if e[i].0@ == key {
        i
    } else {
        key_index(e, key, i + 1)
    }
}

/// The value stored under `key`.
pub open spec fn lookup(e: Seq<(String, ParamValue)>, key: Seq<char>) -> Option<ParamValue> {
    let k = key_index(e, key, 0);
    if k < 0 {
        None
    } else {
        Some(e[k].1)
    }
}

/// No key occurs twice.
pub open spec fn distinct_keys(e: Seq<(String, ParamValue)>) -> bool {
    forall|i: int, j: int| 0 <= i < e.len() && 0 <= j < e.len() && i != j ==> e[i].0@ != e[j].0@
}

/// The text of a string value.
pub open spec fn str_of(v: Option<ParamValue>) -> Option<Seq<char>> {
    match v {
        Some(ParamValue::Str(s)) => Some(s@),
        _ => None,
    }
}

/// A flag value, or the default when the value is absent or not a flag.
pub open spec fn bool_or(v: Option<ParamValue>, d: bool) -> bool {
    match v {
        Some(ParamValue::Bool(b)) => b,
        _ => d,
    }
}

/// The text of a string value, or the decimal text of an integer value.
pub open spec fn str_or_int_of(v: Option<ParamValue>) -> Option<Seq<char>> {
    match v {
        Some(ParamValue::Str(s)) => Some(s@),
        Some(ParamValue::Int(i)) => Some(int_decimal(i as int)),
        _ => None,
    }
}

/// The texts of the string items of a list, in order; other items skipped.
pub open spec fn strings_of(items: Seq<ParamValue>) -> Seq<Seq<char>>
    decreases items.len(),
{
    if items.len() == 0 {
        seq![]
    } else {
        let rest = strings_of(items.drop_last());
        match items.last() {
            ParamValue::Str(s) => rest.push(s@),
            _ => rest,
        }
    }
}

/// The texts of the string items of the list stored under a key.
pub open spec fn list_strings_of(v: Option<ParamValue>) -> Seq<Seq<char>> {
    match v {
        Some(ParamValue::Array(a)) => strings_of(a@),
        _ => seq![],
    }
}

pub open spec fn strings_view(v: Seq<String>) -> Seq<Seq<char>> {
    v.map_values(|s: String| s@)
}

pub proof fn lemma_key_index(e: Seq<(String, ParamValue)>, key: Seq<char>, i: int)
    requires
        0 <= i,
    ensures
        key_index(e, key, i) == -1 || (i <= key_index(e, key, i) < e.len() && e[key_index(e, key, i)].0@
            == key),
        key_index(e, key, i) == -1 ==> forall|j: int| i <= j < e.len() ==> e[j].0@ != key,
        key_index(e, key, i) >= 0 ==> forall|j: int| i <= j < key_index(e, key, i) ==> e[j].0@ != key,
    decreases e.len() - i,
{
    if i < e.len() && e[i].0@ != key {
        lemma_key_index(e, key, i + 1);
    }
}

pub proof fn lemma_key_index_at(e: Seq<(String, ParamValue)>, key: Seq<char>, i: int, k: int)
    requires
        0 <= i <= k < e.len(),
        e[k].0@ == key,
        forall|j: int| i <= j < k ==> e[j].0@ != key,
    ensures
        key_index(e, key, i) == k,
    decreases k - i,
{
    if i < k {
        lemma_key_index_at(e, key, i + 1, k);
    }
}

pub proof fn lemma_key_index_none(e: Seq<(String, ParamValue)>, key: Seq<char>, i: int)
    requires
        0 <= i,
        forall|j: int| i <= j < e.len() ==> e[j].0@ != key,
    ensures
        key_index(e, key, i) == -1,
    decreases e.len() - i,
{
    if i < e.len() {
        lemma_key_index_none(e, key, i + 1);
    }
}

/// Finds the position of the entry stored under `key`.
pub fn find_key(e: &Vec<(String, ParamValue)>, key: &str) -> (r: Option<usize>)
    ensures
        match r {
            Some(k) => key_index(e@, key@, 0) == k && k < e@.len() && e@[k as int].0@ == key@,
            None => key_index(e@, key@, 0) == -1,
        },
{
    let mut i: usize = 0;
    while i < e.len()
        invariant
            i <= e.len(),
            forall|j: int| 0 <= j < i ==> e@[j].0@ != key@,
        decreases e.len() - i,
    {
        if str_eq(e[i].0.as_str(), key) {
            proof {
                lemma_key_index_at(e@, key@, 0, i as int);
            }
            return Some(i);
        }
        i = i + 1;
    }
    proof {
        lemma_key_index_none(e@, key@, 0);
    }
    None
}

/// The value stored under `key` in a list of entries (`BTreeMap::get`).
pub fn get_entry<'a>(e: &'a Vec<(String, ParamValue)>, key: &str) -> (r: Option<&'a ParamValue>)
    ensures
        match r {
            Some(v) => lookup(e@, key@) == Some(*v),
            None => lookup(e@, key@) is None,
        },
{
    match find_key(e, key) {
        Some(k) => Some(&e[k].1),
        None => None,
    }
}

/// Index of the first viewed entry named `key` at or after `i`, or -1.
pub open spec fn view_key_index(s: Seq<(Seq<char>, ParamVal)>, key: Seq<char>, i: int) -> int
    decreases s.len() - i,
{
    if i < 0 || i >= s.len() {
        -1
    } else if s[i].0 == key {
        i
    } else {
        view_key_index(s, key, i + 1)
    }
}

/// The entries with `value` stored under `key`: in place of the entry
/// named `key`, or at the end when there is none.
pub open spec fn put_entry(s: Seq<(Seq<char>, ParamVal)>, key: Seq<char>, value: ParamVal) -> Seq<
    (Seq<char>, ParamVal),
> {
    let j = view_key_index(s, key, 0);
    if j >= 0 {
        s.update(j, (key, value))
    } else {
        s.push((key, value))
    }
}

proof fn lemma_entry_seq_view(e: Seq<(String, ParamValue)>)
    ensures
        entry_seq_view(e).len() == e.len(),
        forall|i: int| 0 <= i < e.len() ==> #[trigger] entry_seq_view(e)[i] == (e[i].0@, e[i].1.view_val()),
    decreases e.len(),
{
    if e.len() > 0 {
        lemma_entry_seq_view(e.drop_last());
        assert forall|i: int| 0 <= i < e.len() implies #[trigger] entry_seq_view(e)[i] == (
            e[i].0@,
            e[i].1.view_val(),
        ) by {
            if i < e.len() - 1 {
                assert(e.drop_last()[i] == e[i]);
            }
        }
    }
}

proof fn lemma_view_key_index(e: Seq<(String, ParamValue)>, key: Seq<char>, i: int)
    requires
        0 <= i,
    ensures
        view_key_index(entry_seq_view(e), key, i) == key_index(e, key, i),
    decreases e.len() - i,
{
    lemma_entry_seq_view(e);
    if i < e.len() {
        lemma_view_key_index(e, key, i + 1);
    }
}

/// Stores `value` under `key`, replacing what was there (`BTreeMap::insert`).
pub fn insert_entry(e: &mut Vec<(String, ParamValue)>, key: &str, value: ParamValue)
    ensures
        lookup(final(e)@, key@) == Some(value),
        forall|k: Seq<char>| k != key@ ==> lookup(final(e)@, k) == lookup(old(e)@, k),
        distinct_keys(old(e)@) ==> distinct_keys(final(e)@),
        entry_seq_view(final(e)@) == put_entry(entry_seq_view(old(e)@), key@, value.view_val()),
{
    let ghost pre = e@;
    let ghost vv = value.view_val();
    proof {
        lemma_entry_seq_view(pre);
        lemma_view_key_index(pre, key@, 0);
    }
    match find_key(e, key) {
        Some(k) => {
            let name = owned(key);
            e.set(k, (name, value));
            proof {
                lemma_entry_seq_view(e@);
                assert(entry_seq_view(e@) =~= put_entry(entry_seq_view(pre), key@, vv));
                lemma_key_index(pre, key@, 0);
                lemma_key_index_at(e@, key@, 0, k as int);
                assert forall|kk: Seq<char>| kk != key@ implies lookup(e@, kk) == lookup(pre, kk) by {
                    lemma_key_index(pre, kk, 0);
                    let j = key_index(pre, kk, 0);
                    if j >= 0 {
                        assert(j != k);
                        lemma_key_index_at(e@, kk, 0, j);
                    } else {
                        lemma_key_index_none(e@, kk, 0);
                    }
                }
            }
        },
        None => {
            let name = owned(key);
            e.push((name, value));
            proof {
                lemma_entry_seq_view(e@);
                assert(entry_seq_view(e@) =~= put_entry(entry_seq_view(pre), key@, vv));
                lemma_key_index(pre, key@, 0);
                lemma_key_index_at(e@, key@, 0, pre.len() as int);
                assert forall|kk: Seq<char>| kk != key@ implies lookup(e@, kk) == lookup(pre, kk) by {
                    lemma_key_index(pre, kk, 0);
                    let j = key_index(pre, kk, 0);
                    if j >= 0 {
                        lemma_key_index_at(e@, kk, 0, j);
                    } else {
                        lemma_key_index_none(e@, kk, 0);
                    }
                }
            }
        },
    }
}

/// The texts of the string items of a list.
pub fn strings_in(items: &Vec<ParamValue>) -> (r: Vec<String>)
    ensures
        strings_view(r@) == strings_of(items@),
{
    let mut r: Vec<String> = Vec::new();
    let mut i: usize = 0;
    while i < items.len()
        invariant
            i <= items.len(),
            strings_view(r@) == strings_of(items@.take(i as int)),
        decreases items.len() - i,
    {
        proof {
            assert(items@.take(i + 1).drop_last() =~= items@.take(i as int));
        }
        if let ParamValue::Str(s) = &items[i] {
            r.push(s.clone());
            proof {
                assert(strings_view(r@) =~= strings_view(r@.drop_last()).push(s@));
            }
        }
        i = i + 1;
    }
    proof {
        assert(items@.take(items.len() as int) =~= items@);
    }
    r
}

/// A set of named parameter values.
#[derive(Debug)]
pub struct Params {
    pub values: Vec<(String, ParamValue)>,
}

impl Params {
    /// The value stored under `key`.
    pub open spec fn get(self, key: Seq<char>) -> Option<ParamValue> {
        lookup(self.values@, key)
    }

    pub fn new() -> (r: Params)
        ensures
            r.values@.len() == 0,
    {
        Params { values: Vec::new() }
    }

    /// Stores a value under a key, replacing any value stored there before.
    pub fn insert(&mut self, key: &str, value: ParamValue)
        ensures
            final(self).get(key@) == Some(value),
            forall|k: Seq<char>| k != key@ ==> final(self).get(k) == old(self).get(k),
            distinct_keys(old(self).values@) ==> distinct_keys(final(self).values@),
    {
        insert_entry(&mut self.values, key, value);
    }

    pub fn has_value(&self, key: &str) -> (r: bool)
        ensures
            r == self.get(key@).is_some(),
    {
        get_entry(&self.values, key).is_some()
    }

    /// The value under `key` as text, when it is a string or an integer.
    pub fn get_string_or_int_value_as_string(&self, key: &str) -> (r: Option<String>)
        ensures
            match self.get(key@) {
                Some(ParamValue::Str(s)) => r matches Some(t) && t@ == s@,
                Some(ParamValue::Int(i)) => r matches Some(t) && t@ == int_decimal(i as int),
                _ => r is None,
            },
    {
        match get_entry(&self.values, key) {
            Some(ParamValue::Str(s)) => Some(s.clone()),
            Some(ParamValue::Int(i)) => Some(int_to_string(*i as i64)),
            _ => None,
        }
    }

    pub fn get_string_value(&self, key: &str) -> (r: Option<String>)
        ensures
            match r {
                Some(t) => str_of(self.get(key@)) == Some(t@),
                None => str_of(self.get(key@)) is None,
            },
    {
        match get_entry(&self.values, key) {
            Some(ParamValue::Str(s)) => Some(s.clone()),
            _ => None,
        }
    }

    pub fn get_string_value_with_default(&self, key: &str, default: &str) -> (r: String)
        ensures
            r@ == match str_of(self.get(key@)) {
                Some(t) => t,
                None => default@,
            },
    {
        match get_entry(&self.values, key) {
            Some(ParamValue::Str(s)) => s.clone(),
            _ => owned(default),
        }
    }

    pub fn get_value_as_bool(&self, key: &str) -> (r: Option<bool>)
        ensures
            r == match self.get(key@) {
                Some(ParamValue::Bool(b)) => Some(b),
                _ => None::<bool>,
            },
    {
        match get_entry(&self.values, key) {
            Some(ParamValue::Bool(b)) => Some(*b),
            _ => None,
        }
    }

    /// A flag value, or `default` when it is absent or not a flag.
    pub fn get_bool_or(&self, key: &str, default: bool) -> (r: bool)
        ensures
            r == bool_or(self.get(key@), default),
    {
        match get_entry(&self.values, key) {
            Some(ParamValue::Bool(b)) => *b,
            _ => default,
        }
    }

    pub fn get_value_as_int(&self, key: &str) -> (r: Option<i32>)
        ensures
            r == match self.get(key@) {
                Some(ParamValue::Int(i)) => Some(i),
                _ => None::<i32>,
            },
    {
        match get_entry(&self.values, key) {
            Some(ParamValue::Int(i)) => Some(*i),
            _ => None,
        }
    }

    /// The string items of the list under `key`; other items are skipped.
    pub fn get_values_as_vec_of_strings(&self, key: &str) -> (r: Vec<String>)
        ensures
            strings_view(r@) == list_strings_of(self.get(key@)),
    {
        match get_entry(&self.values, key) {
            Some(ParamValue::Array(v)) => strings_in(v),
            _ => Vec::new(),
        }
    }

    pub fn get_raw_value(&self, key: &str) -> (r: Option<&ParamValue>)
        ensures
            match r {
                Some(v) => self.get(key@) == Some(*v),
                None => self.get(key@) is None,
            },
    {
        get_entry(&self.values, key)
    }
}

/// The parameter value a YAML node stands for (`ParamValue::from(Yaml)`):
/// integers truncated to 32 bits, a mapping's string-keyed entries stored
/// one by one (a later entry under a name replaces an earlier one), entries
/// with a non-string key left out, and anything else unknown.
pub open spec fn yaml_param(n: YamlNode) -> ParamVal
    decreases n,
{
    match n {
        YamlNode::Boolean(b) => ParamVal::Bool(b),
        YamlNode::Integer(i) => ParamVal::Int(i as i32),
        YamlNode::Str(s) => ParamVal::Str(s@),
        YamlNode::Array(a) => ParamVal::Array(yaml_params(a@)),
        YamlNode::Hash(h) => ParamVal::Mapping(yaml_map(h@)),
        _ => ParamVal::Unknown,
    }
}

pub open spec fn yaml_params(s: Seq<YamlNode>) -> Seq<ParamVal>
    decreases s,
{
    if s.len() == 0 {
        seq![]
    } else {
        yaml_params(s.drop_last()).push(yaml_param(s.last()))
    }
}

/// The string-keyed entries of a YAML mapping, stored one by one.
pub open spec fn yaml_map(s: Seq<(YamlNode, YamlNode)>) -> Seq<(Seq<char>, ParamVal)>
    decreases s,
{
    if s.len() == 0 {
        seq![]
    } else {
        let rest = yaml_map(s.drop_last());
        match s.last().0 {
            YamlNode::Str(k) => put_entry(rest, k@, yaml_param(s.last().1)),
            _ => rest,
        }
    }
}

pub open spec fn yaml_entries(s: Seq<(YamlNode, YamlNode)>) -> Seq<(Seq<char>, ParamVal)>
    decreases s,
{
    if s.len() == 0 {
        seq![]
    } else {
        let rest = yaml_entries(s.drop_last());
        match s.last().0 {
            YamlNode::Str(k) => rest.push((k@, yaml_param(s.last().1))),
            _ => rest,
        }
    }
}

impl ParamValue {
    /// Converts a YAML node (`ParamValue::from(Yaml)`).
    pub fn from_yaml(n: &YamlNode) -> (r: ParamValue)
        ensures
            r@ == yaml_param(*n),
            r matches ParamValue::Mapping(m) ==> distinct_keys(m@),
        decreases *n,
    {
        match n {
            YamlNode::Boolean(b) => ParamValue::Bool(*b),
            YamlNode::Integer(i) => ParamValue::Int(#[verifier::truncate] (*i as i32)),
            YamlNode::Str(s) => ParamValue::Str(s.clone()),
            YamlNode::Array(a) => {
                let mut out: Vec<ParamValue> = Vec::new();
                let mut i: usize = 0;
                while i < a.len()
                    invariant
                        i <= a.len(),
                        param_seq_view(out@) == yaml_params(a@.take(i as int)),
                        *n == YamlNode::Array(*a),
                    decreases a.len() - i,
                {
                    proof {
                        assert(decreases_to!(*n => (*n)->Array_0));
                        assert(decreases_to!(*a => a@));
                        assert(decreases_to!(a@ => a@[i as int]));
                    }
                    let p = ParamValue::from_yaml(&a[i]);
                    let ghost prev = out@;
                    out.push(p);
                    proof {
                        assert(out@.drop_last() =~= prev);
                        assert(a@.take(i + 1).drop_last() =~= a@.take(i as int));
                    }
                    i = i + 1;
                }
                proof {
                    assert(a@.take(a.len() as int) =~= a@);
                }
                ParamValue::Array(out)
            },
            YamlNode::Hash(h) => {
                let mut out: Vec<(String, ParamValue)> = Vec::new();
                let mut i: usize = 0;
                while i < h.len()
                    invariant
                        i <= h.len(),
                        entry_seq_view(out@) == yaml_map(h@.take(i as int)),
                        distinct_keys(out@),
                        *n == YamlNode::Hash(*h),
                    decreases h.len() - i,
                {
                    proof {
                        assert(h@.take(i + 1).drop_last() =~= h@.take(i as int));
                    }
                    if let YamlNode::Str(k) = &h[i].0 {
                        proof {
                            assert(decreases_to!(*n => (*n)->Hash_0));
                            assert(decreases_to!(*h => h@));
                            assert(decreases_to!(h@ => h@[i as int]));
                            assert(decreases_to!(h@[i as int] => h@[i as int].1));
                        }
                        let v = ParamValue::from_yaml(&h[i].1);
                        insert_entry(&mut out, k.as_str(), v);
                    }
                    i = i + 1;
                }
                proof {
                    assert(h@.take(h.len() as int) =~= h@);
                }
                ParamValue::Mapping(out)
            },
            _ => ParamValue::Unknown,
        }
    }
}

/// How a parameter value is written out: strings quoted, lists and maps
/// with their items.
pub open spec fn param_text(v: ParamValue) -> Seq<char>
    decreases v, 0nat,
{
    match v {
        ParamValue::NotSet => "NotSet"@,
        ParamValue::Unknown => "Unknown"@,
        ParamValue::Bool(b) => if b {
            "true"@
        } else {
            "false"@
        },
        ParamValue::Int(i) => int_decimal(i as int),
        ParamValue::Str(s) => "'"@ + s@ + "'"@,
        ParamValue::Array(a) => "array ["@ + nat_decimal(a@.len()) + "] = {"@ + items_text(a@) + " }"@,
        ParamValue::Mapping(m) => "{"@ + entries_text(m@, name_order_upto(m@, m@.len() as int)) + "}"@,
    }
}

pub open spec fn items_text(s: Seq<ParamValue>) -> Seq<char>
    decreases s, 0nat,
{
    if s.len() == 0 {
        seq![]
    } else {
        items_text(s.drop_last()) + " "@ + param_text(s.last()) + ","@
    }
}

/// The entries at the positions `o`, in that order, each as its name, a
/// colon and its value's text.
pub open spec fn entries_text(s: Seq<(String, ParamValue)>, o: Seq<usize>) -> Seq<char>
    decreases s, o.len(),
{
    if o.len() == 0 {
        seq![]
    } else {
        let k = o.last() as int;
        entries_text(s, o.drop_last()) + " "@ + (if k < s.len() {
            s[k].0@ + ": "@ + param_text(s[k].1)
        } else {
            seq![]
        }) + ", "@
    }
}

impl ParamValue {
    /// The value written out as text.
    pub fn to_text(&self) -> (r: String)
        ensures
            r@ == param_text(*self),
        decreases *self,
    {
        match self {
            ParamValue::NotSet => owned("NotSet"),
            ParamValue::Unknown => owned("Unknown"),
            ParamValue::Bool(b) => if *b {
                owned("true")
            } else {
                owned("false")
            },
            ParamValue::Int(i) => int_to_string(*i as i64),
            ParamValue::Str(s) => concat3("'", s.as_str(), "'"),
            ParamValue::Array(a) => {
                let count = string_of(u64_decimal(a.len() as u64).as_slice());
                let mut out = concat3("array [", count.as_str(), "] = {");
                let ghost head = out@;
                let mut i: usize = 0;
                while i < a.len()
                    invariant
                        i <= a.len(),
                        out@ == head + items_text(a@.take(i as int)),
                        *self == ParamValue::Array(*a),
                    decreases a.len() - i,
                {
                    proof {
                        assert(decreases_to!(*self => (*self)->Array_0));
                        assert(decreases_to!(*a => a@));
                        assert(decreases_to!(a@ => a@[i as int]));
                        assert(a@.take(i + 1).drop_last() =~= a@.take(i as int));
                    }
                    let t = a[i].to_text();
                    out.append(" ");
                    out.append(t.as_str());
                    out.append(",");
                    proof {
                        reveal_strlit(" ");
                        reveal_strlit(",");
                    }
                    i = i + 1;
                }
                proof {
                    assert(a@.take(a.len() as int) =~= a@);
                }
                out.append(" }");
                out
            },
            ParamValue::Mapping(m) => {
                let o = name_order(m);
                let mut out = owned("{");
                let mut i: usize = 0;
                while i < o.len()
                    invariant
                        i <= o@.len(),
                        o@ == name_order_upto(m@, m@.len() as int),
                        o@.len() == m@.len(),
                        forall|j: int| 0 <= j < o@.len() ==> #[trigger] o@[j] < m@.len(),
                        out@ == "{"@ + entries_text(m@, o@.take(i as int)),
                        *self == ParamValue::Mapping(*m),
                    decreases o.len() - i,
                {
                    let k = o[i];
                    proof {
                        assert(decreases_to!(*self => (*self)->Mapping_0));
                        assert(decreases_to!(*m => m@));
                        assert(decreases_to!(m@ => m@[k as int]));
                        assert(decreases_to!(m@[k as int] => m@[k as int].1));
                        assert(o@.take(i + 1).drop_last() =~= o@.take(i as int));
                        assert(o@.take(i + 1).last() == k);
                    }
                    let t = m[k].1.to_text();
                    out.append(" ");
                    out.append(m[k].0.as_str());
                    out.append(": ");
                    out.append(t.as_str());
                    out.append(", ");
                    i = i + 1;
                }
                proof {
                    assert(o@.take(o.len() as int) =~= o@);
                }
                out.append("}");
                out
            },
        }
    }
}

/// Named values one per line, each behind `indent`: the name, a colon and
/// the value's text.
pub open spec fn param_lines(s: Seq<(String, ParamValue)>, indent: Seq<char>) -> Seq<char>
    decreases s.len(),
{
    if s.len() == 0 {
        seq![]
    } else {
        param_lines(s.drop_last(), indent) + indent + s.last().0@ + ": "@ + param_text(s.last().1) + "\n"@
    }
}

/// Appends named values one per line, each behind `indent`, in the order of
/// their names.
pub fn append_param_lines(out: &mut String, entries: &Vec<(String, ParamValue)>, indent: &str)
    ensures
        final(out)@ == old(out)@ + param_lines(by_name(entries@), indent@),
{
    let ghost start = out@;
    let o = name_order(entries);
    let ghost sorted = by_name(entries@);
    let mut i: usize = 0;
    while i < o.len()
        invariant
            i <= o@.len(),
            o@ == name_order_upto(entries@, entries@.len() as int),
            o@.len() == entries@.len(),
            forall|j: int| 0 <= j < o@.len() ==> #[trigger] o@[j] < entries@.len(),
            sorted == by_name(entries@),
            sorted.len() == o@.len(),
            out@ == start + param_lines(sorted.take(i as int), indent@),
        decreases o.len() - i,
    {
        let k = o[i];
        proof {
            assert(sorted.take(i + 1).drop_last() =~= sorted.take(i as int));
            assert(sorted[i as int] == entries@[k as int]);
        }
        let t = entries[k].1.to_text();
        out.append(indent);
        out.append(entries[k].0.as_str());
        out.append(": ");
        out.append(t.as_str());
        out.append("\n");
        i = i + 1;
    }
    proof {
        assert(sorted.take(o.len() as int) =~= sorted);
    }
}

impl Params {
    /// The parameters written out, one per line.
    pub fn to_text(&self) -> (r: String)
        ensures
            r@ == "Params: ("@ + nat_decimal(self.values@.len()) + ") {\n"@ + param_lines(by_name(self.values@), " "@) + "}"@,
    {
        let count = string_of(u64_decimal(self.values.len() as u64).as_slice());
        let mut out = concat3("Params: (", count.as_str(), ") {\n");
        append_param_lines(&mut out, &self.values, " ");
        out.append("}");
        out
    }
}

} // verus!
