//! JSON values as plain data, read from and written to text by
//! `serde_json`.
use vstd::prelude::*;
use crate::text::str_eq;

verus! {

/// A JSON number: its value as an unsigned and as a signed 64-bit integer
/// where it is one, and its text.
#[derive(Clone, Debug)]
pub struct JsonNumber {
    pub as_u64: Option<u64>,
    pub as_i64: Option<i64>,
    pub text: String,
}

/// A JSON value. An object keeps its members in key order, one per key.
#[derive(Debug)]
pub enum JsonValue {
    Null,
    Bool(bool),
    Number(JsonNumber),
    Str(String),
    Array(Vec<JsonValue>),
    Object(Vec<(String, JsonValue)>),
}

/// A JSON value with its texts as characters.
pub enum JsonV {
    Null,
    Bool(bool),
    Number(Option<u64>, Option<i64>, Seq<char>),
    Str(Seq<char>),
    Array(Seq<JsonV>),
    Object(Seq<(Seq<char>, JsonV)>),
}

pub open spec fn json_seq_view(s: Seq<JsonValue>) -> Seq<JsonV>
    decreases s,
{
    if s.len() == 0 {
        seq![]
    } else {
        json_seq_view(s.drop_last()).push(s.last().view_json())
    }
}

pub open spec fn member_seq_view(s: Seq<(String, JsonValue)>) -> Seq<(Seq<char>, JsonV)>
    decreases s,
{
    if s.len() == 0 {
        seq![]
    } else {
        member_seq_view(s.drop_last()).push((s.last().0@, s.last().1.view_json()))
    }
}

impl JsonValue {
    pub open spec fn view_json(self) -> JsonV
        decreases self,
    {
        match self {
            JsonValue::Null => JsonV::Null,
            JsonValue::Bool(b) => JsonV::Bool(b),
            JsonValue::Number(n) => JsonV::Number(n.as_u64, n.as_i64, n.text@),
            JsonValue::Str(s) => JsonV::Str(s@),
            JsonValue::Array(a) => JsonV::Array(json_seq_view(a@)),
            JsonValue::Object(o) => JsonV::Object(member_seq_view(o@)),
        }
    }
}

impl View for JsonValue {
    type V = JsonV;

    open spec fn view(&self) -> JsonV {
        self.view_json()
    }
}

/// What `serde_json::from_str::<serde_json::Value>` reads from a text,
/// converted member for member; the error's text where it fails.
pub uninterp spec fn json_parsed(text: Seq<char>) -> Result<JsonV, Seq<char>>;

/// What `serde_json::Value::to_string` writes for a value.
pub uninterp spec fn json_text(v: JsonV) -> Seq<char>;

#[verifier::external_type_specification]
#[verifier::external_body]
pub struct ExJsonValue(serde_json::Value);

/// Converts a `serde_json` value, variant for variant.
#[verifier::external_body]
fn json_value_of(v: serde_json::Value) -> JsonValue {
    match v {
        serde_json::Value::Null => JsonValue::Null,
        serde_json::Value::Bool(b) => JsonValue::Bool(b),
        serde_json::Value::Number(n) => JsonValue::Number(JsonNumber { as_u64: n.as_u64(), as_i64: n.as_i64(), text: n.to_string() }),
        serde_json::Value::String(s) => JsonValue::Str(s),
        serde_json::Value::Array(a) => JsonValue::Array(a.into_iter().map(json_value_of).collect()),
        serde_json::Value::Object(o) => JsonValue::Object(o.into_iter().map(|(k, x)| (k, json_value_of(x))).collect()),
    }
}

/// Converts a value to `serde_json`'s, variant for variant; a number is
/// read back from its text.
#[verifier::external_body]
fn serde_value_of(v: &JsonValue) -> serde_json::Value {
    match v {
        JsonValue::Null => serde_json::Value::Null,
        JsonValue::Bool(b) => serde_json::Value::Bool(*b),
        JsonValue::Number(n) => serde_json::from_str::<serde_json::Number>(&n.text).map(serde_json::Value::Number).unwrap_or(serde_json::Value::Null),
        JsonValue::Str(s) => serde_json::Value::String(s.clone()),
        JsonValue::Array(a) => serde_json::Value::Array(a.iter().map(serde_value_of).collect()),
        JsonValue::Object(o) => serde_json::Value::Object(o.iter().map(|(k, x)| (k.clone(), serde_value_of(x))).collect()),
    }
}

/// `serde_json::from_str::<serde_json::Value>`: reads a JSON text. The
/// contract names the result (`json_parsed`) as a function of the text;
/// JSON's grammar is not restated.
#[verifier::external_body]
pub fn parse_json(text: &str) -> (r: Result<JsonValue, String>)
    ensures
        match r {
            Ok(v) => json_parsed(text@) == Ok::<JsonV, Seq<char>>(v@),
            Err(e) => json_parsed(text@) == Err::<JsonV, Seq<char>>(e@),
        },
{
    match serde_json::from_str::<serde_json::Value>(text) {
        Ok(v) => Ok(json_value_of(v)),
        Err(e) => Err(e.to_string()),
    }
}

/// `serde_json::Value::to_string`: writes a value as JSON text. The
/// contract names the result (`json_text`) as a function of the value.
#[verifier::external_body]
pub fn write_json(v: &JsonValue) -> (r: String)
    ensures
        r@ == json_text(v@),
{
    serde_value_of(v).to_string()
}

/// Index of the first member named `key` at or after `i`, or -1.
pub open spec fn member_index(o: Seq<(Seq<char>, JsonV)>, key: Seq<char>, i: int) -> int
    decreases o.len() - i,
{
    if i < 0 || i >= o.len() {
        -1
    } else if o[i].0 == key {
        i
    } else {
        member_index(o, key, i + 1)
    }
}

/// The member of an object named `key` (`Value::get`); nothing for a value
/// that is not an object.
pub open spec fn member(v: JsonV, key: Seq<char>) -> Option<JsonV> {
    match v {
        JsonV::Object(o) => {
            let k = member_index(o, key, 0);
            if k < 0 {
                None
            } else {
                Some(o[k].1)
            }
        },
        _ => None,
    }
}

/// The member of an object named `key`.
pub fn json_get<'a>(v: &'a JsonValue, key: &str) -> (r: Option<&'a JsonValue>)
    ensures
        match r {
            Some(x) => member(v@, key@) == Some(x@),
            None => member(v@, key@) is None,
        },
{
    match v {
        JsonValue::Object(o) => {
            let ghost ov = member_seq_view(o@);
            proof {
                lemma_member_seq_view(o@);
            }
            let mut i: usize = 0;
            while i < o.len()
                invariant
                    i <= o@.len(),
                    *v == JsonValue::Object(*o),
                    v@ == JsonV::Object(ov),
                    ov == member_seq_view(o@),
                    ov.len() == o@.len(),
                    forall|q: int| 0 <= q < o@.len() ==> #[trigger] ov[q] == (o@[q].0@, o@[q].1@),
                    member_index(ov, key@, 0) == member_index(ov, key@, i as int),
                decreases o@.len() - i,
            {
                if str_eq(o[i].0.as_str(), key) {
                    return Some(&o[i].1);
                }
                i = i + 1;
            }
            None
        },
        _ => None,
    }
}

pub proof fn lemma_member_seq_view(o: Seq<(String, JsonValue)>)
    ensures
        member_seq_view(o).len() == o.len(),
        forall|q: int| 0 <= q < o.len() ==> #[trigger] member_seq_view(o)[q] == (o[q].0@, o[q].1@),
    decreases o.len(),
{
    if o.len() > 0 {
        lemma_member_seq_view(o.drop_last());
    }
}

pub proof fn lemma_json_seq_view(a: Seq<JsonValue>)
    ensures
        json_seq_view(a).len() == a.len(),
        forall|q: int| 0 <= q < a.len() ==> #[trigger] json_seq_view(a)[q] == a[q]@,
    decreases a.len(),
{
    if a.len() > 0 {
        lemma_json_seq_view(a.drop_last());
    }
}

/// The text of a string value (`Value::as_str`).
pub open spec fn as_text(v: JsonV) -> Option<Seq<char>> {
    match v {
        JsonV::Str(s) => Some(s),
        _ => None,
    }
}

/// The value of a number that is an unsigned 64-bit integer
/// (`Value::as_u64`).
pub open spec fn as_u64(v: JsonV) -> Option<u64> {
    match v {
        JsonV::Number(u, _, _) => u,
        _ => None,
    }
}

/// The text of a string member.
pub open spec fn text_member(v: JsonV, key: Seq<char>) -> Option<Seq<char>> {
    match member(v, key) {
        Some(x) => as_text(x),
        None => None,
    }
}

/// A member that reads as a 32-bit unsigned integer.
pub open spec fn u32_member(v: JsonV, key: Seq<char>) -> bool {
    match member(v, key) {
        Some(x) => as_u64(x) matches Some(n) && n <= u32::MAX,
        None => false,
    }
}

/// A member that reads as a 64-bit unsigned integer.
pub open spec fn u64_member(v: JsonV, key: Seq<char>) -> Option<u64> {
    match member(v, key) {
        Some(x) => as_u64(x),
        None => None,
    }
}

/// A member that reads as a flag.
pub open spec fn bool_member(v: JsonV, key: Seq<char>) -> bool {
    member(v, key) matches Some(JsonV::Bool(_))
}

pub fn text_member_exec(v: &JsonValue, key: &str) -> (r: Option<String>)
    ensures
        match r {
            Some(t) => text_member(v@, key@) == Some(t@),
            None => text_member(v@, key@) is None,
        },
{
    match json_get(v, key) {
        Some(JsonValue::Str(s)) => Some(crate::text::owned(s.as_str())),
        _ => None,
    }
}

pub fn u32_member_exec(v: &JsonValue, key: &str) -> (r: bool)
    ensures
        r == u32_member(v@, key@),
{
    match json_get(v, key) {
        Some(JsonValue::Number(n)) => match n.as_u64 {
            Some(x) => x <= 0xffff_ffff,
            None => false,
        },
        _ => false,
    }
}

pub fn u64_member_exec(v: &JsonValue, key: &str) -> (r: Option<u64>)
    ensures
        r == u64_member(v@, key@),
{
    match json_get(v, key) {
        Some(JsonValue::Number(n)) => n.as_u64,
        _ => None,
    }
}

pub fn bool_member_exec(v: &JsonValue, key: &str) -> (r: bool)
    ensures
        r == bool_member(v@, key@),
{
    match json_get(v, key) {
        Some(JsonValue::Bool(_)) => true,
        _ => false,
    }
}

/// The texts of an array of strings.
pub open spec fn text_items(a: Seq<JsonV>) -> Option<Seq<Seq<char>>>
    decreases a.len(),
{
    if a.len() == 0 {
        Some(seq![])
    } else {
        match (text_items(a.drop_last()), as_text(a.last())) {
            (Some(t), Some(x)) => Some(t.push(x)),
            _ => None,
        }
    }
}

/// A member that is an array of strings.
pub open spec fn text_array_member(v: JsonV, key: Seq<char>) -> Option<Seq<Seq<char>>> {
    match member(v, key) {
        Some(JsonV::Array(a)) => text_items(a),
        _ => None,
    }
}

#[verifier::loop_isolation(false)]
pub fn text_array_member_exec(v: &JsonValue, key: &str) -> (r: Option<Vec<String>>)
    ensures
        match r {
            Some(t) => text_array_member(v@, key@) == Some(crate::params::strings_view(t@)),
            None => text_array_member(v@, key@) is None,
        },
{
    match json_get(v, key) {
        Some(JsonValue::Array(a)) => {
            proof {
                lemma_json_seq_view(a@);
            }
            let ghost av = json_seq_view(a@);
            let mut out: Vec<String> = Vec::new();
            let mut i: usize = 0;
            while i < a.len()
                invariant
                    i <= a@.len(),
                    av == json_seq_view(a@),
                    av.len() == a@.len(),
                    forall|q: int| 0 <= q < a@.len() ==> #[trigger] av[q] == a@[q]@,
                    text_items(av.take(i as int)) == Some(crate::params::strings_view(out@)),
                decreases a@.len() - i,
            {
                proof {
                    assert(av.take(i + 1).drop_last() =~= av.take(i as int));
                    assert(av.take(i + 1).last() == a@[i as int]@);
                }
                match &a[i] {
                    JsonValue::Str(x) => {
                        let ghost before = out@;
                        out.push(crate::text::owned(x.as_str()));
                        assert(crate::params::strings_view(out@) =~= crate::params::strings_view(before).push(x@));
                    },
                    _ => {
                        proof {
                            lemma_text_items_none(av, i as int + 1);
                        }
                        return None;
                    },
                }
                i = i + 1;
            }
            proof {
                assert(av.take(a@.len() as int) =~= av);
            }
            Some(out)
        },
        _ => None,
    }
}

pub proof fn lemma_text_items_none(a: Seq<JsonV>, n: int)
    requires
        0 <= n <= a.len(),
        text_items(a.take(n)) is None,
    ensures
        text_items(a) is None,
    decreases a.len() - n,
{
    if n < a.len() {
        assert(a.take(n + 1).drop_last() =~= a.take(n));
        lemma_text_items_none(a, n + 1);
    } else {
        assert(a.take(n) =~= a);
    }
}

} // verus!
