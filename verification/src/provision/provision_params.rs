//! The parameters of a provisioning request, as read from a parameter file
//! of `key: value` lines.
use vstd::prelude::*;
use crate::control::control_actions::{file_extension, extension_of, FileLoadError, LoadErr};
use crate::params::strings_view;
use crate::keyed::{by_name, entry_find, entry_insert, entry_lookup, lemma_entry_index, name_order, name_order_upto};
use crate::provision::provision_common::{ProvisionActionType, ProvisionResponseWaitType};
use crate::text::{
    chars_of, has_char, has_char_exec, lines_of, lower_ascii, owned, split_all, split_all_chars,
    split_lines, str_eq, string_of, trim, trim_chars,
};

verus! {

/// A parameter: one string, or several when a key is given more than once.
#[derive(Clone, Debug)]
pub enum ParamValue {
    StringVal(String),
    StringArray(Vec<String>),
}

pub enum PV {
    StringVal(Seq<char>),
    StringArray(Seq<Seq<char>>),
}

impl View for ParamValue {
    type V = PV;

    open spec fn view(&self) -> PV {
        match self {
            ParamValue::StringVal(s) => PV::StringVal(s@),
            ParamValue::StringArray(a) => PV::StringArray(strings_view(a@)),
        }
    }
}

/// The parameters of a provisioning request.
#[derive(Clone, Debug)]
pub struct ProvisionParams {
    pub provider: String,
    pub action: ProvisionActionType,
    pub wait_type: ProvisionResponseWaitType,
    pub values: Vec<(String, ParamValue)>,
}

/// Parameters with their texts as characters; the values by key.
pub struct ParamsV {
    pub provider: Seq<char>,
    pub action: ProvisionActionType,
    pub wait_type: ProvisionResponseWaitType,
    pub values: Map<Seq<char>, PV>,
}

pub open spec fn values_map(e: Seq<(String, ParamValue)>) -> Map<Seq<char>, PV> {
    Map::new(|k: Seq<char>| entry_lookup(e, k) is Some, |k: Seq<char>| entry_lookup(e, k)->Some_0@)
}

impl View for ProvisionParams {
    type V = ParamsV;

    open spec fn view(&self) -> ParamsV {
        ParamsV {
            provider: self.provider@,
            action: self.action,
            wait_type: self.wait_type,
            values: values_map(self.values@),
        }
    }
}

/// The action a parameter file names; unknown names give `Unknown`.
pub open spec fn action_named(v: Seq<char>) -> ProvisionActionType {
    if v == "createInstance"@ {
        ProvisionActionType::CreateInstance
    } else if v == "deleteInstance"@ {
        ProvisionActionType::DeleteInstance
    } else {
        ProvisionActionType::Unknown
    }
}

/// The wait a parameter file names; unknown names wait for the resource to
/// be created.
pub open spec fn wait_named(v: Seq<char>) -> ProvisionResponseWaitType {
    if v == "returnImmediately"@ {
        ProvisionResponseWaitType::ReturnImmediatelyAfterAPIRequest
    } else if v == "waitForResourceCreation"@ {
        ProvisionResponseWaitType::WaitForResourceCreationOrModification
    } else if v == "waitForResourceFinalised"@ {
        ProvisionResponseWaitType::WaitForResourceFinalised
    } else {
        ProvisionResponseWaitType::WaitForResourceCreationOrModification
    }
}

/// A value given again for a key: a second value turns the string into a
/// list of both, later values are appended.
pub open spec fn added_value(old: Option<PV>, val: Seq<char>) -> PV {
    match old {
        None => PV::StringVal(val),
        Some(PV::StringVal(s)) => PV::StringArray(seq![s, val]),
        Some(PV::StringArray(a)) => PV::StringArray(a.push(val)),
    }
}

/// One `key: value` pair taken into the parameters: `provider`, `action`
/// and `waitType` set those settings; any other key adds a value.
pub open spec fn ingest_spec(p: ParamsV, key: Seq<char>, val: Seq<char>) -> ParamsV {
    if key == "provider"@ {
        ParamsV { provider: val, ..p }
    } else if key == "action"@ {
        ParamsV { action: action_named(val), ..p }
    } else if key == "waitType"@ {
        ParamsV { wait_type: wait_named(val), ..p }
    } else {
        ParamsV {
            values: p.values.insert(key, added_value(if p.values.dom().contains(key) {
                Some(p.values[key])
            } else {
                None
            }, val)),
            ..p
        }
    }
}

pub open spec fn empty_params() -> ParamsV {
    ParamsV {
        provider: seq![],
        action: ProvisionActionType::NotSet,
        wait_type: ProvisionResponseWaitType::WaitForResourceFinalised,
        values: Map::empty(),
    }
}

/// The parameters a text file gives: each line trimmed; empty lines,
/// comments (`#`) and lines without exactly one `:` are skipped; the rest
/// give a key (before the `:`) and a trimmed value.
pub open spec fn txt_params(ls: Seq<Seq<char>>) -> ParamsV
    decreases ls.len(),
{
    if ls.len() == 0 {
        empty_params()
    } else {
        let p = txt_params(ls.drop_last());
        let l = trim(ls.last());
        if l.len() == 0 || l[0] == '#' || !has_char(l, ':') || split_all(l, ':').len() != 2 {
            p
        } else {
            ingest_spec(p, split_all(l, ':')[0], trim(split_all(l, ':')[1]))
        }
    }
}

fn action_from_name(v: &str) -> (r: ProvisionActionType)
    ensures
        r == action_named(v@),
{
    if str_eq(v, "createInstance") {
        ProvisionActionType::CreateInstance
    } else if str_eq(v, "deleteInstance") {
        ProvisionActionType::DeleteInstance
    } else {
        ProvisionActionType::Unknown
    }
}

fn wait_from_name(v: &str) -> (r: ProvisionResponseWaitType)
    ensures
        r == wait_named(v@),
{
    if str_eq(v, "returnImmediately") {
        ProvisionResponseWaitType::ReturnImmediatelyAfterAPIRequest
    } else if str_eq(v, "waitForResourceCreation") {
        ProvisionResponseWaitType::WaitForResourceCreationOrModification
    } else if str_eq(v, "waitForResourceFinalised") {
        ProvisionResponseWaitType::WaitForResourceFinalised
    } else {
        ProvisionResponseWaitType::WaitForResourceCreationOrModification
    }
}

impl ProvisionParams {
    pub fn new() -> (r: ProvisionParams)
        ensures
            r@ == empty_params(),
    {
        let r = ProvisionParams {
            provider: String::new(),
            action: ProvisionActionType::NotSet,
            wait_type: ProvisionResponseWaitType::WaitForResourceFinalised,
            values: Vec::new(),
        };
        assert(r@.provider =~= empty_params().provider);
        assert(r@.values =~= empty_params().values);
        r
    }

    /// Parameters for a provider and an action, with no values.
    pub fn from_details(provider: &str, action: ProvisionActionType) -> (r: ProvisionParams)
        ensures
            r@ == (ParamsV { provider: provider@, action, ..empty_params() }),
    {
        let r = ProvisionParams {
            provider: owned(provider),
            action,
            wait_type: ProvisionResponseWaitType::WaitForResourceFinalised,
            values: Vec::new(),
        };
        assert(r@.values =~= empty_params().values);
        r
    }

    /// Takes one `key: value` pair into the parameters.
    pub fn ingest_param(&mut self, key: &str, val: &str)
        ensures
            final(self)@ == ingest_spec(old(self)@, key@, val@),
    {
        let ghost pre = self@;
        if str_eq(key, "provider") {
            self.provider = owned(val);
        } else if str_eq(key, "action") {
            self.action = action_from_name(val);
        } else if str_eq(key, "waitType") {
            self.wait_type = wait_from_name(val);
        } else {
            let ghost old_entries = self.values@;
            let new_value = match entry_find(&self.values, key) {
                Some(k) => {
                    proof {
                        lemma_entry_index(self.values@, key@, 0);
                    }
                    match &self.values[k].1 {
                        ParamValue::StringArray(a) => {
                            let mut items: Vec<String> = Vec::new();
                            let mut i: usize = 0;
                            while i < a.len()
                                invariant
                                    i <= a@.len(),
                                    items@.len() == i,
                                    strings_view(items@) == strings_view(a@).take(i as int),
                                decreases a@.len() - i,
                            {
                                items.push(owned(a[i].as_str()));
                                assert(strings_view(items@) =~= strings_view(a@).take(i + 1));
                                i = i + 1;
                            }
                            assert(strings_view(a@).take(a@.len() as int) =~= strings_view(a@));
                            items.push(owned(val));
                            assert(strings_view(items@) =~= strings_view(a@).push(val@));
                            ParamValue::StringArray(items)
                        },
                        ParamValue::StringVal(s) => {
                            let mut items: Vec<String> = Vec::new();
                            items.push(owned(s.as_str()));
                            items.push(owned(val));
                            assert(strings_view(items@) =~= seq![s@, val@]);
                            ParamValue::StringArray(items)
                        },
                    }
                },
                None => ParamValue::StringVal(owned(val)),
            };
            proof {
                assert(new_value@ == added_value(if pre.values.dom().contains(key@) {
                    Some(pre.values[key@])
                } else {
                    None
                }, val@));
            }
            entry_insert(&mut self.values, key, new_value);
            proof {
                assert(values_map(self.values@) =~= pre.values.insert(key@, new_value@));
            }
        }
    }

    /// Reads a parameter text file's lines.
    pub fn from_file_txt(contents: &str) -> (r: Result<ProvisionParams, FileLoadError>)
        ensures
            r matches Ok(p) && p@ == txt_params(lines_of(contents@)),
    {
        let chars = chars_of(contents);
        let ls = split_lines(chars.as_slice());
        let ghost lv = lines_of(contents@);
        let mut params = ProvisionParams::new();
        let mut i: usize = 0;
        while i < ls.len()
            invariant
                i <= ls@.len(),
                ls@.len() == lv.len(),
                forall|k: int| 0 <= k < ls@.len() ==> #[trigger] ls@[k]@ == lv[k],
                params@ == txt_params(lv.take(i as int)),
            decreases ls@.len() - i,
        {
            proof {
                assert(lv.take(i + 1).drop_last() =~= lv.take(i as int));
                assert(lv.take(i + 1).last() == ls@[i as int]@);
            }
            let l = trim_chars(ls[i].as_slice());
            if l.len() > 0 && l[0] != '#' && has_char_exec(l.as_slice(), ':') {
                let parts = split_all_chars(l.as_slice(), ':');
                if parts.len() == 2 {
                    let key = string_of(parts[0].as_slice());
                    let value = string_of(trim_chars(parts[1].as_slice()).as_slice());
                    params.ingest_param(key.as_str(), value.as_str());
                }
            }
            i = i + 1;
        }
        proof {
            assert(lv.take(ls@.len() as int) =~= lv);
        }
        Ok(params)
    }

    pub fn has_param(&self, key: &str) -> (r: bool)
        ensures
            r == self@.values.dom().contains(key@),
    {
        entry_find(&self.values, key).is_some()
    }

    /// A single string value, or the default.
    pub fn get_string_value(&self, key: &str, default: &str) -> (r: String)
        ensures
            r@ == match self@.values.get(key@) {
                Some(PV::StringVal(s)) => s,
                _ => default@,
            },
    {
        match entry_find(&self.values, key) {
            Some(k) => {
                proof {
                    lemma_entry_index(self.values@, key@, 0);
                }
                match &self.values[k].1 {
                    ParamValue::StringVal(s) => owned(s.as_str()),
                    _ => owned(default),
                }
            },
            None => owned(default),
        }
    }

    /// A single string value `0`/`false` or `1`/`true` as a flag; the
    /// default otherwise.
    pub fn get_string_value_as_bool(&self, key: &str, default: bool) -> (r: bool)
        ensures
            r == match self@.values.get(key@) {
                Some(PV::StringVal(s)) => crate::provision::provision_common::text_flag(Some(s), default),
                _ => default,
            },
    {
        match entry_find(&self.values, key) {
            Some(k) => {
                proof {
                    lemma_entry_index(self.values@, key@, 0);
                }
                match &self.values[k].1 {
                    ParamValue::StringVal(s) => {
                        let v = s.as_str();
                        if str_eq(v, "0") || str_eq(v, "false") {
                            false
                        } else if str_eq(v, "1") || str_eq(v, "true") {
                            true
                        } else {
                            default
                        }
                    },
                    _ => default,
                }
            },
            None => default,
        }
    }

    /// The values of a key as a list: a single string gives a list of it.
    pub fn get_string_array(&self, key: &str) -> (r: Option<Vec<String>>)
        ensures
            match self@.values.get(key@) {
                Some(PV::StringArray(a)) => r matches Some(v) && strings_view(v@) == a,
                Some(PV::StringVal(s)) => r matches Some(v) && strings_view(v@) == seq![s],
                None => r is None,
            },
    {
        match entry_find(&self.values, key) {
            Some(k) => {
                proof {
                    lemma_entry_index(self.values@, key@, 0);
                }
                match &self.values[k].1 {
                    ParamValue::StringArray(a) => {
                        let mut items: Vec<String> = Vec::new();
                        let mut i: usize = 0;
                        while i < a.len()
                            invariant
                                i <= a@.len(),
                                items@.len() == i,
                                strings_view(items@) == strings_view(a@).take(i as int),
                            decreases a@.len() - i,
                        {
                            items.push(owned(a[i].as_str()));
                            assert(strings_view(items@) =~= strings_view(a@).take(i + 1));
                            i = i + 1;
                        }
                        assert(strings_view(a@).take(a@.len() as int) =~= strings_view(a@));
                        Some(items)
                    },
                    ParamValue::StringVal(s) => {
                        let mut items: Vec<String> = Vec::new();
                        items.push(owned(s.as_str()));
                        assert(strings_view(items@) =~= seq![s@]);
                        Some(items)
                    },
                }
            },
            None => None,
        }
    }
}

/// The parameters after the same key was given each of `vals` in turn.
pub open spec fn ingest_all(p: ParamsV, key: Seq<char>, vals: Seq<Seq<char>>) -> ParamsV
    decreases vals.len(),
{
    if vals.len() == 0 {
        p
    } else {
        ingest_spec(ingest_all(p, key, vals.drop_last()), key, vals.last())
    }
}

/// Giving an ordinary key several values keeps them all, in order: one
/// value is kept as a string, two or more as a list; no value is lost or
/// replaced, and other keys are untouched.
pub proof fn lemma_repeated_values_accumulate(p: ParamsV, key: Seq<char>, vals: Seq<Seq<char>>)
    requires
        key != "provider"@,
        key != "action"@,
        key != "waitType"@,
        !p.values.dom().contains(key),
        vals.len() >= 1,
    ensures
        vals.len() == 1 ==> ingest_all(p, key, vals).values[key] == PV::StringVal(vals[0]),
        vals.len() >= 2 ==> ingest_all(p, key, vals).values[key] == PV::StringArray(vals),
        ingest_all(p, key, vals).values.dom().contains(key),
        ingest_all(p, key, vals).values.remove(key) == p.values.remove(key),
    decreases vals.len(),
{
    if vals.len() == 1 {
        assert(vals.drop_last() =~= Seq::<Seq<char>>::empty());
        assert(ingest_all(p, key, vals).values.remove(key) =~= p.values.remove(key));
    } else {
        lemma_repeated_values_accumulate(p, key, vals.drop_last());
        let q = ingest_all(p, key, vals.drop_last());
        assert(ingest_all(p, key, vals).values.remove(key) =~= q.values.remove(key));
        if vals.len() == 2 {
            assert(vals =~= seq![vals[0], vals[1]]);
        } else {
            assert(vals.drop_last().push(vals.last()) =~= vals);
        }
    }
}

/// The parameters of a parameter file, by the extension of its path (in
/// any case): a `txt` file is read line by line; any other kind is refused.
pub open spec fn params_file_result(path: Seq<char>, contents: Seq<char>) -> Result<ParamsV, LoadErr> {
    if lower_ascii(extension_of(path)->Some_0) == "txt"@ {
        Ok(txt_params(lines_of(contents)))
    } else {
        Err(LoadErr::CustomError("Unknown file type."@))
    }
}

impl ProvisionParams {
    /// Reads a parameter file given its path and its text.
    pub fn from_file(path: &str, contents: &str) -> (r: Result<ProvisionParams, FileLoadError>)
        requires
            extension_of(path@) is Some,
        ensures
            match params_file_result(path@, contents@) {
                Ok(v) => r matches Ok(p) && p@ == v,
                Err(e) => r matches Err(x) && x@ == e,
            },
    {
        match file_extension(path) {
            Some(ext) => {
                if str_eq(ext.as_str(), "txt") {
                    ProvisionParams::from_file_txt(contents)
                } else {
                    Err(FileLoadError::CustomError(owned("Unknown file type.")))
                }
            },
            None => Err(FileLoadError::CustomError(owned("Unknown file type."))),
        }
    }
}

/// A parameter value written out: a string quoted, a list in braces.
pub open spec fn pv_text(v: PV) -> Seq<char> {
    match v {
        PV::StringVal(s) => "'"@ + s + "'"@,
        PV::StringArray(a) => "{"@ + list_items_text(a) + " }"@,
    }
}

pub open spec fn list_items_text(a: Seq<Seq<char>>) -> Seq<char>
    decreases a.len(),
{
    if a.len() == 0 {
        seq![]
    } else {
        list_items_text(a.drop_last()) + " "@ + a.last() + ","@
    }
}

/// Named parameter values one per line, each behind two spaces.
pub open spec fn pv_lines(s: Seq<(String, ParamValue)>) -> Seq<char>
    decreases s.len(),
{
    if s.len() == 0 {
        seq![]
    } else {
        pv_lines(s.drop_last()) + "  "@ + s.last().0@ + ": "@ + pv_text(s.last().1@) + "\n"@
    }
}

impl ParamValue {
    /// The value written out: a string quoted, a list in braces.
    pub fn to_text(&self) -> (r: String)
        ensures
            r@ == pv_text(self@),
    {
        match self {
            ParamValue::StringVal(s) => crate::text::concat3("'", s.as_str(), "'"),
            ParamValue::StringArray(a) => {
                let mut out = owned("{");
                let mut i: usize = 0;
                while i < a.len()
                    invariant
                        i <= a@.len(),
                        out@ == "{"@ + list_items_text(strings_view(a@).take(i as int)),
                    decreases a@.len() - i,
                {
                    proof {
                        assert(strings_view(a@).take(i + 1).drop_last() =~= strings_view(a@).take(i as int));
                    }
                    out.append(" ");
                    out.append(a[i].as_str());
                    out.append(",");
                    i = i + 1;
                }
                proof {
                    assert(strings_view(a@).take(a@.len() as int) =~= strings_view(a@));
                }
                out.append(" }");
                out
            },
        }
    }
}

impl ProvisionParams {
    /// The parameters written out: the provider and action, then the
    /// values one per line, in the order of their names.
    pub fn to_text(&self) -> (r: String)
        ensures
            r@ == "Provider: "@ + self.provider@ + ", Action: "@ + crate::provision::provision_common::provision_action_text(
                self.action,
            ) + "\n"@ + " params ("@ + crate::text::nat_decimal(self.values@.len()) + "): {\n"@ + pv_lines(by_name(self.values@))
                + " }\n"@,
    {
        let action = self.action.to_text();
        let count = crate::text::string_of(crate::text::u64_decimal(self.values.len() as u64).as_slice());
        let mut out = crate::text::concat5("Provider: ", self.provider.as_str(), ", Action: ", action.as_str(), "\n");
        out.append(" params (");
        out.append(count.as_str());
        out.append("): {\n");
        let ghost head = out@;
        let o = name_order(&self.values);
        let ghost sorted = by_name(self.values@);
        let mut i: usize = 0;
        while i < o.len()
            invariant
                i <= o@.len(),
                o@ == name_order_upto(self.values@, self.values@.len() as int),
                o@.len() == self.values@.len(),
                forall|j: int| 0 <= j < o@.len() ==> #[trigger] o@[j] < self.values@.len(),
                sorted == by_name(self.values@),
                sorted.len() == o@.len(),
                out@ == head + pv_lines(sorted.take(i as int)),
            decreases o.len() - i,
        {
            let k = o[i];
            proof {
                assert(sorted.take(i + 1).drop_last() =~= sorted.take(i as int));
                assert(sorted[i as int] == self.values@[k as int]);
            }
            let t = self.values[k].1.to_text();
            out.append("  ");
            out.append(self.values[k].0.as_str());
            out.append(": ");
            out.append(t.as_str());
            out.append("\n");
            i = i + 1;
        }
        proof {
            assert(sorted.take(o.len() as int) =~= sorted);
        }
        out.append(" }\n");
        out
    }
}

} // verus!
