//! What provisioning asks for and what it reports back.
use vstd::prelude::*;
use crate::keyed::{by_name, entry_find, entry_insert, entry_lookup, lemma_entry_index, name_order, name_order_upto};
use crate::text::{owned, str_eq};

verus! {

/// The provisioning actions.
#[derive(Clone, Copy, Debug, PartialEq, Eq, Structural)]
pub enum ProvisionActionType {
    NotSet,
    CreateInstance,
    DeleteInstance,
    Unknown,
}

pub open spec fn provision_action_text(t: ProvisionActionType) -> Seq<char> {
    match t {
        ProvisionActionType::NotSet => "None"@,
        ProvisionActionType::CreateInstance => "createInstance"@,
        ProvisionActionType::DeleteInstance => "deleteInstance"@,
        ProvisionActionType::Unknown => "Unknown"@,
    }
}

impl ProvisionActionType {
    /// The action's name.
    pub fn to_text(&self) -> (r: String)
        ensures
            r@ == provision_action_text(*self),
    {
        match self {
            ProvisionActionType::NotSet => owned("None"),
            ProvisionActionType::CreateInstance => owned("createInstance"),
            ProvisionActionType::DeleteInstance => owned("deleteInstance"),
            ProvisionActionType::Unknown => owned("Unknown"),
        }
    }
}

/// How long a provisioning request waits: not at all, until the resource
/// exists (has an address), or until it is ready for use.
#[derive(Clone, Copy, Debug, PartialEq, Eq, Structural)]
pub enum ProvisionResponseWaitType {
    ReturnImmediatelyAfterAPIRequest,
    WaitForResourceCreationOrModification,
    WaitForResourceFinalised,
}

/// Named text values a provisioning action reports, one per name.
#[derive(Clone, Debug)]
pub struct ActionResultValues {
    pub values: Vec<(String, String)>,
}

/// Named results by name.
pub open spec fn results_map(v: ActionResultValues) -> Map<Seq<char>, Seq<char>> {
    Map::new(|k: Seq<char>| entry_lookup(v.values@, k) is Some, |k: Seq<char>| entry_lookup(v.values@, k)->Some_0@)
}

impl ActionResultValues {
    pub open spec fn get(self, key: Seq<char>) -> Option<Seq<char>> {
        match entry_lookup(self.values@, key) {
            Some(s) => Some(s@),
            None => None,
        }
    }

    pub fn new() -> (r: ActionResultValues)
        ensures
            r.values@.len() == 0,
            forall|k: Seq<char>| r.get(k) is None,
            results_map(r) == Map::<Seq<char>, Seq<char>>::empty(),
    {
        let r = ActionResultValues { values: Vec::new() };
        assert(results_map(r) =~= Map::<Seq<char>, Seq<char>>::empty());
        r
    }

    /// Stores a value under a name, replacing the one stored there.
    pub fn insert(&mut self, key: &str, value: &str)
        ensures
            final(self).get(key@) == Some(value@),
            forall|k: Seq<char>| k != key@ ==> #[trigger] final(self).get(k) == old(self).get(k),
            results_map(*final(self)) == results_map(*old(self)).insert(key@, value@),
    {
        let ghost before = results_map(*self);
        let v = owned(value);
        entry_insert(&mut self.values, key, v);
        assert(results_map(*self) =~= before.insert(key@, value@));
    }

    pub fn has_value(&self, key: &str) -> (r: bool)
        ensures
            r == self.get(key@) is Some,
    {
        entry_find(&self.values, key).is_some()
    }

    /// The value stored under a name, or the default.
    pub fn get_value(&self, key: &str, default: &str) -> (r: String)
        ensures
            r@ == match self.get(key@) {
                Some(v) => v,
                None => default@,
            },
    {
        match entry_find(&self.values, key) {
            Some(k) => {
                proof {
                    lemma_entry_index(self.values@, key@, 0);
                }
                owned(self.values[k].1.as_str())
            },
            None => owned(default),
        }
    }

    /// A stored `0`/`false` or `1`/`true` as a flag; the default otherwise.
    pub fn get_value_as_bool(&self, key: &str, default: bool) -> (r: bool)
        ensures
            r == text_flag(self.get(key@), default),
    {
        match entry_find(&self.values, key) {
            Some(k) => {
                proof {
                    lemma_entry_index(self.values@, key@, 0);
                }
                let v = self.values[k].1.as_str();
                if str_eq(v, "0") || str_eq(v, "false") {
                    false
                } else if str_eq(v, "1") || str_eq(v, "true") {
                    true
                } else {
                    default
                }
            },
            None => default,
        }
    }
}

/// Named results one per line, each behind two spaces.
pub open spec fn result_lines(s: Seq<(String, String)>) -> Seq<char>
    decreases s.len(),
{
    if s.len() == 0 {
        seq![]
    } else {
        result_lines(s.drop_last()) + "  "@ + s.last().0@ + ": "@ + s.last().1@ + "\n"@
    }
}

impl ActionResultValues {
    /// The results written out, one per line, in the order of their names.
    pub fn to_text(&self) -> (r: String)
        ensures
            r@ == " provision action results ("@ + crate::text::nat_decimal(self.values@.len()) + "): {\n"@
                + result_lines(by_name(self.values@)) + " }\n"@,
    {
        let count = crate::text::string_of(crate::text::u64_decimal(self.values.len() as u64).as_slice());
        let mut out = crate::text::concat3(" provision action results (", count.as_str(), "): {\n");
        let ghost head = out@;
        let o = name_order(&self.values);
        let ghost sorted = by_name(self.values@);
        let mut i: usize = 0;
        while i < o.len()
            invariant
                i <= o@.len(),
                o@ == name_order_upto(self.values@, self.values@.len() as int),
                o@.len() == self.values@.len(),
                forall|j: int| 0 <= j < o@.len() ==> #[trigger] o@[j] < self.values@.len(),
                sorted == by_name(self.values@),
                sorted.len() == o@.len(),
                out@ == head + result_lines(sorted.take(i as int)),
            decreases o.len() - i,
        {
            let k = o[i];
            proof {
                assert(sorted.take(i + 1).drop_last() =~= sorted.take(i as int));
                assert(sorted[i as int] == self.values@[k as int]);
            }
            out.append("  ");
            out.append(self.values[k].0.as_str());
            out.append(": ");
            out.append(self.values[k].1.as_str());
            out.append("\n");
            i = i + 1;
        }
        proof {
            assert(sorted.take(o.len() as int) =~= sorted);
        }
        out.append(" }\n");
        out
    }
}

/// A text read as a flag: `0`/`false` or `1`/`true`, else the default.
pub open spec fn text_flag(v: Option<Seq<char>>, default: bool) -> bool {
    match v {
        Some(t) => if t == "0"@ || t == "false"@ {
            false
        } else if t == "1"@ || t == "true"@ {
            true
        } else {
            default
        },
        None => default,
    }
}

/// The outcome of a provisioning action.
#[derive(Clone, Debug)]
pub enum ProvisionActionResult {
    NotSupported,
    ErrorNotConfigured(String),
    ErrorMissingParams(String),
    ErrorCantConnect(String),
    ErrorAuthenticationIssue(String),
    Failed(String),
    ActionCreatedInProgress(ActionResultValues),
    ActionCreatedDone(ActionResultValues),
}

} // verus!
