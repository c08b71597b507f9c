//! The `editFile` action: line-based edits of a remote text file (replace,
//! insert above or below, comment out), applied to lines that match.
use vstd::prelude::*;
use crate::control::action_script::{
    finish_script, ops_view, outcome_step, push_op, run_script, run_with, script_outcome,
    script_step, stdout_at, stdout_at_exec, text_at, text_at_exec, to_step, ActionStep, Check,
    CheckV, Fail, FailV, Op, OpV, OutcomeV, ScriptOutcome, StepV,
};
use crate::control::common_actions_unix::required;
use crate::control::control_actions::{ActionErr, ActionError, ControlAction};
use crate::control::control_common::ControlSessionParams;
use crate::control::control_connection::{replies_view, ActionReply, ReplyV};
use crate::control::terminal_helpers_linux::{file_mode_from_stat, stat_file_mode};
use crate::params::{bool_or, get_entry, lookup, strings_view, ParamValue, Params};
use crate::text::{
    chars_of, chars_eq, concat2, concat3, concat4, concat5, contains, contains_chars, ends_with,
    ends_with_chars, join, join_strings, lines_of, owned, split_lines, starts_with,
    starts_with_chars, str_eq, string_of,
};

verus! {

/// How an edit item's text is compared with a line.
#[derive(Clone, Copy, Debug, PartialEq, Eq, Structural)]
pub enum FileEditMatchType {
    Contains,
    Matches,
    StartsWith,
    EndsWith,
}

/// Whether a line matches an item's text.
pub open spec fn line_matches(mt: FileEditMatchType, m: Seq<char>, line: Seq<char>) -> bool {
    match mt {
        FileEditMatchType::Contains => contains(line, m),
        FileEditMatchType::Matches => line == m,
        FileEditMatchType::StartsWith => starts_with(line, m),
        FileEditMatchType::EndsWith => ends_with(line, m),
    }
}

fn line_matches_exec(mt: FileEditMatchType, m: &str, line: &[char]) -> (r: bool)
    ensures
        r == line_matches(mt, m@, line@),
{
    let mc = chars_of(m);
    match mt {
        FileEditMatchType::Contains => contains_chars(line, mc.as_slice()),
        FileEditMatchType::Matches => chars_eq(line, mc.as_slice()),
        FileEditMatchType::StartsWith => starts_with_chars(line, mc.as_slice()),
        FileEditMatchType::EndsWith => ends_with_chars(line, mc.as_slice()),
    }
}

/// Replace the lines that match with another line.
pub struct ReplaceLineEntry {
    pub match_string: String,
    pub replace_string: String,
    pub report_failure: bool,
    pub replaced: bool,
    pub match_type: FileEditMatchType,
}

impl ReplaceLineEntry {
    pub fn new(match_string: &str, replace_string: &str, report_failure: bool, match_type: FileEditMatchType) -> (r:
        ReplaceLineEntry)
        ensures
            r.match_string@ == match_string@,
            r.replace_string@ == replace_string@,
            r.report_failure == report_failure,
            !r.replaced,
            r.match_type == match_type,
    {
        ReplaceLineEntry {
            match_string: owned(match_string),
            replace_string: owned(replace_string),
            report_failure,
            replaced: false,
            match_type,
        }
    }
}

/// Where an inserted line goes, relative to the line that matches.
#[derive(Clone, Copy, Debug, PartialEq, Eq, Structural)]
pub enum InsertLinePositionType {
    Above,
    Below,
}

/// Insert a line above or below the lines that match.
pub struct InsertLineEntry {
    pub position_type: InsertLinePositionType,
    pub match_string: String,
    pub insert_string: String,
    pub report_failure: bool,
    pub replaced: bool,
    pub match_type: FileEditMatchType,
}

impl InsertLineEntry {
    pub fn new(
        position_type: InsertLinePositionType,
        match_string: &str,
        insert_string: &str,
        report_failure: bool,
        match_type: FileEditMatchType,
    ) -> (r: InsertLineEntry)
        ensures
            r.position_type == position_type,
            r.match_string@ == match_string@,
            r.insert_string@ == insert_string@,
            r.report_failure == report_failure,
            !r.replaced,
            r.match_type == match_type,
    {
        InsertLineEntry {
            position_type,
            match_string: owned(match_string),
            insert_string: owned(insert_string),
            report_failure,
            replaced: false,
            match_type,
        }
    }
}

/// Comment out the lines that match, with the given comment text in front.
pub struct CommentLineEntry {
    pub match_string: String,
    pub comment_char: String,
    pub report_failure: bool,
    pub replaced: bool,
    pub match_type: FileEditMatchType,
}

impl CommentLineEntry {
    pub fn new(match_string: &str, comment_char: &str, report_failure: bool, match_type: FileEditMatchType) -> (r:
        CommentLineEntry)
        ensures
            r.match_string@ == match_string@,
            r.comment_char@ == comment_char@,
            r.report_failure == report_failure,
            !r.replaced,
            r.match_type == match_type,
    {
        CommentLineEntry {
            match_string: owned(match_string),
            comment_char: owned(comment_char),
            report_failure,
            replaced: false,
            match_type,
        }
    }
}

// ---------------------------------------------------------------------
// Reading the edit items from the parameters
// ---------------------------------------------------------------------

/// The text of a string entry of a map, or empty text.
pub open spec fn entry_text(e: Seq<(String, ParamValue)>, key: Seq<char>) -> Seq<char> {
    match lookup(e, key) {
        Some(ParamValue::Str(s)) => s@,
        _ => seq![],
    }
}

fn entry_text_exec(e: &Vec<(String, ParamValue)>, key: &str) -> (r: String)
    ensures
        r@ == entry_text(e@, key@),
{
    match get_entry(e, key) {
        Some(ParamValue::Str(s)) => owned(s.as_str()),
        _ => String::new(),
    }
}

/// The `matchType` of an item: `contains` unless one of `matches`,
/// `startsWith` or `endsWith` is given.
pub open spec fn match_type_of(e: Seq<(String, ParamValue)>) -> FileEditMatchType {
    match lookup(e, "matchType"@) {
        Some(ParamValue::Str(s)) => if s@ == "matches"@ {
            FileEditMatchType::Matches
        } else if s@ == "startsWith"@ {
            FileEditMatchType::StartsWith
        } else if s@ == "endsWith"@ {
            FileEditMatchType::EndsWith
        } else {
            FileEditMatchType::Contains
        },
        _ => FileEditMatchType::Contains,
    }
}

pub fn get_edit_line_entry_match_type(entry: &Vec<(String, ParamValue)>) -> (r: FileEditMatchType)
    ensures
        r == match_type_of(entry@),
{
    match get_entry(entry, "matchType") {
        Some(ParamValue::Str(s)) => if str_eq(s.as_str(), "matches") {
            FileEditMatchType::Matches
        } else if str_eq(s.as_str(), "startsWith") {
            FileEditMatchType::StartsWith
        } else if str_eq(s.as_str(), "endsWith") {
            FileEditMatchType::EndsWith
        } else {
            FileEditMatchType::Contains
        },
        _ => FileEditMatchType::Contains,
    }
}

/// A replace item, by its texts.
pub struct ReplaceV {
    pub m: Seq<char>,
    pub r: Seq<char>,
    pub mt: FileEditMatchType,
}

impl View for ReplaceLineEntry {
    type V = ReplaceV;

    open spec fn view(&self) -> ReplaceV {
        ReplaceV { m: self.match_string@, r: self.replace_string@, mt: self.match_type }
    }
}

/// An insert item, by its texts.
pub struct InsertV {
    pub pos: InsertLinePositionType,
    pub m: Seq<char>,
    pub ins: Seq<char>,
    pub mt: FileEditMatchType,
}

impl View for InsertLineEntry {
    type V = InsertV;

    open spec fn view(&self) -> InsertV {
        InsertV { pos: self.position_type, m: self.match_string@, ins: self.insert_string@, mt: self.match_type }
    }
}

/// A comment item, by its texts.
pub struct CommentV {
    pub m: Seq<char>,
    pub c: Seq<char>,
    pub mt: FileEditMatchType,
}

impl View for CommentLineEntry {
    type V = CommentV;

    open spec fn view(&self) -> CommentV {
        CommentV { m: self.match_string@, c: self.comment_char@, mt: self.match_type }
    }
}

/// A replace item needs a non-empty `matchString` and `replaceString`.
pub open spec fn replace_item(e: Seq<(String, ParamValue)>) -> Option<ReplaceV> {
    let m = entry_text(e, "matchString"@);
    let r = entry_text(e, "replaceString"@);
    if m.len() > 0 && r.len() > 0 {
        Some(ReplaceV { m, r, mt: match_type_of(e) })
    } else {
        None
    }
}

/// An insert item needs a non-empty `matchString` and `insertString`; it
/// goes `above` or (otherwise) below.
pub open spec fn insert_item(e: Seq<(String, ParamValue)>) -> Option<InsertV> {
    let m = entry_text(e, "matchString"@);
    let ins = entry_text(e, "insertString"@);
    let pos = match lookup(e, "position"@) {
        Some(ParamValue::Str(s)) => if s@ == "above"@ {
            InsertLinePositionType::Above
        } else {
            InsertLinePositionType::Below
        },
        _ => InsertLinePositionType::Below,
    };
    if m.len() > 0 && ins.len() > 0 {
        Some(InsertV { pos, m, ins, mt: match_type_of(e) })
    } else {
        None
    }
}

/// A comment item needs a non-empty `matchString` and a non-empty string
/// `commentChar`.
pub open spec fn comment_item(e: Seq<(String, ParamValue)>) -> Option<CommentV> {
    match lookup(e, "commentChar"@) {
        Some(ParamValue::Str(c)) => {
            let m = entry_text(e, "matchString"@);
            if m.len() > 0 && c@.len() > 0 {
                Some(CommentV { m, c: c@, mt: match_type_of(e) })
            } else {
                None
            }
        },
        _ => None,
    }
}

pub fn process_replace_line_entry(entry: &Vec<(String, ParamValue)>) -> (r: Option<ReplaceLineEntry>)
    ensures
        match r {
            Some(x) => replace_item(entry@) == Some(x@) && !x.report_failure && !x.replaced,
            None => replace_item(entry@) is None,
        },
{
    let m = entry_text_exec(entry, "matchString");
    let rep = entry_text_exec(entry, "replaceString");
    let mt = get_edit_line_entry_match_type(entry);
    if m.as_str().unicode_len() > 0 && rep.as_str().unicode_len() > 0 {
        Some(ReplaceLineEntry::new(m.as_str(), rep.as_str(), false, mt))
    } else {
        None
    }
}

pub fn process_insert_line_entry(entry: &Vec<(String, ParamValue)>) -> (r: Option<InsertLineEntry>)
    ensures
        match r {
            Some(x) => insert_item(entry@) == Some(x@) && !x.report_failure && !x.replaced,
            None => insert_item(entry@) is None,
        },
{
    let m = entry_text_exec(entry, "matchString");
    let ins = entry_text_exec(entry, "insertString");
    let pos = match get_entry(entry, "position") {
        Some(ParamValue::Str(s)) => if str_eq(s.as_str(), "above") {
            InsertLinePositionType::Above
        } else {
            InsertLinePositionType::Below
        },
        _ => InsertLinePositionType::Below,
    };
    let mt = get_edit_line_entry_match_type(entry);
    if m.as_str().unicode_len() > 0 && ins.as_str().unicode_len() > 0 {
        Some(InsertLineEntry::new(pos, m.as_str(), ins.as_str(), false, mt))
    } else {
        None
    }
}

pub fn process_comment_line_entry(entry: &Vec<(String, ParamValue)>) -> (r: Option<CommentLineEntry>)
    ensures
        match r {
            Some(x) => comment_item(entry@) == Some(x@) && !x.report_failure && !x.replaced,
            None => comment_item(entry@) is None,
        },
{
    match get_entry(entry, "commentChar") {
        Some(ParamValue::Str(c)) => {
            let m = entry_text_exec(entry, "matchString");
            let mt = get_edit_line_entry_match_type(entry);
            if m.as_str().unicode_len() > 0 && c.as_str().unicode_len() > 0 {
                Some(CommentLineEntry::new(m.as_str(), c.as_str(), false, mt))
            } else {
                None
            }
        },
        _ => None,
    }
}

/// The maps an edit parameter holds: the parameter itself when it is a map,
/// the map items of a list.
pub open spec fn maps_in(a: Seq<ParamValue>) -> Seq<Seq<(String, ParamValue)>>
    decreases a.len(),
{
    if a.len() == 0 {
        seq![]
    } else {
        match a.last() {
            ParamValue::Mapping(m) => maps_in(a.drop_last()).push(m@),
            _ => maps_in(a.drop_last()),
        }
    }
}

pub open spec fn edit_maps(v: Option<ParamValue>) -> Seq<Seq<(String, ParamValue)>> {
    match v {
        Some(ParamValue::Mapping(m)) => seq![m@],
        Some(ParamValue::Array(a)) => maps_in(a@),
        _ => seq![],
    }
}

pub open spec fn replace_items(ms: Seq<Seq<(String, ParamValue)>>) -> Seq<ReplaceV>
    decreases ms.len(),
{
    if ms.len() == 0 {
        seq![]
    } else {
        match replace_item(ms.last()) {
            Some(x) => replace_items(ms.drop_last()).push(x),
            None => replace_items(ms.drop_last()),
        }
    }
}

pub open spec fn insert_items(ms: Seq<Seq<(String, ParamValue)>>) -> Seq<InsertV>
    decreases ms.len(),
{
    if ms.len() == 0 {
        seq![]
    } else {
        match insert_item(ms.last()) {
            Some(x) => insert_items(ms.drop_last()).push(x),
            None => insert_items(ms.drop_last()),
        }
    }
}

pub open spec fn comment_items(ms: Seq<Seq<(String, ParamValue)>>) -> Seq<CommentV>
    decreases ms.len(),
{
    if ms.len() == 0 {
        seq![]
    } else {
        match comment_item(ms.last()) {
            Some(x) => comment_items(ms.drop_last()).push(x),
            None => comment_items(ms.drop_last()),
        }
    }
}

pub open spec fn maps_view(v: Seq<&Vec<(String, ParamValue)>>) -> Seq<Seq<(String, ParamValue)>> {
    v.map_values(|m: &Vec<(String, ParamValue)>| m@)
}

/// The maps of an edit parameter.
pub fn extract_edit_line_entry_maps<'a>(params: &'a Params, key: &str) -> (r: Vec<&'a Vec<(String, ParamValue)>>)
    ensures
        maps_view(r@) == edit_maps(params.get(key@)),
{
    let mut out: Vec<&'a Vec<(String, ParamValue)>> = Vec::new();
    match params.get_raw_value(key) {
        Some(ParamValue::Mapping(m)) => {
            out.push(m);
            assert(maps_view(out@) =~= seq![m@]);
        },
        Some(ParamValue::Array(a)) => {
            let mut i: usize = 0;
            while i < a.len()
                invariant
                    i <= a@.len(),
                    maps_view(out@) == maps_in(a@.take(i as int)),
                decreases a@.len() - i,
            {
                proof {
                    assert(a@.take(i + 1).drop_last() =~= a@.take(i as int));
                }
                match &a[i] {
                    ParamValue::Mapping(m) => {
                        let ghost before = out@;
                        out.push(m);
                        assert(maps_view(out@) =~= maps_view(before).push(m@));
                    },
                    _ => {},
                }
                i = i + 1;
            }
            proof {
                assert(a@.take(a@.len() as int) =~= a@);
            }
        },
        _ => {
            assert(maps_view(out@) =~= seq![]);
        },
    }
    out
}

pub open spec fn replace_view(v: Seq<ReplaceLineEntry>) -> Seq<ReplaceV> {
    v.map_values(|x: ReplaceLineEntry| x@)
}

pub open spec fn insert_view(v: Seq<InsertLineEntry>) -> Seq<InsertV> {
    v.map_values(|x: InsertLineEntry| x@)
}

pub open spec fn comment_view(v: Seq<CommentLineEntry>) -> Seq<CommentV> {
    v.map_values(|x: CommentLineEntry| x@)
}

fn extract_replace_items(params: &Params) -> (r: Vec<ReplaceLineEntry>)
    ensures
        replace_view(r@) == replace_items(edit_maps(params.get("replaceLine"@))),
{
    let maps = extract_edit_line_entry_maps(params, "replaceLine");
    let ghost mv = maps_view(maps@);
    let mut out: Vec<ReplaceLineEntry> = Vec::new();
    let mut i: usize = 0;
    while i < maps.len()
        invariant
            i <= maps@.len(),
            mv == maps_view(maps@),
            replace_view(out@) == replace_items(mv.take(i as int)),
        decreases maps@.len() - i,
    {
        proof {
            assert(mv.take(i + 1).drop_last() =~= mv.take(i as int));
            assert(mv.take(i + 1).last() == maps@[i as int]@);
        }
        match process_replace_line_entry(maps[i]) {
            Some(x) => {
                let ghost before = out@;
                out.push(x);
                assert(replace_view(out@) =~= replace_view(before).push(out@.last()@));
            },
            None => {},
        }
        i = i + 1;
    }
    proof {
        assert(mv.take(maps@.len() as int) =~= mv);
    }
    out
}

fn extract_insert_items(params: &Params) -> (r: Vec<InsertLineEntry>)
    ensures
        insert_view(r@) == insert_items(edit_maps(params.get("insertLine"@))),
{
    let maps = extract_edit_line_entry_maps(params, "insertLine");
    let ghost mv = maps_view(maps@);
    let mut out: Vec<InsertLineEntry> = Vec::new();
    let mut i: usize = 0;
    while i < maps.len()
        invariant
            i <= maps@.len(),
            mv == maps_view(maps@),
            insert_view(out@) == insert_items(mv.take(i as int)),
        decreases maps@.len() - i,
    {
        proof {
            assert(mv.take(i + 1).drop_last() =~= mv.take(i as int));
            assert(mv.take(i + 1).last() == maps@[i as int]@);
        }
        match process_insert_line_entry(maps[i]) {
            Some(x) => {
                let ghost before = out@;
                out.push(x);
                assert(insert_view(out@) =~= insert_view(before).push(out@.last()@));
            },
            None => {},
        }
        i = i + 1;
    }
    proof {
        assert(mv.take(maps@.len() as int) =~= mv);
    }
    out
}

fn extract_comment_items(params: &Params) -> (r: Vec<CommentLineEntry>)
    ensures
        comment_view(r@) == comment_items(edit_maps(params.get("commentLine"@))),
{
    let maps = extract_edit_line_entry_maps(params, "commentLine");
    let ghost mv = maps_view(maps@);
    let mut out: Vec<CommentLineEntry> = Vec::new();
    let mut i: usize = 0;
    while i < maps.len()
        invariant
            i <= maps@.len(),
            mv == maps_view(maps@),
            comment_view(out@) == comment_items(mv.take(i as int)),
        decreases maps@.len() - i,
    {
        proof {
            assert(mv.take(i + 1).drop_last() =~= mv.take(i as int));
            assert(mv.take(i + 1).last() == maps@[i as int]@);
        }
        match process_comment_line_entry(maps[i]) {
            Some(x) => {
                let ghost before = out@;
                out.push(x);
                assert(comment_view(out@) =~= comment_view(before).push(out@.last()@));
            },
            None => {},
        }
        i = i + 1;
    }
    proof {
        assert(mv.take(maps@.len() as int) =~= mv);
    }
    out
}

// ---------------------------------------------------------------------
// The edit of the file's lines
// ---------------------------------------------------------------------

/// The replacement lines for a line: one per replace item that matches.
pub open spec fn replace_out(items: Seq<ReplaceV>, line: Seq<char>) -> Seq<Seq<char>>
    decreases items.len(),
{
    if items.len() == 0 {
        seq![]
    } else {
        let x = items.last();
        replace_out(items.drop_last(), line) + (if line_matches(x.mt, x.m, line) {
            seq![x.r]
        } else {
            seq![]
        })
    }
}

/// The commented copies of a line: one per comment item that matches.
pub open spec fn comment_out(items: Seq<CommentV>, line: Seq<char>) -> Seq<Seq<char>>
    decreases items.len(),
{
    if items.len() == 0 {
        seq![]
    } else {
        let x = items.last();
        comment_out(items.drop_last(), line) + (if line_matches(x.mt, x.m, line) {
            seq![x.c + line]
        } else {
            seq![]
        })
    }
}

/// The last insert item that matches a line.
pub open spec fn insert_for(items: Seq<InsertV>, line: Seq<char>) -> Option<InsertV>
    decreases items.len(),
{
    if items.len() == 0 {
        None
    } else if line_matches(items.last().mt, items.last().m, line) {
        Some(items.last())
    } else {
        insert_for(items.drop_last(), line)
    }
}

/// What a line becomes: its replacements and commented copies when any
/// item of those kinds matches; otherwise the line, with the text of the
/// last matching insert item above or below it.
pub open spec fn edit_line(ins: Seq<InsertV>, rep: Seq<ReplaceV>, com: Seq<CommentV>, line: Seq<char>) -> Seq<Seq<char>> {
    let out = replace_out(rep, line) + comment_out(com, line);
    if out.len() > 0 {
        out
    } else {
        match insert_for(ins, line) {
            Some(x) => if x.pos == InsertLinePositionType::Above {
                seq![x.ins, line]
            } else {
                seq![line, x.ins]
            },
            None => seq![line],
        }
    }
}

pub open spec fn edit_lines(ins: Seq<InsertV>, rep: Seq<ReplaceV>, com: Seq<CommentV>, ls: Seq<Seq<char>>) -> Seq<Seq<char>>
    decreases ls.len(),
{
    if ls.len() == 0 {
        seq![]
    } else {
        edit_lines(ins, rep, com, ls.drop_last()) + edit_line(ins, rep, com, ls.last())
    }
}

/// The edited text, ending with a newline.
pub open spec fn edited_text(ins: Seq<InsertV>, rep: Seq<ReplaceV>, com: Seq<CommentV>, contents: Seq<char>) -> Seq<char> {
    join(edit_lines(ins, rep, com, lines_of(contents)), "\n"@) + "\n"@
}

fn push_edit_line(
    out: &mut Vec<String>,
    ins: &Vec<InsertLineEntry>,
    rep: &Vec<ReplaceLineEntry>,
    com: &Vec<CommentLineEntry>,
    line: &Vec<char>,
)
    ensures
        strings_view(final(out)@) == strings_view(old(out)@) + edit_line(insert_view(ins@), replace_view(rep@), comment_view(com@), line@),
{
    let ghost start = strings_view(out@);
    let ghost iv = insert_view(ins@);
    let ghost rv = replace_view(rep@);
    let ghost cv = comment_view(com@);
    let mut produced: Vec<String> = Vec::new();
    let mut i: usize = 0;
    while i < rep.len()
        invariant
            i <= rep@.len(),
            rv == replace_view(rep@),
            strings_view(produced@) == replace_out(rv.take(i as int), line@),
        decreases rep@.len() - i,
    {
        proof {
            assert(rv.take(i + 1).drop_last() =~= rv.take(i as int));
            assert(rv.take(i + 1).last() == rep@[i as int]@);
        }
        if line_matches_exec(rep[i].match_type, rep[i].match_string.as_str(), line.as_slice()) {
            let ghost before = produced@;
            produced.push(owned(rep[i].replace_string.as_str()));
            assert(strings_view(produced@) =~= strings_view(before).push(rep@[i as int].replace_string@));
        } else {
            assert(strings_view(produced@) =~= replace_out(rv.take(i + 1), line@));
        }
        i = i + 1;
    }
    proof {
        assert(rv.take(rep@.len() as int) =~= rv);
    }
    let ghost reps = strings_view(produced@);
    let mut j: usize = 0;
    while j < com.len()
        invariant
            j <= com@.len(),
            cv == comment_view(com@),
            strings_view(produced@) == reps + comment_out(cv.take(j as int), line@),
        decreases com@.len() - j,
    {
        proof {
            assert(cv.take(j + 1).drop_last() =~= cv.take(j as int));
            assert(cv.take(j + 1).last() == com@[j as int]@);
        }
        if line_matches_exec(com[j].match_type, com[j].match_string.as_str(), line.as_slice()) {
            let l = string_of(line.as_slice());
            let ghost before = produced@;
            produced.push(concat2(com[j].comment_char.as_str(), l.as_str()));
            assert(strings_view(produced@) =~= strings_view(before).push(com@[j as int].comment_char@ + line@));
        } else {
            assert(strings_view(produced@) =~= reps + comment_out(cv.take(j + 1), line@));
        }
        j = j + 1;
    }
    proof {
        assert(cv.take(com@.len() as int) =~= cv);
    }
    if produced.len() > 0 {
        let mut k: usize = 0;
        let ghost pv = strings_view(produced@);
        while k < produced.len()
            invariant
                k <= produced@.len(),
                pv == strings_view(produced@),
                strings_view(out@) == start + pv.take(k as int),
            decreases produced@.len() - k,
        {
            let ghost before = out@;
            out.push(owned(produced[k].as_str()));
            assert(strings_view(out@) =~= strings_view(before).push(pv[k as int]));
            assert(pv.take(k + 1) =~= pv.take(k as int).push(pv[k as int]));
            k = k + 1;
        }
        assert(pv.take(produced@.len() as int) =~= pv);
        return;
    }
    let mut found: Option<usize> = None;
    let mut q: usize = 0;
    while q < ins.len()
        invariant
            q <= ins@.len(),
            iv == insert_view(ins@),
            match found {
                Some(x) => x < q && insert_for(iv.take(q as int), line@) == Some(iv[x as int]),
                None => insert_for(iv.take(q as int), line@) is None,
            },
        decreases ins@.len() - q,
    {
        proof {
            assert(iv.take(q + 1).drop_last() =~= iv.take(q as int));
            assert(iv.take(q + 1).last() == ins@[q as int]@);
        }
        if line_matches_exec(ins[q].match_type, ins[q].match_string.as_str(), line.as_slice()) {
            found = Some(q);
        }
        q = q + 1;
    }
    proof {
        assert(iv.take(ins@.len() as int) =~= iv);
    }
    let l = string_of(line.as_slice());
    let ghost before = out@;
    match found {
        Some(x) => {
            assert(iv[x as int] == ins@[x as int]@);
            let text = owned(ins[x].insert_string.as_str());
            if ins[x].position_type == InsertLinePositionType::Above {
                out.push(text);
                out.push(l);
            } else {
                out.push(l);
                out.push(text);
            }
        },
        None => {
            out.push(l);
        },
    }
    assert(strings_view(out@) =~= start + edit_line(iv, rv, cv, line@));
}

fn edited_text_exec(
    ins: &Vec<InsertLineEntry>,
    rep: &Vec<ReplaceLineEntry>,
    com: &Vec<CommentLineEntry>,
    contents: &str,
) -> (r: String)
    ensures
        r@ == edited_text(insert_view(ins@), replace_view(rep@), comment_view(com@), contents@),
{
    let ghost iv = insert_view(ins@);
    let ghost rv = replace_view(rep@);
    let ghost cv = comment_view(com@);
    let chars = chars_of(contents);
    let ls = split_lines(chars.as_slice());
    let ghost lv = lines_of(contents@);
    let mut out: Vec<String> = Vec::new();
    let mut i: usize = 0;
    while i < ls.len()
        invariant
            i <= ls@.len(),
            ls@.len() == lv.len(),
            forall|k: int| 0 <= k < ls@.len() ==> #[trigger] ls@[k]@ == lv[k],
            iv == insert_view(ins@),
            rv == replace_view(rep@),
            cv == comment_view(com@),
            strings_view(out@) == edit_lines(iv, rv, cv, lv.take(i as int)),
        decreases ls@.len() - i,
    {
        proof {
            assert(lv.take(i + 1).drop_last() =~= lv.take(i as int));
            assert(lv.take(i + 1).last() == ls@[i as int]@);
        }
        push_edit_line(&mut out, ins, rep, com, &ls[i]);
        i = i + 1;
    }
    proof {
        assert(lv.take(ls@.len() as int) =~= lv);
    }
    let joined = join_strings(&out, "\n");
    concat2(joined.as_str(), "\n")
}

// ---------------------------------------------------------------------
// editFile
// ---------------------------------------------------------------------

pub open spec fn edit_read_ops(params: Params, path: Seq<char>) -> Seq<OpV> {
    (if bool_or(params.get("backup"@), false) {
        seq![OpV::Run(
            "cp "@ + path + " "@ + path + ".bak"@,
            seq![CheckV::Stderr(FailV::OtherWith("Error making backup copy of remote file path: "@))],
        )]
    } else {
        seq![]
    }) + seq![
        OpV::Run("stat "@ + path, seq![CheckV::Stderr(FailV::OtherWith("Error accessing remote file path: "@))]),
        OpV::Fetch(path),
    ]
}

/// Reads the `filepath` file (after a backup copy when `backup` is set, and
/// `stat`), applies the `replaceLine`, `insertLine` and `commentLine`
/// items to its lines, and writes it back with the permissions `stat`
/// reported. Without any usable item the action is refused.
pub open spec fn edit_file_step(p: ControlSessionParams, action: ControlAction, rs: Seq<ReplyV>) -> StepV {
    let params = action.params;
    match required(params, "filepath"@) {
        Err(e) => StepV::Finished(Err(e)),
        Ok(path) => {
            let rep = replace_items(edit_maps(params.get("replaceLine"@)));
            let ins = insert_items(edit_maps(params.get("insertLine"@)));
            let com = comment_items(edit_maps(params.get("commentLine"@)));
            if rep.len() == 0 && ins.len() == 0 && com.len() == 0 {
                StepV::Finished(Err(ActionErr::InvalidParams(seq![])))
            } else {
                match script_outcome(p, action.action, edit_read_ops(params, path), 0, rs) {
                    OutcomeV::Completed(k) => {
                        let contents = text_at(rs, k - 1);
                        if contents.len() == 0 {
                            StepV::Finished(Err(ActionErr::FailedOther(seq![])))
                        } else {
                            match stat_file_mode(stdout_at(rs, k - 2)) {
                                Err(m) => StepV::Abort(m),
                                Ok(mode) => script_step(
                                    p,
                                    action.action,
                                    seq![OpV::SendText(path, mode, edited_text(ins, rep, com, contents), FailV::Other(seq![]))],
                                    k,
                                    rs,
                                ),
                            }
                        }
                    },
                    o => outcome_step(o),
                }
            }
        },
    }
}

/// Edits lines of a remote text file.
pub fn edit_file(p: &ControlSessionParams, action: &ControlAction, replies: &Vec<ActionReply>) -> (r: ActionStep)
    ensures
        r@ == edit_file_step(*p, *action, replies_view(replies@)),
{
    let path = match action.get_required_string_param("filepath") {
        Err(e) => {
            return ActionStep::Finished(Err(e));
        },
        Ok(f) => f,
    };
    let rep = extract_replace_items(&action.params);
    let ins = extract_insert_items(&action.params);
    let com = extract_comment_items(&action.params);
    if rep.len() == 0 && ins.len() == 0 && com.len() == 0 {
        return ActionStep::Finished(Err(ActionError::InvalidParams(String::new())));
    }
    let mut read: Vec<Op> = Vec::new();
    if action.params.get_bool_or("backup", false) {
        push_op(
            &mut read,
            run_with(
                concat5("cp ", path.as_str(), " ", path.as_str(), ".bak"),
                Check::Stderr(Fail::OtherWith(owned("Error making backup copy of remote file path: "))),
            ),
        );
    }
    push_op(&mut read, run_with(concat2("stat ", path.as_str()), Check::Stderr(Fail::OtherWith(owned("Error accessing remote file path: ")))));
    push_op(&mut read, Op::Fetch(owned(path.as_str())));
    assert(ops_view(read@) =~= edit_read_ops(action.params, path@));
    let k = match run_script(p, action.action, &read, replies, 0) {
        ScriptOutcome::Completed(k) => k,
        o => {
            return to_step(o);
        },
    };
    let contents = if k >= 1 {
        text_at_exec(replies, k - 1)
    } else {
        String::new()
    };
    if contents.as_str().unicode_len() == 0 {
        return ActionStep::Finished(Err(ActionError::FailedOther(String::new())));
    }
    let stat_out = if k >= 2 {
        stdout_at_exec(replies, k - 2)
    } else {
        String::new()
    };
    let mode = match file_mode_from_stat(stat_out.as_str()) {
        Err(m) => {
            return ActionStep::Abort(m);
        },
        Ok(m) => m,
    };
    let new_contents = edited_text_exec(&ins, &rep, &com, contents.as_str());
    let mut write: Vec<Op> = Vec::new();
    push_op(&mut write, Op::SendText(path, mode, new_contents, Fail::Other(String::new())));
    assert(ops_view(write@) =~= seq![OpV::SendText(
        action.params.get("filepath"@)->Some_0->Str_0@,
        mode,
        edited_text(insert_view(ins@), replace_view(rep@), comment_view(com@), contents@),
        FailV::Other(seq![]),
    )]);
    finish_script(p, action.action, &write, replies, k)
}


proof fn lemma_replace_out_unmatched(items: Seq<ReplaceV>, line: Seq<char>)
    requires
        forall|i: int| 0 <= i < items.len() ==> !line_matches(#[trigger] items[i].mt, items[i].m, line),
    ensures
        replace_out(items, line).len() == 0,
    decreases items.len(),
{
    if items.len() > 0 {
        lemma_replace_out_unmatched(items.drop_last(), line);
    }
}

proof fn lemma_comment_out_unmatched(items: Seq<CommentV>, line: Seq<char>)
    requires
        forall|i: int| 0 <= i < items.len() ==> !line_matches(#[trigger] items[i].mt, items[i].m, line),
    ensures
        comment_out(items, line).len() == 0,
    decreases items.len(),
{
    if items.len() > 0 {
        lemma_comment_out_unmatched(items.drop_last(), line);
    }
}

proof fn lemma_insert_for_last_match(items: Seq<InsertV>, line: Seq<char>, k: int)
    requires
        0 <= k < items.len(),
        line_matches(items[k].mt, items[k].m, line),
        forall|j: int| k < j < items.len() ==> !line_matches(#[trigger] items[j].mt, items[j].m, line),
    ensures
        insert_for(items, line) == Some(items[k]),
    decreases items.len(),
{
    if k < items.len() - 1 {
        assert(!line_matches(items[items.len() - 1].mt, items[items.len() - 1].m, line));
        lemma_insert_for_last_match(items.drop_last(), line, k);
    }
}

/// A line that no replace or comment item matches stays, and the text of
/// the last insert item that matches it is put right below it when the
/// item's position is below, and right above it when it is above.
pub proof fn lemma_insert_goes_beside_the_line(
    ins: Seq<InsertV>,
    rep: Seq<ReplaceV>,
    com: Seq<CommentV>,
    line: Seq<char>,
    k: int,
)
    requires
        forall|i: int| 0 <= i < rep.len() ==> !line_matches(#[trigger] rep[i].mt, rep[i].m, line),
        forall|i: int| 0 <= i < com.len() ==> !line_matches(#[trigger] com[i].mt, com[i].m, line),
        0 <= k < ins.len(),
        line_matches(ins[k].mt, ins[k].m, line),
        forall|j: int| k < j < ins.len() ==> !line_matches(#[trigger] ins[j].mt, ins[j].m, line),
    ensures
        ins[k].pos == InsertLinePositionType::Below ==> edit_line(ins, rep, com, line) == seq![line, ins[k].ins],
        ins[k].pos == InsertLinePositionType::Above ==> edit_line(ins, rep, com, line) == seq![ins[k].ins, line],
{
    lemma_replace_out_unmatched(rep, line);
    lemma_comment_out_unmatched(com, line);
    lemma_insert_for_last_match(ins, line, k);
    assert(replace_out(rep, line) + comment_out(com, line) =~= seq![]);
}

/// A line that no item matches is kept as it is.
pub proof fn lemma_unmatched_line_kept(ins: Seq<InsertV>, rep: Seq<ReplaceV>, com: Seq<CommentV>, line: Seq<char>)
    requires
        forall|i: int| 0 <= i < rep.len() ==> !line_matches(#[trigger] rep[i].mt, rep[i].m, line),
        forall|i: int| 0 <= i < com.len() ==> !line_matches(#[trigger] com[i].mt, com[i].m, line),
        forall|i: int| 0 <= i < ins.len() ==> !line_matches(#[trigger] ins[i].mt, ins[i].m, line),
    ensures
        edit_line(ins, rep, com, line) == seq![line],
{
    lemma_replace_out_unmatched(rep, line);
    lemma_comment_out_unmatched(com, line);
    assert(replace_out(rep, line) + comment_out(com, line) =~= seq![]);
    lemma_insert_for_none(ins, line);
}

proof fn lemma_insert_for_none(items: Seq<InsertV>, line: Seq<char>)
    requires
        forall|i: int| 0 <= i < items.len() ==> !line_matches(#[trigger] items[i].mt, items[i].m, line),
    ensures
        insert_for(items, line) is None,
    decreases items.len(),
{
    if items.len() > 0 {
        lemma_insert_for_none(items.drop_last(), line);
    }
}

/// The lines of a file are edited one by one, in order: the edit of two
/// runs of lines is the edit of the first followed by the edit of the
/// second.
pub proof fn lemma_edit_lines_in_order(
    ins: Seq<InsertV>,
    rep: Seq<ReplaceV>,
    com: Seq<CommentV>,
    a: Seq<Seq<char>>,
    b: Seq<Seq<char>>,
)
    ensures
        edit_lines(ins, rep, com, a + b) == edit_lines(ins, rep, com, a) + edit_lines(ins, rep, com, b),
    decreases b.len(),
{
    if b.len() == 0 {
        assert(a + b =~= a);
        assert(edit_lines(ins, rep, com, a) + edit_lines(ins, rep, com, b) =~= edit_lines(ins, rep, com, a));
    } else {
        lemma_edit_lines_in_order(ins, rep, com, a, b.drop_last());
        assert((a + b).drop_last() =~= a + b.drop_last());
        assert((a + b).last() == b.last());
        assert(edit_lines(ins, rep, com, a + b) =~= edit_lines(ins, rep, com, a) + edit_lines(ins, rep, com, b));
    }
}


/// A line that a replace item matches is replaced by that item's text, and
/// a line that a comment item matches becomes the comment text followed by
/// the line; an insert item then adds nothing.
pub proof fn lemma_replace_and_comment_lines(ins: Seq<InsertV>, r: ReplaceV, c: CommentV, line: Seq<char>)
    ensures
        line_matches(r.mt, r.m, line) ==> edit_line(ins, seq![r], seq![], line) == seq![r.r],
        line_matches(c.mt, c.m, line) ==> edit_line(ins, seq![], seq![c], line) == seq![c.c + line],
        line_matches(r.mt, r.m, line) && line_matches(c.mt, c.m, line) ==> edit_line(ins, seq![r], seq![c], line)
            == seq![r.r, c.c + line],
{
    assert(seq![r].drop_last() =~= seq![]);
    assert(seq![c].drop_last() =~= seq![]);
    assert(replace_out(seq![], line) =~= seq![]);
    assert(comment_out(seq![], line) =~= seq![]);
    assert(seq![] + seq![r.r] =~= seq![r.r]);
    assert(seq![] + seq![c.c + line] =~= seq![c.c + line]);
    assert(seq![r.r] + seq![c.c + line] =~= seq![r.r, c.c + line]);
    assert(seq![r.r] + seq![] =~= seq![r.r]);
    assert(seq![] + seq![] =~= Seq::<Seq<char>>::empty());
}

} // verus!
