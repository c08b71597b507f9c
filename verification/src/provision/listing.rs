//! What a provider's list of regions, plans or OS images looks like when
//! printed: each item's fields read from the JSON reply, then laid out in
//! columns padded to the widest entry.
use vstd::prelude::*;
use vstd::utf8::encode_utf8;
use crate::params::strings_view;
use crate::provision::json::{
    bool_member, json_get, json_parsed, json_seq_view, lemma_json_seq_view, member, parse_json, text_member,
    text_member_exec, u32_member, u32_member_exec, u64_member, u64_member_exec, JsonV, JsonValue,
};
use crate::text::{concat2, nat_decimal, owned, string_of, u64_decimal};

verus! {

/// How a cell is placed: as it is, padded on the right (left-aligned), or
/// padded on the left (right-aligned).
#[derive(Clone, Copy, Debug, PartialEq, Eq, Structural)]
pub enum Align {
    Plain,
    Left,
    Right,
}

/// A piece of a printed line: fixed text, or the cell of a column.
pub enum Piece {
    Text(String),
    Cell(usize, Align),
}

pub enum PieceV {
    Text(Seq<char>),
    Cell(int, Align),
}

impl View for Piece {
    type V = PieceV;

    open spec fn view(&self) -> PieceV {
        match self {
            Piece::Text(t) => PieceV::Text(t@),
            Piece::Cell(c, a) => PieceV::Cell(*c as int, *a),
        }
    }
}

pub open spec fn pieces_view(s: Seq<Piece>) -> Seq<PieceV> {
    s.map_values(|p: Piece| p@)
}

pub open spec fn rows_view(s: Seq<Vec<String>>) -> Seq<Seq<Seq<char>>> {
    s.map_values(|r: Vec<String>| strings_view(r@))
}

/// The length of a text in UTF-8 bytes, as `str::len` gives it.
pub open spec fn byte_len(s: Seq<char>) -> int {
    (encode_utf8(s).len() as usize) as int
}

pub open spec fn spaces(n: nat) -> Seq<char> {
    Seq::new(n, |i: int| ' ')
}

/// A cell padded with spaces up to a width counted in characters.
pub open spec fn padded(s: Seq<char>, w: int, a: Align) -> Seq<char> {
    if a == Align::Plain || s.len() >= w {
        s
    } else if a == Align::Left {
        s + spaces((w - s.len()) as nat)
    } else {
        spaces((w - s.len()) as nat) + s
    }
}

/// The width of a column: its longest cell, in bytes.
pub open spec fn col_width(rows: Seq<Seq<Seq<char>>>, c: int) -> int
    decreases rows.len(),
{
    if rows.len() == 0 {
        0
    } else {
        let w = col_width(rows.drop_last(), c);
        let b = byte_len(rows.last()[c]);
        if b > w {
            b
        } else {
            w
        }
    }
}

/// A row printed by the layout, its cells padded to the widths of their
/// columns among all the rows.
pub open spec fn line_text(layout: Seq<PieceV>, row: Seq<Seq<char>>, rows: Seq<Seq<Seq<char>>>) -> Seq<char>
    decreases layout.len(),
{
    if layout.len() == 0 {
        seq![]
    } else {
        line_text(layout.drop_last(), row, rows) + match layout.last() {
            PieceV::Text(t) => t,
            PieceV::Cell(c, a) => padded(row[c], col_width(rows, c), a),
        }
    }
}

/// The heading line, then each row printed by the layout.
pub open spec fn table_lines(header: Seq<char>, layout: Seq<PieceV>, rows: Seq<Seq<Seq<char>>>) -> Seq<Seq<char>> {
    seq![header] + Seq::new(rows.len(), |i: int| line_text(layout, rows[i], rows))
}

fn spaces_exec(n: usize) -> (r: String)
    ensures
        r@ == spaces(n as nat),
{
    let mut out = String::new();
    let mut i: usize = 0;
    while i < n
        invariant
            i <= n,
            out@ == spaces(i as nat),
        decreases n - i,
    {
        out.append(" ");
        proof {
            reveal_strlit(" ");
            assert(out@ =~= spaces((i + 1) as nat));
        }
        i = i + 1;
    }
    out
}

fn pad_cell(s: &str, w: usize, a: Align) -> (r: String)
    ensures
        r@ == padded(s@, w as int, a),
{
    let n = s.unicode_len();
    if a == Align::Plain || n >= w {
        return owned(s);
    }
    let fill = spaces_exec(w - n);
    if a == Align::Left {
        concat2(s, fill.as_str())
    } else {
        concat2(fill.as_str(), s)
    }
}

fn column_width(rows: &Vec<Vec<String>>, c: usize) -> (r: usize)
    requires
        forall|i: int| 0 <= i < rows@.len() ==> c < #[trigger] rows@[i]@.len(),
    ensures
        r as int == col_width(rows_view(rows@), c as int),
{
    let ghost rv = rows_view(rows@);
    let mut w: usize = 0;
    let mut i: usize = 0;
    while i < rows.len()
        invariant
            i <= rows@.len(),
            rv == rows_view(rows@),
            forall|k: int| 0 <= k < rows@.len() ==> c < #[trigger] rows@[k]@.len(),
            w as int == col_width(rv.take(i as int), c as int),
        decreases rows@.len() - i,
    {
        proof {
            assert(rv.take(i + 1).drop_last() =~= rv.take(i as int));
            assert(rv.take(i + 1).last() == rv[i as int]);
            assert(rv[i as int][c as int] == rows@[i as int]@[c as int]@);
        }
        let b = rows[i][c].as_str().len();
        if b > w {
            w = b;
        }
        i = i + 1;
    }
    proof {
        assert(rv.take(rows@.len() as int) =~= rv);
    }
    w
}

fn render_line(layout: &Vec<Piece>, row: &Vec<String>, rows: &Vec<Vec<String>>) -> (r: String)
    requires
        forall|i: int| 0 <= i < rows@.len() ==> #[trigger] rows@[i]@.len() == row@.len(),
        forall|p: int| 0 <= p < layout@.len() && #[trigger] layout@[p] is Cell ==> layout@[p]->Cell_0 < row@.len(),
    ensures
        r@ == line_text(pieces_view(layout@), strings_view(row@), rows_view(rows@)),
{
    let ghost lv = pieces_view(layout@);
    let mut out = String::new();
    let mut p: usize = 0;
    while p < layout.len()
        invariant
            p <= layout@.len(),
            lv == pieces_view(layout@),
            forall|i: int| 0 <= i < rows@.len() ==> #[trigger] rows@[i]@.len() == row@.len(),
            forall|q: int| 0 <= q < layout@.len() && #[trigger] layout@[q] is Cell ==> layout@[q]->Cell_0 < row@.len(),
            out@ == line_text(lv.take(p as int), strings_view(row@), rows_view(rows@)),
        decreases layout@.len() - p,
    {
        proof {
            assert(lv.take(p + 1).drop_last() =~= lv.take(p as int));
            assert(lv.take(p + 1).last() == layout@[p as int]@);
        }
        match &layout[p] {
            Piece::Text(t) => {
                out.append(t.as_str());
            },
            Piece::Cell(c, a) => {
                let w = column_width(rows, *c);
                let cell = pad_cell(row[*c].as_str(), w, *a);
                out.append(cell.as_str());
            },
        }
        p = p + 1;
    }
    proof {
        assert(lv.take(layout@.len() as int) =~= lv);
    }
    out
}

/// Prints a table: the heading line, then each row by the layout.
pub fn render_table(header: String, layout: &Vec<Piece>, rows: &Vec<Vec<String>>, columns: usize) -> (r: Vec<String>)
    requires
        forall|i: int| 0 <= i < rows@.len() ==> #[trigger] rows@[i]@.len() == columns,
        forall|p: int| 0 <= p < layout@.len() && #[trigger] layout@[p] is Cell ==> layout@[p]->Cell_0 < columns,
    ensures
        strings_view(r@) == table_lines(header@, pieces_view(layout@), rows_view(rows@)),
{
    let ghost rv = rows_view(rows@);
    let mut out: Vec<String> = Vec::new();
    out.push(header);
    let mut i: usize = 0;
    while i < rows.len()
        invariant
            i <= rows@.len(),
            rv == rows_view(rows@),
            forall|k: int| 0 <= k < rows@.len() ==> #[trigger] rows@[k]@.len() == columns,
            forall|p: int| 0 <= p < layout@.len() && #[trigger] layout@[p] is Cell ==> layout@[p]->Cell_0 < columns,
            strings_view(out@) =~= seq![header@] + Seq::new(
                i as nat,
                |k: int| line_text(pieces_view(layout@), rv[k], rv),
            ),
        decreases rows@.len() - i,
    {
        assert(rows@[i as int]@.len() == columns);
        let line = render_line(layout, &rows[i], rows);
        let ghost before = out@;
        out.push(line);
        proof {
            assert(rv[i as int] == strings_view(rows@[i as int]@));
            assert(strings_view(out@) =~= strings_view(before).push(line@));
            assert(strings_view(out@) =~= seq![header@] + Seq::new(
                (i + 1) as nat,
                |k: int| line_text(pieces_view(layout@), rv[k], rv),
            ));
        }
        i = i + 1;
    }
    out
}

/// The lists that are printed from their items.
#[derive(Clone, Copy, Debug, PartialEq, Eq, Structural)]
pub enum ListKind {
    VultrRegions,
    VultrPlans,
    VultrOSs,
    LinodeRegions,
    LinodePlans,
    LinodeOSs,
    BinaryLaneRegions,
    BinaryLaneOSs,
    DigitalOceanRegions,
    DigitalOceanOSs,
}

/// The member of the reply that holds the items.
pub open spec fn list_key(k: ListKind) -> Seq<char> {
    match k {
        ListKind::VultrRegions | ListKind::BinaryLaneRegions | ListKind::DigitalOceanRegions => "regions"@,
        ListKind::VultrPlans => "plans"@,
        ListKind::VultrOSs => "os"@,
        ListKind::LinodeRegions | ListKind::LinodePlans | ListKind::LinodeOSs => "data"@,
        ListKind::BinaryLaneOSs | ListKind::DigitalOceanOSs => "images"@,
    }
}

/// What follows the count in the heading.
pub open spec fn list_noun(k: ListKind) -> Seq<char> {
    match k {
        ListKind::VultrRegions | ListKind::LinodeRegions | ListKind::BinaryLaneRegions
        | ListKind::DigitalOceanRegions => " regions:"@,
        ListKind::VultrPlans | ListKind::LinodePlans => " plans:"@,
        _ => " OS images:"@,
    }
}

/// How many cells a row has.
pub open spec fn list_columns(k: ListKind) -> nat {
    match k {
        ListKind::VultrRegions | ListKind::VultrOSs => 4,
        ListKind::VultrPlans | ListKind::BinaryLaneOSs => 5,
        ListKind::LinodeRegions => 2,
        ListKind::LinodePlans | ListKind::DigitalOceanOSs => 4,
        _ => 3,
    }
}

/// The column titles printed above the items, where the list has them.
pub open spec fn list_titles(k: ListKind) -> Seq<Seq<Seq<char>>> {
    match k {
        ListKind::BinaryLaneRegions => seq![seq!["ID"@, "Name"@, "Available"@]],
        ListKind::DigitalOceanRegions => seq![seq!["id"@, "name"@, "available"@]],
        ListKind::BinaryLaneOSs => seq![seq!["ID"@, "Distribution"@, "Type"@, "Name"@, "Status"@]],
        _ => seq![],
    }
}

/// The text of an unsigned 32-bit member, where it is one.
pub open spec fn u32_text(x: JsonV, key: Seq<char>) -> Option<Seq<char>> {
    if u32_member(x, key) {
        Some(nat_decimal(u64_member(x, key)->Some_0 as nat))
    } else {
        None
    }
}

/// The text of an unsigned 64-bit member, where it is one.
pub open spec fn u64_text(x: JsonV, key: Seq<char>) -> Option<Seq<char>> {
    match u64_member(x, key) {
        Some(n) => Some(nat_decimal(n as nat)),
        None => None,
    }
}

/// `true` or `false` for a flag member.
pub open spec fn bool_text(x: JsonV, key: Seq<char>) -> Option<Seq<char>> {
    match member(x, key) {
        Some(JsonV::Bool(b)) => Some(if b {
            "true"@
        } else {
            "false"@
        }),
        _ => None,
    }
}

/// A member that is a number, whole or not.
pub open spec fn number_member(x: JsonV, key: Seq<char>) -> bool {
    member(x, key) matches Some(JsonV::Number(_, _, _))
}

/// The type of a Vultr plan: under `plan_type` or under `type`, not both.
pub open spec fn plan_type_ok(x: JsonV) -> bool {
    (text_member(x, "plan_type"@) is Some && member(x, "type"@) is None) || (member(x, "plan_type"@) is None
        && text_member(x, "type"@) is Some)
}

/// The cells of one item, where it has the fields the list reads.
pub open spec fn item_cells(k: ListKind, x: JsonV) -> Option<Seq<Seq<char>>> {
    match k {
        ListKind::VultrRegions => match (
            text_member(x, "id"@),
            text_member(x, "city"@),
            text_member(x, "country"@),
            text_member(x, "continent"@),
        ) {
            (Some(id), Some(city), Some(country), Some(continent)) => Some(seq![id, city, country, continent]),
            _ => None,
        },
        ListKind::VultrPlans => match (
            text_member(x, "id"@),
            u32_text(x, "monthly_cost"@),
            u32_text(x, "disk"@),
            u32_text(x, "ram"@),
            u32_text(x, "bandwidth"@),
        ) {
            (Some(id), Some(cost), Some(disk), Some(ram), Some(bandwidth)) => if u32_member(x, "vcpu_count"@)
                && plan_type_ok(x) {
                Some(seq![id, "$"@ + cost, disk, ram, bandwidth])
            } else {
                None
            },
            _ => None,
        },
        ListKind::VultrOSs => match (
            u32_text(x, "id"@),
            text_member(x, "name"@),
            text_member(x, "arch"@),
            text_member(x, "family"@),
        ) {
            (Some(id), Some(name), Some(arch), Some(family)) => Some(seq![id, name, arch, family]),
            _ => None,
        },
        ListKind::LinodeRegions => match (text_member(x, "id"@), text_member(x, "country"@)) {
            (Some(id), Some(country)) => Some(seq![id, country]),
            _ => None,
        },
        ListKind::LinodePlans => match (
            text_member(x, "id"@),
            text_member(x, "label"@),
            u32_text(x, "memory"@),
            u32_text(x, "disk"@),
        ) {
            (Some(id), Some(label), Some(memory), Some(disk)) => if text_member(x, "class"@) is Some && u32_member(
                x,
                "transfer"@,
            ) && u32_member(x, "vcpus"@) {
                Some(seq![id, label, memory, disk])
            } else {
                None
            },
            _ => None,
        },
        ListKind::LinodeOSs => match (text_member(x, "id"@), text_member(x, "label"@), text_member(x, "vendor"@)) {
            (Some(id), Some(label), Some(vendor)) => if bool_member(x, "deprecated"@) && u32_member(x, "size"@) {
                Some(seq![id, label, vendor])
            } else {
                None
            },
            _ => None,
        },
        ListKind::BinaryLaneRegions | ListKind::DigitalOceanRegions => match (
            text_member(x, "slug"@),
            text_member(x, "name"@),
            bool_text(x, "available"@),
        ) {
            (Some(slug), Some(name), Some(available)) => Some(seq![slug, name, available]),
            _ => None,
        },
        ListKind::BinaryLaneOSs => match (
            u64_text(x, "id"@),
            text_member(x, "distribution"@),
            text_member(x, "type"@),
            text_member(x, "full_name"@),
            text_member(x, "status"@),
        ) {
            (Some(id), Some(distribution), Some(kind), Some(full_name), Some(status)) => if text_member(x, "name"@) is Some
                && text_member(x, "slug"@) is Some && bool_member(x, "public"@) && u32_member(x, "min_disk_size"@)
                && number_member(x, "size_gigabytes"@) {
                Some(seq![id, distribution, kind, full_name, status])
            } else {
                None
            },
            _ => None,
        },
        ListKind::DigitalOceanOSs => match (
            u64_text(x, "id"@),
            text_member(x, "distribution"@),
            text_member(x, "description"@),
            text_member(x, "status"@),
        ) {
            (Some(id), Some(distribution), Some(description), Some(status)) => if text_member(x, "name"@) is Some
                && text_member(x, "slug"@) is Some && bool_member(x, "public"@) && u32_member(x, "min_disk_size"@)
                && text_member(x, "type"@) is Some && number_member(x, "size_gigabytes"@) {
                Some(seq![id, distribution, description, status])
            } else {
                None
            },
            _ => None,
        },
    }
}

/// The cells of all the items, where every item has the fields.
pub open spec fn item_rows(k: ListKind, items: Seq<JsonV>) -> Option<Seq<Seq<Seq<char>>>>
    decreases items.len(),
{
    if items.len() == 0 {
        Some(seq![])
    } else {
        match (item_rows(k, items.drop_last()), item_cells(k, items.last())) {
            (Some(rows), Some(cells)) => Some(rows.push(cells)),
            _ => None,
        }
    }
}

/// How a row is printed.
pub open spec fn list_layout(k: ListKind) -> Seq<PieceV> {
    match k {
        ListKind::VultrRegions => seq![
            PieceV::Cell(0, Align::Plain),
            PieceV::Text("  "@),
            PieceV::Cell(1, Align::Left),
            PieceV::Text(" "@),
            PieceV::Cell(2, Align::Left),
            PieceV::Text(" "@),
            PieceV::Cell(3, Align::Plain),
        ],
        ListKind::VultrPlans => seq![
            PieceV::Cell(0, Align::Left),
            PieceV::Text(" : "@),
            PieceV::Cell(1, Align::Right),
            PieceV::Text(" "@),
            PieceV::Cell(2, Align::Right),
            PieceV::Text(" GB "@),
            PieceV::Cell(3, Align::Right),
            PieceV::Text(" MB "@),
            PieceV::Cell(4, Align::Plain),
            PieceV::Text(" GB"@),
        ],
        ListKind::VultrOSs => seq![
            PieceV::Cell(0, Align::Plain),
            PieceV::Text("  "@),
            PieceV::Cell(1, Align::Left),
            PieceV::Text(" "@),
            PieceV::Cell(2, Align::Left),
            PieceV::Text(" "@),
            PieceV::Cell(3, Align::Left),
        ],
        ListKind::LinodeRegions => seq![PieceV::Cell(0, Align::Left), PieceV::Text(" "@), PieceV::Cell(1, Align::Left)],
        ListKind::LinodePlans => seq![
            PieceV::Cell(0, Align::Left),
            PieceV::Text(" "@),
            PieceV::Cell(1, Align::Left),
            PieceV::Text(" "@),
            PieceV::Cell(2, Align::Right),
            PieceV::Text(" MB "@),
            PieceV::Cell(3, Align::Right),
            PieceV::Text(" MB"@),
        ],
        ListKind::LinodeOSs => seq![
            PieceV::Cell(0, Align::Left),
            PieceV::Text(" "@),
            PieceV::Cell(1, Align::Left),
            PieceV::Text(" "@),
            PieceV::Cell(2, Align::Plain),
        ],
        ListKind::BinaryLaneOSs => seq![
            PieceV::Cell(0, Align::Left),
            PieceV::Text("  "@),
            PieceV::Cell(1, Align::Left),
            PieceV::Text("  "@),
            PieceV::Cell(2, Align::Left),
            PieceV::Text("  "@),
            PieceV::Cell(3, Align::Left),
            PieceV::Text("  "@),
            PieceV::Cell(4, Align::Plain),
        ],
        ListKind::DigitalOceanOSs => seq![
            PieceV::Cell(0, Align::Left),
            PieceV::Text("  "@),
            PieceV::Cell(1, Align::Left),
            PieceV::Text("  "@),
            PieceV::Cell(2, Align::Left),
            PieceV::Text("  "@),
            PieceV::Cell(3, Align::Plain),
        ],
        _ => seq![
            PieceV::Cell(0, Align::Left),
            PieceV::Text("  "@),
            PieceV::Cell(1, Align::Left),
            PieceV::Text("  "@),
            PieceV::Cell(2, Align::Plain),
        ],
    }
}

/// Vultr and Linode lists stop on an empty list (they need its widest
/// entry); the tables with titles print it.
pub open spec fn needs_items(k: ListKind) -> bool {
    match k {
        ListKind::VultrRegions | ListKind::VultrPlans | ListKind::VultrOSs | ListKind::LinodeRegions
        | ListKind::LinodePlans | ListKind::LinodeOSs => true,
        _ => false,
    }
}

/// The printed lines of a list reply's value: the count heading, the
/// titles where the list has them, and the items; none when the value is
/// not a list of items with the fields read, or an empty list that needs
/// items.
pub open spec fn list_value_lines(k: ListKind, v: JsonV) -> Option<Seq<Seq<char>>> {
    match member(v, list_key(k)) {
        Some(JsonV::Array(a)) => match item_rows(k, a) {
            Some(rows) => if needs_items(k) && rows.len() == 0 {
                None
            } else {
                Some(table_lines(nat_decimal(rows.len()) + list_noun(k), list_layout(k), list_titles(k) + rows))
            },
            None => None,
        },
        _ => None,
    }
}

/// The printed lines of a list reply's text; none when it is not JSON.
pub open spec fn list_lines_spec(k: ListKind, body: Seq<char>) -> Option<Seq<Seq<char>>> {
    match json_parsed(body) {
        Ok(v) => list_value_lines(k, v),
        Err(_) => None,
    }
}

/// An item without the fields read spoils the whole list.
proof fn lemma_item_rows_none(k: ListKind, s: Seq<JsonV>, n: int)
    requires
        0 <= n <= s.len(),
        item_rows(k, s.take(n)) is None,
    ensures
        item_rows(k, s) is None,
    decreases s.len() - n,
{
    if n == s.len() {
        assert(s.take(n) =~= s);
    } else {
        assert(s.take(n + 1).drop_last() =~= s.take(n));
        lemma_item_rows_none(k, s, n + 1);
    }
}

fn u32_text_exec(x: &JsonValue, key: &str) -> (r: Option<String>)
    ensures
        match r {
            Some(t) => u32_text(x@, key@) == Some(t@),
            None => u32_text(x@, key@) is None,
        },
{
    if u32_member_exec(x, key) {
        match u64_member_exec(x, key) {
            Some(n) => Some(string_of(u64_decimal(n).as_slice())),
            None => None,
        }
    } else {
        None
    }
}

fn u64_text_exec(x: &JsonValue, key: &str) -> (r: Option<String>)
    ensures
        match r {
            Some(t) => u64_text(x@, key@) == Some(t@),
            None => u64_text(x@, key@) is None,
        },
{
    match u64_member_exec(x, key) {
        Some(n) => Some(string_of(u64_decimal(n).as_slice())),
        None => None,
    }
}

fn bool_text_exec(x: &JsonValue, key: &str) -> (r: Option<String>)
    ensures
        match r {
            Some(t) => bool_text(x@, key@) == Some(t@),
            None => bool_text(x@, key@) is None,
        },
{
    match json_get(x, key) {
        Some(JsonValue::Bool(b)) => Some(if *b {
            owned("true")
        } else {
            owned("false")
        }),
        _ => None,
    }
}

fn bool_member_exec(x: &JsonValue, key: &str) -> (r: bool)
    ensures
        r == bool_member(x@, key@),
{
    crate::provision::json::bool_member_exec(x, key)
}

fn number_member_exec(x: &JsonValue, key: &str) -> (r: bool)
    ensures
        r == number_member(x@, key@),
{
    match json_get(x, key) {
        Some(JsonValue::Number(_)) => true,
        _ => false,
    }
}

fn plan_type_ok_exec(x: &JsonValue) -> (r: bool)
    ensures
        r == plan_type_ok(x@),
{
    let a = text_member_exec(x, "plan_type");
    let b = text_member_exec(x, "type");
    (a.is_some() && json_get(x, "type").is_none()) || (json_get(x, "plan_type").is_none() && b.is_some())
}

fn cells3(a: String, b: String, c: String) -> (r: Vec<String>)
    ensures
        strings_view(r@) == seq![a@, b@, c@],
        r@.len() == 3,
{
    let mut v: Vec<String> = Vec::new();
    v.push(a);
    v.push(b);
    v.push(c);
    assert(strings_view(v@) =~= seq![a@, b@, c@]);
    v
}

fn cells4(a: String, b: String, c: String, d: String) -> (r: Vec<String>)
    ensures
        strings_view(r@) == seq![a@, b@, c@, d@],
        r@.len() == 4,
{
    let mut v: Vec<String> = Vec::new();
    v.push(a);
    v.push(b);
    v.push(c);
    v.push(d);
    assert(strings_view(v@) =~= seq![a@, b@, c@, d@]);
    v
}

fn cells5(a: String, b: String, c: String, d: String, e: String) -> (r: Vec<String>)
    ensures
        strings_view(r@) == seq![a@, b@, c@, d@, e@],
        r@.len() == 5,
{
    let mut v: Vec<String> = Vec::new();
    v.push(a);
    v.push(b);
    v.push(c);
    v.push(d);
    v.push(e);
    assert(strings_view(v@) =~= seq![a@, b@, c@, d@, e@]);
    v
}

fn item_cells_exec(k: ListKind, x: &JsonValue) -> (r: Option<Vec<String>>)
    ensures
        match r {
            Some(c) => item_cells(k, x@) == Some(strings_view(c@)) && c@.len() == list_columns(k),
            None => item_cells(k, x@) is None,
        },
{
    match k {
        ListKind::VultrRegions => match (
            text_member_exec(x, "id"),
            text_member_exec(x, "city"),
            text_member_exec(x, "country"),
            text_member_exec(x, "continent"),
        ) {
            (Some(id), Some(city), Some(country), Some(continent)) => Some(cells4(id, city, country, continent)),
            _ => None,
        },
        ListKind::VultrPlans => match (
            text_member_exec(x, "id"),
            u32_text_exec(x, "monthly_cost"),
            u32_text_exec(x, "disk"),
            u32_text_exec(x, "ram"),
            u32_text_exec(x, "bandwidth"),
        ) {
            (Some(id), Some(cost), Some(disk), Some(ram), Some(bandwidth)) => {
                if u32_member_exec(x, "vcpu_count") && plan_type_ok_exec(x) {
                    Some(cells5(id, concat2("$", cost.as_str()), disk, ram, bandwidth))
                } else {
                    None
                }
            },
            _ => None,
        },
        ListKind::VultrOSs => match (
            u32_text_exec(x, "id"),
            text_member_exec(x, "name"),
            text_member_exec(x, "arch"),
            text_member_exec(x, "family"),
        ) {
            (Some(id), Some(name), Some(arch), Some(family)) => Some(cells4(id, name, arch, family)),
            _ => None,
        },
        ListKind::LinodeRegions => match (text_member_exec(x, "id"), text_member_exec(x, "country")) {
            (Some(id), Some(country)) => {
                let mut v: Vec<String> = Vec::new();
                v.push(id);
                v.push(country);
                assert(strings_view(v@) =~= seq![v@[0]@, v@[1]@]);
                Some(v)
            },
            _ => None,
        },
        ListKind::LinodePlans => match (
            text_member_exec(x, "id"),
            text_member_exec(x, "label"),
            u32_text_exec(x, "memory"),
            u32_text_exec(x, "disk"),
        ) {
            (Some(id), Some(label), Some(memory), Some(disk)) => {
                if text_member_exec(x, "class").is_some() && u32_member_exec(x, "transfer") && u32_member_exec(x, "vcpus") {
                    Some(cells4(id, label, memory, disk))
                } else {
                    None
                }
            },
            _ => None,
        },
        ListKind::LinodeOSs => match (text_member_exec(x, "id"), text_member_exec(x, "label"), text_member_exec(x, "vendor")) {
            (Some(id), Some(label), Some(vendor)) => {
                if bool_member_exec(x, "deprecated") && u32_member_exec(x, "size") {
                    Some(cells3(id, label, vendor))
                } else {
                    None
                }
            },
            _ => None,
        },
        ListKind::BinaryLaneRegions | ListKind::DigitalOceanRegions => match (
            text_member_exec(x, "slug"),
            text_member_exec(x, "name"),
            bool_text_exec(x, "available"),
        ) {
            (Some(slug), Some(name), Some(available)) => Some(cells3(slug, name, available)),
            _ => None,
        },
        ListKind::BinaryLaneOSs => match (
            u64_text_exec(x, "id"),
            text_member_exec(x, "distribution"),
            text_member_exec(x, "type"),
            text_member_exec(x, "full_name"),
            text_member_exec(x, "status"),
        ) {
            (Some(id), Some(distribution), Some(kind), Some(full_name), Some(status)) => {
                if text_member_exec(x, "name").is_some() && text_member_exec(x, "slug").is_some() && bool_member_exec(
                    x,
                    "public",
                ) && u32_member_exec(x, "min_disk_size") && number_member_exec(x, "size_gigabytes") {
                    Some(cells5(id, distribution, kind, full_name, status))
                } else {
                    None
                }
            },
            _ => None,
        },
        ListKind::DigitalOceanOSs => match (
            u64_text_exec(x, "id"),
            text_member_exec(x, "distribution"),
            text_member_exec(x, "description"),
            text_member_exec(x, "status"),
        ) {
            (Some(id), Some(distribution), Some(description), Some(status)) => {
                if text_member_exec(x, "name").is_some() && text_member_exec(x, "slug").is_some() && bool_member_exec(
                    x,
                    "public",
                ) && u32_member_exec(x, "min_disk_size") && text_member_exec(x, "type").is_some() && number_member_exec(
                    x,
                    "size_gigabytes",
                ) {
                    Some(cells4(id, distribution, description, status))
                } else {
                    None
                }
            },
            _ => None,
        },
    }
}

fn layout_exec(k: ListKind) -> (r: Vec<Piece>)
    ensures
        pieces_view(r@) == list_layout(k),
        forall|p: int| 0 <= p < r@.len() && #[trigger] r@[p] is Cell ==> r@[p]->Cell_0 < list_columns(k),
{
    let mut v: Vec<Piece> = Vec::new();
    match k {
        ListKind::VultrRegions => {
            v.push(Piece::Cell(0, Align::Plain));
            v.push(Piece::Text(owned("  ")));
            v.push(Piece::Cell(1, Align::Left));
            v.push(Piece::Text(owned(" ")));
            v.push(Piece::Cell(2, Align::Left));
            v.push(Piece::Text(owned(" ")));
            v.push(Piece::Cell(3, Align::Plain));
        },
        ListKind::VultrPlans => {
            v.push(Piece::Cell(0, Align::Left));
            v.push(Piece::Text(owned(" : ")));
            v.push(Piece::Cell(1, Align::Right));
            v.push(Piece::Text(owned(" ")));
            v.push(Piece::Cell(2, Align::Right));
            v.push(Piece::Text(owned(" GB ")));
            v.push(Piece::Cell(3, Align::Right));
            v.push(Piece::Text(owned(" MB ")));
            v.push(Piece::Cell(4, Align::Plain));
            v.push(Piece::Text(owned(" GB")));
        },
        ListKind::VultrOSs => {
            v.push(Piece::Cell(0, Align::Plain));
            v.push(Piece::Text(owned("  ")));
            v.push(Piece::Cell(1, Align::Left));
            v.push(Piece::Text(owned(" ")));
            v.push(Piece::Cell(2, Align::Left));
            v.push(Piece::Text(owned(" ")));
            v.push(Piece::Cell(3, Align::Left));
        },
        ListKind::LinodeRegions => {
            v.push(Piece::Cell(0, Align::Left));
            v.push(Piece::Text(owned(" ")));
            v.push(Piece::Cell(1, Align::Left));
        },
        ListKind::LinodePlans => {
            v.push(Piece::Cell(0, Align::Left));
            v.push(Piece::Text(owned(" ")));
            v.push(Piece::Cell(1, Align::Left));
            v.push(Piece::Text(owned(" ")));
            v.push(Piece::Cell(2, Align::Right));
            v.push(Piece::Text(owned(" MB ")));
            v.push(Piece::Cell(3, Align::Right));
            v.push(Piece::Text(owned(" MB")));
        },
        ListKind::LinodeOSs => {
            v.push(Piece::Cell(0, Align::Left));
            v.push(Piece::Text(owned(" ")));
            v.push(Piece::Cell(1, Align::Left));
            v.push(Piece::Text(owned(" ")));
            v.push(Piece::Cell(2, Align::Plain));
        },
        ListKind::BinaryLaneOSs => {
            v.push(Piece::Cell(0, Align::Left));
            v.push(Piece::Text(owned("  ")));
            v.push(Piece::Cell(1, Align::Left));
            v.push(Piece::Text(owned("  ")));
            v.push(Piece::Cell(2, Align::Left));
            v.push(Piece::Text(owned("  ")));
            v.push(Piece::Cell(3, Align::Left));
            v.push(Piece::Text(owned("  ")));
            v.push(Piece::Cell(4, Align::Plain));
        },
        ListKind::DigitalOceanOSs => {
            v.push(Piece::Cell(0, Align::Left));
            v.push(Piece::Text(owned("  ")));
            v.push(Piece::Cell(1, Align::Left));
            v.push(Piece::Text(owned("  ")));
            v.push(Piece::Cell(2, Align::Left));
            v.push(Piece::Text(owned("  ")));
            v.push(Piece::Cell(3, Align::Plain));
        },
        _ => {
            v.push(Piece::Cell(0, Align::Left));
            v.push(Piece::Text(owned("  ")));
            v.push(Piece::Cell(1, Align::Left));
            v.push(Piece::Text(owned("  ")));
            v.push(Piece::Cell(2, Align::Plain));
        },
    }
    assert(pieces_view(v@) =~= list_layout(k));
    v
}

fn titles_exec(k: ListKind) -> (r: Vec<Vec<String>>)
    ensures
        rows_view(r@) == list_titles(k),
        forall|i: int| 0 <= i < r@.len() ==> #[trigger] r@[i]@.len() == list_columns(k),
{
    let mut t: Vec<Vec<String>> = Vec::new();
    match k {
        ListKind::BinaryLaneRegions => {
            t.push(cells3(owned("ID"), owned("Name"), owned("Available")));
        },
        ListKind::DigitalOceanRegions => {
            t.push(cells3(owned("id"), owned("name"), owned("available")));
        },
        ListKind::BinaryLaneOSs => {
            t.push(cells5(owned("ID"), owned("Distribution"), owned("Type"), owned("Name"), owned("Status")));
        },
        _ => {},
    }
    assert(rows_view(t@) =~= list_titles(k));
    t
}

fn needs_items_exec(k: ListKind) -> (r: bool)
    ensures
        r == needs_items(k),
{
    match k {
        ListKind::VultrRegions | ListKind::VultrPlans | ListKind::VultrOSs | ListKind::LinodeRegions
        | ListKind::LinodePlans | ListKind::LinodeOSs => true,
        _ => false,
    }
}

fn list_key_exec(k: ListKind) -> (r: &'static str)
    ensures
        r@ == list_key(k),
{
    match k {
        ListKind::VultrRegions | ListKind::BinaryLaneRegions | ListKind::DigitalOceanRegions => "regions",
        ListKind::VultrPlans => "plans",
        ListKind::VultrOSs => "os",
        ListKind::LinodeRegions | ListKind::LinodePlans | ListKind::LinodeOSs => "data",
        ListKind::BinaryLaneOSs | ListKind::DigitalOceanOSs => "images",
    }
}

fn list_noun_exec(k: ListKind) -> (r: &'static str)
    ensures
        r@ == list_noun(k),
{
    match k {
        ListKind::VultrRegions | ListKind::LinodeRegions | ListKind::BinaryLaneRegions
        | ListKind::DigitalOceanRegions => " regions:",
        ListKind::VultrPlans | ListKind::LinodePlans => " plans:",
        _ => " OS images:",
    }
}

/// Reads a list reply and prints it: the count heading, the titles where
/// the list has them, and a line per item.
pub fn list_lines(k: ListKind, body: &str) -> (r: Option<Vec<String>>)
    ensures
        match list_lines_spec(k, body@) {
            Some(ls) => r matches Some(v) && strings_view(v@) == ls,
            None => r is None,
        },
{
    match parse_json(body) {
        Ok(v) => list_value_lines_exec(k, &v),
        Err(_) => None,
    }
}

/// Prints the value of a list reply, as `list_value_lines` says.
pub fn list_value_lines_exec(k: ListKind, v: &JsonValue) -> (r: Option<Vec<String>>)
    ensures
        match list_value_lines(k, v@) {
            Some(ls) => r matches Some(x) && strings_view(x@) == ls,
            None => r is None,
        },
{
    let got = json_get(v, list_key_exec(k));
    let items = match got {
        Some(JsonValue::Array(a)) => a,
        _ => {
            return None;
        },
    };
    let ghost iv = json_seq_view(items@);
    assert(member(v@, list_key(k)) == Some(JsonV::Array(iv)));
    proof {
        lemma_json_seq_view(items@);
    }
    let mut rows = titles_exec(k);
    let ghost titles = rows_view(rows@);
    let mut i: usize = 0;
    while i < items.len()
        invariant
            i <= items@.len(),
            iv == json_seq_view(items@),
            iv.len() == items@.len(),
            forall|q: int| 0 <= q < items@.len() ==> #[trigger] iv[q] == items@[q]@,
            titles == list_titles(k),
            member(v@, list_key(k)) == Some(JsonV::Array(iv)),
            forall|q: int| 0 <= q < rows@.len() ==> #[trigger] rows@[q]@.len() == list_columns(k),
            item_rows(k, iv.take(i as int)) matches Some(done) && rows_view(rows@) == titles + done,
        decreases items@.len() - i,
    {
        proof {
            assert(iv.take(i + 1).drop_last() =~= iv.take(i as int));
            assert(iv.take(i + 1).last() == items@[i as int]@);
        }
        let ghost before = rows@;
        match item_cells_exec(k, &items[i]) {
            Some(c) => {
                rows.push(c);
                proof {
                    let done = item_rows(k, iv.take(i as int))->Some_0;
                    assert(rows_view(rows@) =~= rows_view(before).push(strings_view(rows@.last()@)));
                    assert(rows_view(rows@) =~= titles + done.push(strings_view(rows@.last()@)));
                }
            },
            None => {
                proof {
                    assert(iv[i as int] == items@[i as int]@);
                    assert(item_cells(k, iv.take(i + 1).last()) is None);
                    assert(item_rows(k, iv.take(i + 1)) is None);
                    lemma_item_rows_none(k, iv, i + 1);
                }
                return None;
            },
        }
        i = i + 1;
    }
    proof {
        assert(iv.take(items@.len() as int) =~= iv);
    }
    let title_rows = titles_exec(k);
    proof {
        let done = item_rows(k, iv)->Some_0;
        assert(rows_view(rows@).len() == rows@.len());
        assert(rows_view(title_rows@).len() == title_rows@.len());
        assert(rows@.len() == titles.len() + done.len());
    }
    let n = rows.len() - title_rows.len();
    if needs_items_exec(k) && n == 0 {
        return None;
    }
    let count = string_of(u64_decimal(n as u64).as_slice());
    let header = concat2(count.as_str(), list_noun_exec(k));
    let layout = layout_exec(k);
    Some(render_table(header, &layout, &rows, list_columns_exec(k)))
}

fn list_columns_exec(k: ListKind) -> (r: usize)
    ensures
        r == list_columns(k),
{
    match k {
        ListKind::VultrRegions | ListKind::VultrOSs => 4,
        ListKind::VultrPlans | ListKind::BinaryLaneOSs => 5,
        ListKind::LinodeRegions => 2,
        ListKind::LinodePlans | ListKind::DigitalOceanOSs => 4,
        _ => 3,
    }
}


/// Every listed row starts with what identifies the item: the `id` member
/// (for Binary Lane and Digital Ocean regions, the `slug`), so that the
/// value a create recipe needs is the first column.
pub proof fn lemma_rows_start_with_the_identifier(k: ListKind, x: JsonV)
    requires
        item_cells(k, x) is Some,
    ensures
        ({
            let c = item_cells(k, x)->Some_0;
            &&& c.len() > 0
            &&& (k == ListKind::VultrRegions || k == ListKind::VultrPlans || k == ListKind::LinodeRegions || k
                == ListKind::LinodePlans || k == ListKind::LinodeOSs) ==> Some(c[0]) == text_member(x, "id"@)
            &&& k == ListKind::VultrOSs ==> Some(c[0]) == u32_text(x, "id"@)
            &&& (k == ListKind::BinaryLaneOSs || k == ListKind::DigitalOceanOSs) ==> Some(c[0]) == u64_text(x, "id"@)
            &&& (k == ListKind::BinaryLaneRegions || k == ListKind::DigitalOceanRegions) ==> Some(c[0]) == text_member(
                x,
                "slug"@,
            )
        }),
{
}

/// A Linode OS image row is the image's id, its label and its vendor, in
/// that order.
pub proof fn lemma_linode_image_row(x: JsonV)
    requires
        item_cells(ListKind::LinodeOSs, x) is Some,
    ensures
        item_cells(ListKind::LinodeOSs, x)->Some_0 == seq![
            text_member(x, "id"@)->Some_0,
            text_member(x, "label"@)->Some_0,
            text_member(x, "vendor"@)->Some_0,
        ],
        text_member(x, "id"@) is Some && text_member(x, "label"@) is Some && text_member(x, "vendor"@) is Some,
{
}

/// The other rows, cell by cell: a Vultr region is its id, city, country
/// and continent; a Vultr image its id, name, arch and family; a Linode
/// region its id and country; a Linode plan its id, label, memory and
/// disk; a Binary Lane or Digital Ocean region its slug, name and
/// availability.
pub proof fn lemma_row_cells(k: ListKind, x: JsonV)
    requires
        item_cells(k, x) is Some,
    ensures
        ({
            let c = item_cells(k, x)->Some_0;
            &&& k == ListKind::VultrRegions ==> c == seq![
                text_member(x, "id"@)->Some_0,
                text_member(x, "city"@)->Some_0,
                text_member(x, "country"@)->Some_0,
                text_member(x, "continent"@)->Some_0,
            ]
            &&& k == ListKind::VultrOSs ==> c == seq![
                u32_text(x, "id"@)->Some_0,
                text_member(x, "name"@)->Some_0,
                text_member(x, "arch"@)->Some_0,
                text_member(x, "family"@)->Some_0,
            ]
            &&& k == ListKind::LinodeRegions ==> c == seq![text_member(x, "id"@)->Some_0, text_member(x, "country"@)->Some_0]
            &&& k == ListKind::LinodePlans ==> c == seq![
                text_member(x, "id"@)->Some_0,
                text_member(x, "label"@)->Some_0,
                u32_text(x, "memory"@)->Some_0,
                u32_text(x, "disk"@)->Some_0,
            ]
            &&& (k == ListKind::BinaryLaneRegions || k == ListKind::DigitalOceanRegions) ==> c == seq![
                text_member(x, "slug"@)->Some_0,
                text_member(x, "name"@)->Some_0,
                bool_text(x, "available"@)->Some_0,
            ]
            &&& k == ListKind::VultrPlans ==> c == seq![
                text_member(x, "id"@)->Some_0,
                "$"@ + u32_text(x, "monthly_cost"@)->Some_0,
                u32_text(x, "disk"@)->Some_0,
                u32_text(x, "ram"@)->Some_0,
                u32_text(x, "bandwidth"@)->Some_0,
            ]
            &&& k == ListKind::BinaryLaneOSs ==> c == seq![
                u64_text(x, "id"@)->Some_0,
                text_member(x, "distribution"@)->Some_0,
                text_member(x, "type"@)->Some_0,
                text_member(x, "full_name"@)->Some_0,
                text_member(x, "status"@)->Some_0,
            ]
            &&& k == ListKind::DigitalOceanOSs ==> c == seq![
                u64_text(x, "id"@)->Some_0,
                text_member(x, "distribution"@)->Some_0,
                text_member(x, "description"@)->Some_0,
                text_member(x, "status"@)->Some_0,
            ]
        }),
{
}


/// Each listing prints a row's cells left to right in their order, the
/// identifier first: the cells a layout names are `0, 1, 2, ...` in turn.
pub proof fn lemma_layout_keeps_cell_order(k: ListKind)
    ensures
        list_layout(k).len() > 0,
        list_layout(k)[0] matches PieceV::Cell(i, _) && i == 0,
        forall|a: int, b: int|
            0 <= a < b < list_layout(k).len() ==> (#[trigger] list_layout(k)[a] matches PieceV::Cell(i, _) ==> (
            #[trigger] list_layout(k)[b] matches PieceV::Cell(j, _) ==> i < j)),
{
}

} // verus!
