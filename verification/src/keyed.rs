//! Lists of named entries that keep one entry per name: the model of the
//! ordered maps the library keeps its named values in.
use vstd::prelude::*;
use crate::text::{chars_of, owned, str_eq};

verus! {

/// Index of the first entry named `key` at or after `i`, or -1.
pub open spec fn entry_index<V>(e: Seq<(String, V)>, key: Seq<char>, i: int) -> int
    decreases e.len() - i,
{
    if i < 0 || i >= e.len() {
        -1
    } else if e[i].0@ == key {
        i
    } else {
        entry_index(e, key, i + 1)
    }
}

/// The value stored under a name.
pub open spec fn entry_lookup<V>(e: Seq<(String, V)>, key: Seq<char>) -> Option<V> {
    let k = entry_index(e, key, 0);
    if k < 0 {
        None
    } else {
        Some(e[k].1)
    }
}

pub proof fn lemma_entry_index<V>(e: Seq<(String, V)>, key: Seq<char>, i: int)
    requires
        0 <= i,
    ensures
        entry_index(e, key, i) == -1 || (i <= entry_index(e, key, i) < e.len() && e[entry_index(e, key, i)].0@ == key),
        entry_index(e, key, i) == -1 ==> forall|j: int| i <= j < e.len() ==> e[j].0@ != key,
        entry_index(e, key, i) >= 0 ==> forall|j: int| i <= j < entry_index(e, key, i) ==> e[j].0@ != key,
    decreases e.len() - i,
{
    if i < e.len() && e[i].0@ != key {
        lemma_entry_index(e, key, i + 1);
    }
}

pub proof fn lemma_entry_index_at<V>(e: Seq<(String, V)>, key: Seq<char>, i: int, k: int)
    requires
        0 <= i <= k < e.len(),
        e[k].0@ == key,
        forall|j: int| i <= j < k ==> e[j].0@ != key,
    ensures
        entry_index(e, key, i) == k,
    decreases k - i,
{
    if i < k {
        lemma_entry_index_at(e, key, i + 1, k);
    }
}

pub proof fn lemma_entry_index_none<V>(e: Seq<(String, V)>, key: Seq<char>, i: int)
    requires
        0 <= i,
        forall|j: int| i <= j < e.len() ==> e[j].0@ != key,
    ensures
        entry_index(e, key, i) == -1,
    decreases e.len() - i,
{
    if i < e.len() {
        lemma_entry_index_none(e, key, i + 1);
    }
}

/// The position of the entry named `key`.
pub fn entry_find<V>(e: &Vec<(String, V)>, key: &str) -> (r: Option<usize>)
    ensures
        match r {
            Some(k) => entry_index(e@, key@, 0) == k && k < e@.len(),
            None => entry_index(e@, key@, 0) == -1,
        },
{
    let mut i: usize = 0;
    while i < e.len()
        invariant
            i <= e@.len(),
            entry_index(e@, key@, 0) == entry_index(e@, key@, i as int),
        decreases e@.len() - i,
    {
        if str_eq(e[i].0.as_str(), key) {
            return Some(i);
        }
        i = i + 1;
    }
    None
}

/// Stores `value` under `key`, replacing what was there.
pub fn entry_insert<V>(e: &mut Vec<(String, V)>, key: &str, value: V)
    ensures
        entry_lookup(final(e)@, key@) == Some(value),
        forall|k: Seq<char>| k != key@ ==> #[trigger] entry_lookup(final(e)@, k) == entry_lookup(old(e)@, k),
{
    let ghost pre = e@;
    match entry_find(e, key) {
        Some(k) => {
            let name = owned(key);
            e.set(k, (name, value));
            proof {
                lemma_entry_index(pre, key@, 0);
                lemma_entry_index_at(e@, key@, 0, k as int);
                assert forall|kk: Seq<char>| kk != key@ implies #[trigger] entry_lookup(e@, kk) == entry_lookup(pre, kk) by {
                    lemma_entry_index(pre, kk, 0);
                    let j = entry_index(pre, kk, 0);
                    if j >= 0 {
                        assert(j != k);
                        lemma_entry_index_at(e@, kk, 0, j);
                    } else {
                        lemma_entry_index_none(e@, kk, 0);
                    }
                }
            }
        },
        None => {
            let name = owned(key);
            e.push((name, value));
            proof {
                lemma_entry_index(pre, key@, 0);
                lemma_entry_index_at(e@, key@, 0, pre.len() as int);
                assert forall|kk: Seq<char>| kk != key@ implies #[trigger] entry_lookup(e@, kk) == entry_lookup(pre, kk) by {
                    lemma_entry_index(pre, kk, 0);
                    let j = entry_index(pre, kk, 0);
                    if j >= 0 {
                        lemma_entry_index_at(e@, kk, 0, j);
                    } else {
                        lemma_entry_index_none(e@, kk, 0);
                    }
                }
            }
        },
    }
}


/// Whether text `a` orders before text `b`, as `str` orders: character by
/// character by code point, a proper prefix first.
pub open spec fn text_less(a: Seq<char>, b: Seq<char>) -> bool
    decreases a.len(),
{
    if b.len() == 0 {
        false
    } else if a.len() == 0 {
        true
    } else if a[0] != b[0] {
        (a[0] as u32) < (b[0] as u32)
    } else {
        text_less(a.drop_first(), b.drop_first())
    }
}

/// Whether `a` orders before `b`.
pub fn text_less_exec(a: &str, b: &str) -> (r: bool)
    ensures
        r == text_less(a@, b@),
{
    let x = chars_of(a);
    let y = chars_of(b);
    let mut i: usize = 0;
    proof {
        assert(a@.skip(0) =~= a@);
        assert(b@.skip(0) =~= b@);
    }
    while i < x.len() && i < y.len()
        invariant
            i <= x.len(),
            i <= y.len(),
            x@ == a@,
            y@ == b@,
            text_less(a@, b@) == text_less(a@.skip(i as int), b@.skip(i as int)),
        decreases x.len() - i,
    {
        if x[i] != y[i] {
            proof {
                assert(a@.skip(i as int)[0] == x@[i as int]);
                assert(b@.skip(i as int)[0] == y@[i as int]);
            }
            return (x[i] as u32) < (y[i] as u32);
        }
        proof {
            assert(a@.skip(i as int).drop_first() =~= a@.skip(i + 1));
            assert(b@.skip(i as int).drop_first() =~= b@.skip(i + 1));
        }
        i = i + 1;
    }
    i < y.len()
}

/// Where an entry named `k` goes among the positions `order` (of entries of
/// `e`, sorted by name): after the last one whose name orders before `k`.
pub open spec fn order_slot<V>(e: Seq<(String, V)>, order: Seq<usize>, k: Seq<char>) -> int
    decreases order.len(),
{
    if order.len() == 0 {
        0
    } else if text_less(e[order.last() as int].0@, k) {
        order.len() as int
    } else {
        order_slot(e, order.drop_last(), k)
    }
}

/// The positions of the first `n` entries, sorted by name: each entry is
/// put in after the entries before it whose names order before its own.
pub open spec fn name_order_upto<V>(e: Seq<(String, V)>, n: int) -> Seq<usize>
    decreases n,
{
    if n <= 0 {
        seq![]
    } else {
        let o = name_order_upto(e, n - 1);
        o.insert(order_slot(e, o, e[n - 1].0@), (n - 1) as usize)
    }
}

/// The entries in the order of their names, the order an ordered map is
/// walked in.
pub open spec fn by_name<V>(e: Seq<(String, V)>) -> Seq<(String, V)> {
    let o = name_order_upto(e, e.len() as int);
    Seq::new(o.len(), |j: int| e[o[j] as int])
}

proof fn lemma_order_slot<V>(e: Seq<(String, V)>, order: Seq<usize>, k: Seq<char>)
    ensures
        0 <= order_slot(e, order, k) <= order.len(),
    decreases order.len(),
{
    if order.len() > 0 && !text_less(e[order.last() as int].0@, k) {
        lemma_order_slot(e, order.drop_last(), k);
    }
}

/// The sorted positions are the positions `0..n`, each once.
pub proof fn lemma_name_order_upto<V>(e: Seq<(String, V)>, n: int)
    requires
        0 <= n <= e.len(),
        e.len() <= usize::MAX,
    ensures
        name_order_upto(e, n).len() == n,
        forall|j: int| 0 <= j < n ==> #[trigger] name_order_upto(e, n)[j] < n,
    decreases n,
{
    if n > 0 {
        let o = name_order_upto(e, n - 1);
        lemma_name_order_upto(e, n - 1);
        let p = order_slot(e, o, e[n - 1].0@);
        lemma_order_slot(e, o, e[n - 1].0@);
        o.insert_ensures(p, (n - 1) as usize);
        assert forall|j: int| 0 <= j < n implies #[trigger] name_order_upto(e, n)[j] < n by {
            if j < p {
            } else if j == p {
            } else {
                assert(o.insert(p, (n - 1) as usize)[(j - 1) + 1] == o[j - 1]);
            }
        }
    }
}

/// The positions of the entries, sorted by name.
pub fn name_order<V>(e: &Vec<(String, V)>) -> (r: Vec<usize>)
    ensures
        r@ == name_order_upto(e@, e@.len() as int),
        r@.len() == e@.len(),
        forall|j: int| 0 <= j < r@.len() ==> #[trigger] r@[j] < e@.len(),
{
    let mut o: Vec<usize> = Vec::new();
    let mut n: usize = 0;
    while n < e.len()
        invariant
            n <= e@.len(),
            o@ == name_order_upto(e@, n as int),
            o@.len() == n,
            forall|j: int| 0 <= j < o@.len() ==> #[trigger] o@[j] < n,
        decreases e@.len() - n,
    {
        let ghost k = e@[n as int].0@;
        let mut j: usize = o.len();
        proof {
            assert(o@.take(j as int) =~= o@);
        }
        while j > 0 && !text_less_exec(e[o[j - 1]].0.as_str(), e[n].0.as_str())
            invariant
                j <= o@.len(),
                n < e@.len(),
                o@.len() == n,
                k == e@[n as int].0@,
                forall|i: int| 0 <= i < o@.len() ==> #[trigger] o@[i] < n,
                order_slot(e@, o@, k) == order_slot(e@, o@.take(j as int), k),
            decreases j,
        {
            proof {
                assert(o@.take(j as int).drop_last() =~= o@.take(j - 1));
            }
            j = j - 1;
        }
        proof {
            if j > 0 {
                assert(o@.take(j as int).last() == o@[j - 1]);
            }
            assert(order_slot(e@, o@, k) == j);
            lemma_name_order_upto(e@, n + 1);
        }
        o.insert(j, n);
        n = n + 1;
    }
    o
}


proof fn lemma_text_less_transitive(a: Seq<char>, b: Seq<char>, c: Seq<char>)
    requires
        text_less(a, b),
        text_less(b, c),
    ensures
        text_less(a, c),
    decreases a.len(),
{
    if a.len() > 0 && a[0] == b[0] && b[0] == c[0] {
        lemma_text_less_transitive(a.drop_first(), b.drop_first(), c.drop_first());
    }
}

/// The names at the positions `o` never step back: no name orders before
/// the name at an earlier position.
pub open spec fn names_in_order<V>(e: Seq<(String, V)>, o: Seq<usize>) -> bool {
    forall|i: int, j: int|
        0 <= i < j < o.len() ==> !text_less(#[trigger] e[o[j] as int].0@, #[trigger] e[o[i] as int].0@)
}

proof fn lemma_order_slot_bounds<V>(e: Seq<(String, V)>, order: Seq<usize>, k: Seq<char>)
    ensures
        forall|j: int|
            order_slot(e, order, k) <= j < order.len() ==> !text_less(#[trigger] e[order[j] as int].0@, k),
        order_slot(e, order, k) > 0 ==> text_less(e[order[order_slot(e, order, k) - 1] as int].0@, k),
    decreases order.len(),
{
    lemma_order_slot(e, order, k);
    if order.len() > 0 && !text_less(e[order.last() as int].0@, k) {
        let d = order.drop_last();
        lemma_order_slot_bounds(e, d, k);
        lemma_order_slot(e, d, k);
        assert forall|j: int| order_slot(e, order, k) <= j < order.len() implies !text_less(
            #[trigger] e[order[j] as int].0@,
            k,
        ) by {
            if j < d.len() {
                assert(order[j] == d[j]);
            }
        }
        if order_slot(e, order, k) > 0 {
            assert(order[order_slot(e, order, k) - 1] == d[order_slot(e, d, k) - 1]);
        }
    }
}

/// Walking the entries by name takes each entry once, and no name orders
/// before the name of an entry walked earlier.
pub proof fn lemma_by_name<V>(e: Seq<(String, V)>)
    requires
        e.len() <= usize::MAX,
    ensures
        by_name(e).len() == e.len(),
        names_in_order(e, name_order_upto(e, e.len() as int)),
        forall|i: int, j: int|
            0 <= i < j < e.len() ==> #[trigger] name_order_upto(e, e.len() as int)[i] != #[trigger] name_order_upto(
                e,
                e.len() as int,
            )[j],
        forall|j: int|
            0 <= j < e.len() ==> by_name(e)[j] == e[name_order_upto(e, e.len() as int)[j] as int],
        forall|i: int, j: int| 0 <= i < j < e.len() ==> !text_less(#[trigger] by_name(e)[j].0@, #[trigger] by_name(e)[i].0@),
{
    lemma_name_order_sorted(e, e.len() as int);
    lemma_name_order_upto(e, e.len() as int);
    let o = name_order_upto(e, e.len() as int);
    assert forall|i: int, j: int| 0 <= i < j < e.len() implies !text_less(
        #[trigger] by_name(e)[j].0@,
        #[trigger] by_name(e)[i].0@,
    ) by {
        assert(by_name(e)[j] == e[o[j] as int]);
        assert(by_name(e)[i] == e[o[i] as int]);
    }
}

proof fn lemma_name_order_sorted<V>(e: Seq<(String, V)>, n: int)
    requires
        0 <= n <= e.len(),
        e.len() <= usize::MAX,
    ensures
        names_in_order(e, name_order_upto(e, n)),
        forall|i: int, j: int|
            0 <= i < j < n ==> #[trigger] name_order_upto(e, n)[i] != #[trigger] name_order_upto(e, n)[j],
    decreases n,
{
    lemma_name_order_upto(e, n);
    if n > 0 {
        let o = name_order_upto(e, n - 1);
        let k = e[n - 1].0@;
        lemma_name_order_sorted(e, n - 1);
        lemma_name_order_upto(e, n - 1);
        let p = order_slot(e, o, k);
        lemma_order_slot(e, o, k);
        lemma_order_slot_bounds(e, o, k);
        let x = (n - 1) as usize;
        let r = o.insert(p, x);
        o.insert_ensures(p, x);
        assert(name_order_upto(e, n) == r);
        // where each position of `r` comes from in `o`
        assert forall|i: int| 0 <= i < n && i != p implies #[trigger] r[i] == o[if i < p { i } else { i - 1 }] by {
            if i > p {
                assert(r[(i - 1) + 1] == o[i - 1]);
            }
        }
        assert forall|i: int, j: int| 0 <= i < j < r.len() implies !text_less(
            #[trigger] e[r[j] as int].0@,
            #[trigger] e[r[i] as int].0@,
        ) by {
            let oi = if i < p { i } else { i - 1 };
            let oj = if j < p { j } else { j - 1 };
            if i == p {
                assert(r[j] == o[oj]);
                assert(!text_less(e[o[oj] as int].0@, k));
            } else if j == p {
                assert(r[i] == o[oi]);
                if text_less(k, e[o[oi] as int].0@) {
                    if oi < p - 1 {
                        assert(!text_less(e[o[p - 1] as int].0@, e[o[oi] as int].0@));
                        lemma_text_less_transitive(e[o[p - 1] as int].0@, k, e[o[oi] as int].0@);
                    } else {
                        lemma_text_less_transitive(e[o[p - 1] as int].0@, k, e[o[p - 1] as int].0@);
                        lemma_text_less_irreflexive(e[o[p - 1] as int].0@);
                    }
                }
            } else {
                assert(r[i] == o[oi]);
                assert(r[j] == o[oj]);
                assert(oi < oj);
            }
        }
        assert forall|i: int, j: int| 0 <= i < j < n implies #[trigger] r[i] != #[trigger] r[j] by {
            let oi = if i < p { i } else { i - 1 };
            let oj = if j < p { j } else { j - 1 };
            if i == p {
                assert(r[j] == o[oj]);
            } else if j == p {
                assert(r[i] == o[oi]);
            } else {
                assert(r[i] == o[oi]);
                assert(r[j] == o[oj]);
            }
        }
    }
}

proof fn lemma_text_less_irreflexive(a: Seq<char>)
    ensures
        !text_less(a, a),
    decreases a.len(),
{
    if a.len() > 0 {
        lemma_text_less_irreflexive(a.drop_first());
    }
}

} // verus!
