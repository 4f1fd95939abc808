//! Insertion-ordered tables of shapes and highlighted points.
//!
//! Both tables are `indexmap::IndexMap`s. Their contents are modelled as a
//! sequence of key/value entries in insertion order. The map's hasher only
//! serves lookups; the order of the entries depends on the calls alone.
//! The key/value types differ between the two tables, so each table has its
//! own name for its contents and its own wrapper for each method.
use vstd::prelude::*;

use indexmap::IndexMap;

use crate::shape::ShapeInfo;

verus! {

/// The type `indexmap::IndexMap`, an insertion-ordered hash map; opaque to the
/// verifier, its contents are reached through the names below.
#[verifier::external_type_specification]
#[verifier::external_body]
#[verifier::reject_recursive_types(K)]
#[verifier::reject_recursive_types(V)]
#[verifier::reject_recursive_types(S)]
pub struct ExIndexMap<K, V, S>(IndexMap<K, V, S>);

/// Whether some entry of `s` has key `k`.
pub open spec fn has_key<K, V>(s: Seq<(K, V)>, k: K) -> bool {
    exists|i: int| 0 <= i < s.len() && #[trigger] s[i].0 == k
}

/// The position of the entry with key `k` (meaningful when there is one).
pub open spec fn key_pos<K, V>(s: Seq<(K, V)>, k: K) -> int {
    choose|i: int| 0 <= i < s.len() && #[trigger] s[i].0 == k
}

/// No two entries of `s` have the same key.
pub open spec fn unique_keys<K, V>(s: Seq<(K, V)>) -> bool {
    forall|i: int, j: int| 0 <= i < s.len() && 0 <= j < s.len() && #[trigger] s[i].0 == #[trigger] s[j].0 ==> i == j
}

/// The entries after inserting `(k, v)`: an existing key keeps its place and
/// takes the new value, a new key goes last.
pub open spec fn inserted<K, V>(s: Seq<(K, V)>, k: K, v: V) -> Seq<(K, V)> {
    if has_key(s, k) {
        s.update(key_pos(s, k), (k, v))
    } else {
        s.push((k, v))
    }
}

/// The entries after removing key `k`, the later entries keeping their order.
pub open spec fn removed<K, V>(s: Seq<(K, V)>, k: K) -> Seq<(K, V)> {
    if has_key(s, k) {
        s.remove(key_pos(s, k))
    } else {
        s
    }
}

/// The value stored under `k`, if any.
pub open spec fn value_of<K, V>(s: Seq<(K, V)>, k: K) -> Option<V> {
    if has_key(s, k) {
        Some(s[key_pos(s, k)].1)
    } else {
        None
    }
}

/// The entries, in insertion order, of an `IndexMap` of shapes (raw id to
/// shape description).
pub uninterp spec fn shape_entries(m: IndexMap<u64, ShapeInfo>) -> Seq<(u64, ShapeInfo)>;

/// The entries, in insertion order, of an `IndexMap` of highlighted points
/// (series id and point index to whether a tooltip is shown).
pub uninterp spec fn point_entries(m: IndexMap<(u64, usize), bool>) -> Seq<((u64, usize), bool)>;

/// Calls `IndexMap::new`; claims the new map has no entries.
#[verifier::external_body]
pub(crate) fn shapes_new() -> (m: IndexMap<u64, ShapeInfo>)
    ensures
        shape_entries(m) == Seq::<(u64, ShapeInfo)>::empty(),
{
    IndexMap::new()
}

/// Calls `IndexMap::insert`; claims that an existing key keeps its place and
/// takes the new value, the old value being returned, and that a new key is
/// appended last with `None` returned.
#[verifier::external_body]
pub(crate) fn shapes_insert(m: &mut IndexMap<u64, ShapeInfo>, k: u64, v: ShapeInfo) -> (r: Option<ShapeInfo>)
    ensures
        shape_entries(*final(m)) == inserted(shape_entries(*old(m)), k, v),
        r == value_of(shape_entries(*old(m)), k),
{
    m.insert(k, v)
}

/// Calls `IndexMap::shift_remove`; claims the entry of `k` is removed, the
/// later entries shifting down in order, and its value returned (`None`, with
/// the map unchanged, when `k` is absent).
#[verifier::external_body]
pub(crate) fn shapes_shift_remove(m: &mut IndexMap<u64, ShapeInfo>, k: &u64) -> (r: Option<ShapeInfo>)
    ensures
        shape_entries(*final(m)) == removed(shape_entries(*old(m)), *k),
        r == value_of(shape_entries(*old(m)), *k),
{
    m.shift_remove(k)
}

/// Calls `IndexMap::get`; claims it returns the value stored under `k`, or
/// `None` when `k` is absent.
#[verifier::external_body]
pub(crate) fn shapes_get<'a>(m: &'a IndexMap<u64, ShapeInfo>, k: &u64) -> (r: Option<&'a ShapeInfo>)
    ensures
        match r {
            Some(v) => value_of(shape_entries(*m), *k) == Some(*v),
            None => !has_key(shape_entries(*m), *k),
        },
{
    m.get(k)
}

/// Calls `IndexMap::contains_key`; claims it tells whether `k` is present.
#[verifier::external_body]
pub(crate) fn shapes_contains_key(m: &IndexMap<u64, ShapeInfo>, k: &u64) -> (r: bool)
    ensures
        r == has_key(shape_entries(*m), *k),
{
    m.contains_key(k)
}

/// Calls `IndexMap::len`; claims it returns the number of entries.
#[verifier::external_body]
pub(crate) fn shapes_len(m: &IndexMap<u64, ShapeInfo>) -> (r: usize)
    ensures
        r == shape_entries(*m).len(),
{
    m.len()
}

/// Calls `IndexMap::get_index`; claims it returns the entry at position `i`
/// (key copied out), or `None` past the end.
#[verifier::external_body]
pub(crate) fn shapes_get_index<'a>(m: &'a IndexMap<u64, ShapeInfo>, i: usize) -> (r: Option<(u64, &'a ShapeInfo)>)
    ensures
        match r {
            Some((k, v)) => i < shape_entries(*m).len() && shape_entries(*m)[i as int] == (k, *v),
            None => i >= shape_entries(*m).len(),
        },
{
    m.get_index(i).map(|(k, v)| (*k, v))
}

/// Calls `IndexMap::new`; claims the new map has no entries.
#[verifier::external_body]
pub(crate) fn points_new() -> (m: IndexMap<(u64, usize), bool>)
    ensures
        point_entries(m) == Seq::<((u64, usize), bool)>::empty(),
{
    IndexMap::new()
}

/// Calls `IndexMap::insert` on a map of points; claims what [`shapes_insert`]
/// claims.
#[verifier::external_body]
pub(crate) fn points_insert(m: &mut IndexMap<(u64, usize), bool>, k: (u64, usize), v: bool) -> (r: Option<bool>)
    ensures
        point_entries(*final(m)) == inserted(point_entries(*old(m)), k, v),
        r == value_of(point_entries(*old(m)), k),
{
    m.insert(k, v)
}

/// Calls `IndexMap::shift_remove` on a map of points; claims what
/// [`shapes_shift_remove`] claims.
#[verifier::external_body]
pub(crate) fn points_shift_remove(m: &mut IndexMap<(u64, usize), bool>, k: &(u64, usize)) -> (r: Option<bool>)
    ensures
        point_entries(*final(m)) == removed(point_entries(*old(m)), *k),
        r == value_of(point_entries(*old(m)), *k),
{
    m.shift_remove(k)
}

/// Calls `IndexMap::contains_key` on a map of points; claims it tells whether
/// `k` is present.
#[verifier::external_body]
pub(crate) fn points_contains_key(m: &IndexMap<(u64, usize), bool>, k: &(u64, usize)) -> (r: bool)
    ensures
        r == has_key(point_entries(*m), *k),
{
    m.contains_key(k)
}

/// Calls `IndexMap::len` on a map of points; claims it returns the number of
/// entries.
#[verifier::external_body]
pub(crate) fn points_len(m: &IndexMap<(u64, usize), bool>) -> (r: usize)
    ensures
        r == point_entries(*m).len(),
{
    m.len()
}

/// Calls `IndexMap::get_index` on a map of points; claims it returns the entry
/// at position `i` (copied out), or `None` past the end.
#[verifier::external_body]
pub(crate) fn points_get_index(m: &IndexMap<(u64, usize), bool>, i: usize) -> (r: Option<((u64, usize), bool)>)
    ensures
        match r {
            Some(e) => i < point_entries(*m).len() && point_entries(*m)[i as int] == e,
            None => i >= point_entries(*m).len(),
        },
{
    m.get_index(i).map(|(k, v)| (*k, *v))
}

/// Inserting keeps keys unique.
pub proof fn lemma_inserted_unique<K, V>(s: Seq<(K, V)>, k: K, v: V)
    requires
        unique_keys(s),
    ensures
        unique_keys(inserted(s, k, v)),
        has_key(inserted(s, k, v), k),
        value_of(inserted(s, k, v), k) == Some(v),
        forall|k2: K| k2 != k ==> has_key(inserted(s, k, v), k2) == has_key(s, k2),
        forall|k2: K| k2 != k ==> value_of(inserted(s, k, v), k2) == value_of(s, k2),
{
    let t = inserted(s, k, v);
    if has_key(s, k) {
        let p = key_pos(s, k);
        assert(t[p].0 == k);
        assert forall|k2: K| k2 != k implies has_key(t, k2) == has_key(s, k2) by {
            if has_key(s, k2) {
                let q = key_pos(s, k2);
                assert(t[q].0 == k2);
            }
            if has_key(t, k2) {
                let q = key_pos(t, k2);
                assert(s[q].0 == k2);
            }
        }
        assert forall|k2: K| k2 != k implies value_of(t, k2) == value_of(s, k2) by {
            if has_key(s, k2) {
                let q = key_pos(s, k2);
                let q2 = key_pos(t, k2);
                assert(t[q].0 == k2);
                assert(s[q2].0 == k2);
            }
        }
        assert(key_pos(t, k) == p);
    } else {
        let n = s.len() as int;
        assert(t[n].0 == k);
        assert forall|k2: K| k2 != k implies has_key(t, k2) == has_key(s, k2) by {
            if has_key(s, k2) {
                let q = key_pos(s, k2);
                assert(t[q].0 == k2);
            }
            if has_key(t, k2) {
                let q = key_pos(t, k2);
                assert(s[q].0 == k2);
            }
        }
        assert forall|k2: K| k2 != k implies value_of(t, k2) == value_of(s, k2) by {
            if has_key(s, k2) {
                let q = key_pos(s, k2);
                let q2 = key_pos(t, k2);
                assert(t[q].0 == k2);
                assert(q2 < n);
                assert(s[q2].0 == k2);
            }
        }
        assert(key_pos(t, k) == n);
    }
}

/// Removing keeps keys unique and removes exactly the given key.
pub proof fn lemma_removed_unique<K, V>(s: Seq<(K, V)>, k: K)
    requires
        unique_keys(s),
    ensures
        unique_keys(removed(s, k)),
        !has_key(removed(s, k), k),
        forall|k2: K| k2 != k ==> has_key(removed(s, k), k2) == has_key(s, k2),
        forall|k2: K| k2 != k ==> value_of(removed(s, k), k2) == value_of(s, k2),
        removed(s, k).len() == if has_key(s, k) { s.len() - 1 } else { s.len() as int },
{
    let t = removed(s, k);
    if has_key(s, k) {
        let p = key_pos(s, k);
        assert forall|i: int| 0 <= i < t.len() implies #[trigger] t[i] == (if i < p { s[i] } else { s[i + 1] }) by {}
        assert forall|i: int, j: int| 0 <= i < t.len() && 0 <= j < t.len() && #[trigger] t[i].0 == #[trigger] t[j].0 implies i == j by {
            let si = if i < p { i } else { i + 1 };
            let sj = if j < p { j } else { j + 1 };
            assert(s[si].0 == s[sj].0);
        }
        assert forall|k2: K| k2 != k implies has_key(t, k2) == has_key(s, k2) by {
            if has_key(s, k2) {
                let q = key_pos(s, k2);
                assert(q != p);
                let tq = if q < p { q } else { q - 1 };
                assert(t[tq].0 == k2);
            }
            if has_key(t, k2) {
                let q = key_pos(t, k2);
                let sq = if q < p { q } else { q + 1 };
                assert(s[sq].0 == k2);
            }
        }
        assert forall|k2: K| k2 != k implies value_of(t, k2) == value_of(s, k2) by {
            if has_key(s, k2) {
                let q = key_pos(s, k2);
                let tq = if q < p { q } else { q - 1 };
                assert(t[tq].0 == k2);
                let q2 = key_pos(t, k2);
                let sq2 = if q2 < p { q2 } else { q2 + 1 };
                assert(s[sq2].0 == k2);
            }
        }
        if has_key(t, k) {
            let q = key_pos(t, k);
            let sq = if q < p { q } else { q + 1 };
            assert(s[sq].0 == k);
        }
    }
}

} // verus!
