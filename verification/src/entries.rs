//! Lists of `(name, value)` entries with distinct names, viewed as maps, and kept in name order.
use vstd::prelude::*;

use crate::text::{chars_of, eq};

verus! {

/// Whether no name occurs twice.
pub open spec fn distinct_names<X>(t: Seq<(Seq<char>, X)>) -> bool {
    forall|i: int, j: int| 0 <= i < j < t.len() ==> t[i].0 != t[j].0
}

/// The map from each name to its value.
pub open spec fn entry_map<X>(t: Seq<(Seq<char>, X)>) -> Map<Seq<char>, X>
    decreases t.len(),
{
    if t.len() == 0 {
        Map::empty()
    } else {
        entry_map(t.drop_last()).insert(t.last().0, t.last().1)
    }
}

/// The names, in order.
pub open spec fn names<X>(t: Seq<(Seq<char>, X)>) -> Seq<Seq<char>> {
    t.map_values(|e: (Seq<char>, X)| e.0)
}

/// A name is in the map exactly when some entry carries it.
pub proof fn lemma_entry_map_dom<X>(t: Seq<(Seq<char>, X)>, k: Seq<char>)
    ensures
        entry_map(t).dom().contains(k) <==> exists|i: int| 0 <= i < t.len() && t[i].0 == k,
        entry_map(t).dom().finite(),
    decreases t.len(),
{
    if t.len() > 0 {
        lemma_entry_map_dom(t.drop_last(), k);
        if entry_map(t).dom().contains(k) && k != t.last().0 {
            let i = choose|i: int| 0 <= i < t.drop_last().len() && t.drop_last()[i].0 == k;
            assert(t[i].0 == k);
        }
        if exists|i: int| 0 <= i < t.len() && t[i].0 == k {
            let i = choose|i: int| 0 <= i < t.len() && t[i].0 == k;
            if i < t.len() - 1 {
                assert(t.drop_last()[i].0 == k);
            }
        }
    }
}

/// With distinct names, each entry's value is the map's value at its name.
pub proof fn lemma_entry_map_at<X>(t: Seq<(Seq<char>, X)>, i: int)
    requires
        distinct_names(t),
        0 <= i < t.len(),
    ensures
        entry_map(t).dom().contains(t[i].0),
        entry_map(t)[t[i].0] == t[i].1,
    decreases t.len(),
{
    if i < t.len() - 1 {
        assert(t.drop_last()[i] == t[i]);
        lemma_entry_map_at(t.drop_last(), i);
    }
}

/// Replacing the value of an entry updates the map at its name.
pub proof fn lemma_entry_map_update<X>(t: Seq<(Seq<char>, X)>, i: int, x: X)
    requires
        distinct_names(t),
        0 <= i < t.len(),
    ensures
        entry_map(t.update(i, (t[i].0, x))) == entry_map(t).insert(t[i].0, x),
        distinct_names(t.update(i, (t[i].0, x))),
    decreases t.len(),
{
    let u = t.update(i, (t[i].0, x));
    let k = t[i].0;
    if i == t.len() - 1 {
        assert(u.drop_last() =~= t.drop_last());
        assert(entry_map(u) =~= entry_map(t).insert(k, x));
    } else {
        assert(u.drop_last() =~= t.drop_last().update(i, (k, x)));
        lemma_entry_map_update(t.drop_last(), i, x);
        assert(t.last().0 != k);
        assert(entry_map(u) =~= entry_map(t).insert(k, x));
    }
}

/// Appending an entry with a new name adds it to the map.
pub proof fn lemma_entry_map_push<X>(t: Seq<(Seq<char>, X)>, k: Seq<char>, x: X)
    requires
        distinct_names(t),
        !entry_map(t).dom().contains(k),
    ensures
        entry_map(t.push((k, x))) == entry_map(t).insert(k, x),
        distinct_names(t.push((k, x))),
{
    assert(t.push((k, x)).drop_last() =~= t);
    assert forall|i: int| 0 <= i < t.len() implies t[i].0 != k by {
        lemma_entry_map_dom(t, k);
    }
}

/// Removing an entry removes its name from the map.
pub proof fn lemma_entry_map_remove<X>(t: Seq<(Seq<char>, X)>, i: int)
    requires
        distinct_names(t),
        0 <= i < t.len(),
    ensures
        entry_map(t.remove(i)) == entry_map(t).remove(t[i].0),
        distinct_names(t.remove(i)),
    decreases t.len(),
{
    let k = t[i].0;
    if i == t.len() - 1 {
        assert(t.remove(i) =~= t.drop_last());
        lemma_entry_map_dom(t.drop_last(), k);
        assert(!entry_map(t.drop_last()).dom().contains(k));
        assert(entry_map(t.remove(i)) =~= entry_map(t).remove(k));
    } else {
        assert(t.remove(i).drop_last() =~= t.drop_last().remove(i));
        assert(t.remove(i).last() == t.last());
        lemma_entry_map_remove(t.drop_last(), i);
        assert(t.last().0 != k);
        assert(entry_map(t.remove(i)) =~= entry_map(t).remove(k));
    }
}

/// Inserting an entry with a new name anywhere adds it to the map.
pub proof fn lemma_entry_map_insert<X>(t: Seq<(Seq<char>, X)>, pos: int, k: Seq<char>, x: X)
    requires
        distinct_names(t),
        0 <= pos <= t.len(),
        !entry_map(t).dom().contains(k),
    ensures
        entry_map(t.insert(pos, (k, x))) == entry_map(t).insert(k, x),
        distinct_names(t.insert(pos, (k, x))),
    decreases t.len(),
{
    let u = t.insert(pos, (k, x));
    assert forall|j: int| 0 <= j < t.len() implies t[j].0 != k by {
        lemma_entry_map_dom(t, k);
    }
    if pos == t.len() {
        assert(u =~= t.push((k, x)));
        lemma_entry_map_push(t, k, x);
    } else {
        assert(u.drop_last() =~= t.drop_last().insert(pos, (k, x)));
        assert(u.last() == t.last());
        lemma_entry_map_dom(t.drop_last(), k);
        if entry_map(t.drop_last()).dom().contains(k) {
            let j = choose|j: int| 0 <= j < t.drop_last().len() && t.drop_last()[j].0 == k;
            assert(t[j].0 == k);
        }
        lemma_entry_map_insert(t.drop_last(), pos, k, x);
        assert(entry_map(u) =~= entry_map(t).insert(k, x));
        assert forall|a: int, b: int| 0 <= a < b < u.len() implies u[a].0 != u[b].0 by {
            if b == u.len() - 1 {
                assert(u[b] == t.last());
                if a < pos {
                    assert(u[a] == t[a]);
                } else if a > pos {
                    assert(u[a] == t[a - 1]);
                }
            } else {
                assert(u[a] == u.drop_last()[a]);
                assert(u[b] == u.drop_last()[b]);
            }
        }
    }
}

/// The map with the same names as `m`, each value computed by `f` from the name and the value.
pub open spec fn mapped<X, Y>(m: Map<Seq<char>, X>, f: spec_fn(Seq<char>, X) -> Y) -> Map<Seq<char>, Y> {
    Map::new(|k: Seq<char>| m.dom().contains(k), |k: Seq<char>| f(k, m[k]))
}

/// One step of building, entry by entry, a list that maps the first `i` entries of `t` by `f`:
/// inserting the next entry anywhere extends the map by that entry.
pub proof fn lemma_mapped_step<X, Y>(
    t: Seq<(Seq<char>, X)>,
    i: int,
    o: Seq<(Seq<char>, Y)>,
    pos: int,
    f: spec_fn(Seq<char>, X) -> Y,
)
    requires
        distinct_names(t),
        0 <= i < t.len(),
        distinct_names(o),
        entry_map(o) == mapped(entry_map(t.take(i)), f),
        0 <= pos <= o.len(),
    ensures
        forall|j: int| 0 <= j < o.len() ==> o[j].0 != t[i].0,
        distinct_names(o.insert(pos, (t[i].0, f(t[i].0, t[i].1)))),
        entry_map(o.insert(pos, (t[i].0, f(t[i].0, t[i].1)))) == mapped(entry_map(t.take(i + 1)), f),
{
    let k = t[i].0;
    let y = f(k, t[i].1);
    lemma_entry_map_dom(t.take(i), k);
    if entry_map(t.take(i)).dom().contains(k) {
        let j = choose|j: int| 0 <= j < t.take(i).len() && t.take(i)[j].0 == k;
        assert(t[j].0 == k);
    }
    assert(!entry_map(o).dom().contains(k));
    assert forall|j: int| 0 <= j < o.len() implies o[j].0 != k by {
        lemma_entry_map_dom(o, k);
    }
    lemma_entry_map_insert(o, pos, k, y);
    assert(t.take(i + 1).drop_last() =~= t.take(i));
    assert(t.take(i + 1).last() == t[i]);
    assert(mapped(entry_map(t.take(i + 1)), f) =~= mapped(entry_map(t.take(i)), f).insert(k, y));
}

/// Names in strictly increasing order are distinct.
pub proof fn lemma_sorted_distinct<X>(t: Seq<(Seq<char>, X)>)
    requires
        names_sorted(t),
    ensures
        distinct_names(t),
{
    assert forall|a: int, b: int| 0 <= a < b < t.len() implies t[a].0 != t[b].0 by {
        lemma_name_lt_irreflexive(t[a].0);
    }
}

/// Finds the entry named `name`.
pub fn find_entry<V>(entries: &Vec<(String, V)>, name: &str) -> (r: Option<usize>)
    ensures
        match r {
            Some(i) => i < entries@.len() && entries@[i as int].0@ == name@,
            None => forall|i: int| 0 <= i < entries@.len() ==> entries@[i].0@ != name@,
        },
{
    let n = chars_of(name);
    let mut i: usize = 0;
    while i < entries.len()
        invariant
            i <= entries@.len(),
            n@ == name@,
            forall|j: int| 0 <= j < i ==> entries@[j].0@ != name@,
        decreases entries@.len() - i,
    {
        if eq(&chars_of(entries[i].0.as_str()), &n) {
            return Some(i);
        }
        i = i + 1;
    }
    None
}

// ---------------------------------------------------------------------------
// Name order
// ---------------------------------------------------------------------------

/// Code-point lexicographic order, the order of `String`s (whose UTF-8 bytes order the same way).
pub open spec fn name_lt(a: Seq<char>, b: Seq<char>) -> bool
    decreases a.len(),
{
    if a.len() == 0 {
        b.len() > 0
    } else if b.len() == 0 {
        false
    } else if a[0] != b[0] {
        a[0] < b[0]
    } else {
        name_lt(a.drop_first(), b.drop_first())
    }
}

/// Whether the names strictly increase.
pub open spec fn names_sorted<X>(t: Seq<(Seq<char>, X)>) -> bool {
    forall|i: int, j: int| 0 <= i < j < t.len() ==> name_lt(t[i].0, t[j].0)
}

/// No name precedes itself.
pub proof fn lemma_name_lt_irreflexive(a: Seq<char>)
    ensures
        !name_lt(a, a),
    decreases a.len(),
{
    if a.len() > 0 {
        lemma_name_lt_irreflexive(a.drop_first());
    }
}

/// The order is transitive.
pub proof fn lemma_name_lt_transitive(a: Seq<char>, b: Seq<char>, c: Seq<char>)
    requires
        name_lt(a, b),
        name_lt(b, c),
    ensures
        name_lt(a, c),
    decreases a.len(),
{
    if a.len() > 0 && b.len() > 0 && c.len() > 0 && a[0] == b[0] && b[0] == c[0] {
        lemma_name_lt_transitive(a.drop_first(), b.drop_first(), c.drop_first());
    }
}

/// Of two different names, one precedes the other.
pub proof fn lemma_name_lt_total(a: Seq<char>, b: Seq<char>)
    requires
        a != b,
    ensures
        name_lt(a, b) || name_lt(b, a),
    decreases a.len(),
{
    if a.len() > 0 && b.len() > 0 && a[0] == b[0] {
        if a.drop_first() == b.drop_first() {
            assert(a =~= seq![a[0]] + a.drop_first());
            assert(b =~= seq![b[0]] + b.drop_first());
        }
        lemma_name_lt_total(a.drop_first(), b.drop_first());
    } else if a.len() > 0 && b.len() > 0 {
    } else if a.len() == 0 && b.len() == 0 {
        assert(a =~= b);
    }
}

/// Whether `a` precedes `b` in name order.
pub fn name_less(a: &[char], b: &[char]) -> (r: bool)
    ensures
        r == name_lt(a@, b@),
{
    let mut i: usize = 0;
    assert(a@.skip(0) =~= a@);
    assert(b@.skip(0) =~= b@);
    while i < a.len() && i < b.len()
        invariant
            i <= a@.len(),
            i <= b@.len(),
            name_lt(a@.skip(i as int), b@.skip(i as int)) == name_lt(a@, b@),
        decreases a@.len() - i,
    {
        let x = a[i];
        let y = b[i];
        let ghost sa = a@.skip(i as int);
        let ghost sb = b@.skip(i as int);
        assert(sa[0] == x && sb[0] == y);
        if x != y {
            return x < y;
        }
        assert(sa.drop_first() =~= a@.skip(i + 1));
        assert(sb.drop_first() =~= b@.skip(i + 1));
        i = i + 1;
    }
    let ghost sa = a@.skip(i as int);
    let ghost sb = b@.skip(i as int);
    assert(sa.len() == 0 || sb.len() == 0);
    i == a.len() && i < b.len()
}

/// The entries of a list with their names as character sequences.
pub open spec fn keyed<V>(s: Seq<(String, V)>) -> Seq<(Seq<char>, V)> {
    s.map_values(|e: (String, V)| (e.0@, e.1))
}

/// Two lists with the same names at the same places are sorted alike.
pub proof fn lemma_same_names<X, Y>(a: Seq<(Seq<char>, X)>, b: Seq<(Seq<char>, Y)>)
    requires
        a.len() == b.len(),
        forall|i: int| 0 <= i < a.len() ==> #[trigger] a[i].0 == b[i].0,
    ensures
        names_sorted(a) == names_sorted(b),
{
    if names_sorted(a) {
        assert forall|i: int, j: int| 0 <= i < j < b.len() implies name_lt(b[i].0, b[j].0) by {
            assert(a[i].0 == b[i].0 && a[j].0 == b[j].0);
        }
    }
    if names_sorted(b) {
        assert forall|i: int, j: int| 0 <= i < j < a.len() implies name_lt(a[i].0, a[j].0) by {
            assert(a[i].0 == b[i].0 && a[j].0 == b[j].0);
        }
    }
}

/// Inserts an entry with a new name into a list kept in name order.
pub fn insert_in_order<V>(t: &mut Vec<(String, V)>, name: String, value: V)
    requires
        names_sorted(keyed(old(t)@)),
        forall|i: int| 0 <= i < old(t)@.len() ==> old(t)@[i].0@ != name@,
    ensures
        exists|pos: int|
            0 <= pos <= old(t)@.len() && final(t)@ == old(t)@.insert(pos, (name, value)),
        names_sorted(keyed(final(t)@)),
{
    let ghost v = keyed(t@);
    let nv = chars_of(name.as_str());
    let mut pos: usize = 0;
    let mut found = false;
    while pos < t.len() && !found
        invariant
            pos <= t@.len(),
            nv@ == name@,
            v == keyed(t@),
            forall|j: int| 0 <= j < pos ==> name_lt(v[j].0, name@),
            forall|i: int| 0 <= i < t@.len() ==> t@[i].0@ != name@,
            found ==> pos < t@.len() && name_lt(name@, v[pos as int].0),
        decreases (t@.len() - pos) * 2 + (if found { 0int } else { 1int }),
    {
        assert(v[pos as int].0 == t@[pos as int].0@);
        if name_less(&nv, &chars_of(t[pos].0.as_str())) {
            found = true;
        } else {
            proof {
                lemma_name_lt_total(v[pos as int].0, name@);
            }
            pos = pos + 1;
        }
    }
    t.insert(pos, (name, value));
    proof {
        let w = keyed(t@);
        assert(w[pos as int].0 == name@);
        assert forall|a: int, b: int| 0 <= a < b < w.len() implies name_lt(w[a].0, w[b].0) by {
            if b < pos {
                assert(w[a] == v[a] && w[b] == v[b]);
            } else if b == pos {
                assert(w[a] == v[a]);
            } else {
                assert(w[b] == v[b - 1]);
                assert(found);
                if b - 1 > pos {
                    lemma_name_lt_transitive(name@, v[pos as int].0, v[b - 1].0);
                }
                if a == pos {
                } else if a < pos {
                    assert(w[a] == v[a]);
                    lemma_name_lt_transitive(v[a].0, name@, v[b - 1].0);
                } else {
                    assert(w[a] == v[a - 1]);
                }
            }
        }
    }
}

} // verus!
