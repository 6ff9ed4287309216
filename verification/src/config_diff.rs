//! What changed between two configurations: a JSON diff by top-level key.
use vstd::prelude::*;
use crate::json::{JsonValue, JsonView, view_items, view_members, lemma_view_items, lemma_view_members, members_get, push_member};
use crate::text::str_eq;

verus! {

broadcast use vstd::string::group_string_axioms;

fn str_same(a: &String, b: &String) -> (r: bool)
    ensures
        r == (a@ == b@),
{
    str_eq(a.as_str(), b.as_str())
}

/// Whether two documents are equal (serde_json's `==` on `Value`): same
/// kind, same numbers, same texts, same elements and members in order.
pub fn json_equal(a: &JsonValue, b: &JsonValue) -> (r: bool)
    ensures
        r == (a@ == b@),
    decreases a,
{
    match (a, b) {
        (JsonValue::Null, JsonValue::Null) => true,
        (JsonValue::Bool(x), JsonValue::Bool(y)) => *x == *y,
        (JsonValue::Int(x), JsonValue::Int(y)) => *x == *y,
        (JsonValue::Int(x), JsonValue::UInt(y)) => *x >= 0 && (*x as u64) == *y,
        (JsonValue::UInt(x), JsonValue::Int(y)) => *y >= 0 && (*y as u64) == *x,
        (JsonValue::UInt(x), JsonValue::UInt(y)) => *x == *y,
        (JsonValue::Float(x), JsonValue::Float(y)) => str_same(x, y),
        (JsonValue::Str(x), JsonValue::Str(y)) => str_same(x, y),
        (JsonValue::Array(xs), JsonValue::Array(ys)) => {
            proof {
                lemma_view_items(xs@);
                lemma_view_items(ys@);
            }
            if xs.len() != ys.len() {
                return false;
            }
            let mut i: usize = 0;
            while i < xs.len()
                invariant
                    i <= xs.len(),
                    xs.len() == ys.len(),
                    *a == JsonValue::Array(*xs),
                    *b == JsonValue::Array(*ys),
                    view_items(xs@).len() == xs.len(),
                    view_items(ys@).len() == ys.len(),
                    forall|j: int| 0 <= j < xs.len() ==> #[trigger] view_items(xs@)[j] == xs@[j]@,
                    forall|j: int| 0 <= j < ys.len() ==> #[trigger] view_items(ys@)[j] == ys@[j]@,
                    forall|j: int| 0 <= j < i ==> xs@[j]@ == ys@[j]@,
                decreases xs.len() - i,
            {
                assert(decreases_to!(*a => (*a)->Array_0));
                assert(decreases_to!(*xs => xs@));
                assert(decreases_to!(xs@ => xs@[i as int]));
                if !json_equal(&xs[i], &ys[i]) {
                    assert(view_items(xs@)[i as int] != view_items(ys@)[i as int]);
                    return false;
                }
                i = i + 1;
            }
            assert(view_items(xs@) =~= view_items(ys@));
            true
        },
        (JsonValue::Object(xs), JsonValue::Object(ys)) => {
            proof {
                lemma_view_members(xs@);
                lemma_view_members(ys@);
            }
            if xs.len() != ys.len() {
                return false;
            }
            let mut i: usize = 0;
            while i < xs.len()
                invariant
                    i <= xs.len(),
                    xs.len() == ys.len(),
                    *a == JsonValue::Object(*xs),
                    *b == JsonValue::Object(*ys),
                    view_members(xs@).len() == xs.len(),
                    view_members(ys@).len() == ys.len(),
                    forall|j: int| 0 <= j < xs.len() ==> #[trigger] view_members(xs@)[j] == (xs@[j].0@, xs@[j].1@),
                    forall|j: int| 0 <= j < ys.len() ==> #[trigger] view_members(ys@)[j] == (ys@[j].0@, ys@[j].1@),
                    forall|j: int| 0 <= j < i ==> view_members(xs@)[j] == view_members(ys@)[j],
                decreases xs.len() - i,
            {
                assert(decreases_to!(*a => (*a)->Object_0));
                assert(decreases_to!(*xs => xs@));
                assert(decreases_to!(xs@ => xs@[i as int]));
                assert(decreases_to!(xs@[i as int] => xs@[i as int].1));
                if !str_same(&xs[i].0, &ys[i].0) {
                    assert(view_members(xs@)[i as int].0 != view_members(ys@)[i as int].0);
                    return false;
                }
                if !json_equal(&xs[i].1, &ys[i].1) {
                    assert(view_members(xs@)[i as int].1 != view_members(ys@)[i as int].1);
                    return false;
                }
                i = i + 1;
            }
            assert(view_members(xs@) =~= view_members(ys@));
            true
        },
        _ => false,
    }
}

/// A changed value: `{"old": .., "new": ..}`.
pub open spec fn change_entry(old: JsonView, new: JsonView) -> JsonView {
    JsonView::Object(seq![("old"@, old), ("new"@, new)])
}

/// A removed value: `{"old": .., "new": null, "change": "removed"}`.
pub open spec fn removed_entry(old: JsonView) -> JsonView {
    JsonView::Object(seq![("old"@, old), ("new"@, JsonView::Null), ("change"@, JsonView::Str("removed"@))])
}

/// An added value: `{"old": null, "new": .., "change": "added"}`.
pub open spec fn added_entry(new: JsonView) -> JsonView {
    JsonView::Object(seq![("old"@, JsonView::Null), ("new"@, new), ("change"@, JsonView::Str("added"@))])
}

/// The entries for the old keys, in their order: changed or removed ones.
pub open spec fn diff_old_members(om: Seq<(Seq<char>, JsonView)>, nm: Seq<(Seq<char>, JsonView)>) -> Seq<(Seq<char>, JsonView)>
    decreases om.len(),
{
    if om.len() == 0 {
        Seq::empty()
    } else {
        let k = om[0].0;
        let ov = om[0].1;
        let rest = diff_old_members(om.drop_first(), nm);
        match members_get(nm, k) {
            Some(nv) => if ov != nv { seq![(k, change_entry(ov, nv))] + rest } else { rest },
            None => seq![(k, removed_entry(ov))] + rest,
        }
    }
}

/// The entries for the keys that only the new object has, in their order.
pub open spec fn diff_added_members(om: Seq<(Seq<char>, JsonView)>, nm: Seq<(Seq<char>, JsonView)>) -> Seq<(Seq<char>, JsonView)>
    decreases nm.len(),
{
    if nm.len() == 0 {
        Seq::empty()
    } else {
        let rest = diff_added_members(om, nm.drop_first());
        if members_get(om, nm[0].0) is None {
            seq![(nm[0].0, added_entry(nm[0].1))] + rest
        } else {
            rest
        }
    }
}

/// The diff of two configurations: for two objects, one entry per changed,
/// removed or added key; otherwise a change entry when they differ and an
/// empty object when they do not.
pub open spec fn spec_diff_json(old: JsonView, new: JsonView) -> JsonView {
    match (old, new) {
        (JsonView::Object(om), JsonView::Object(nm)) => JsonView::Object(diff_old_members(om, nm) + diff_added_members(om, nm)),
        _ => if old != new { change_entry(old, new) } else { JsonView::Object(Seq::empty()) },
    }
}

fn change_entry_of(old: &JsonValue, new: &JsonValue) -> (r: JsonValue)
    ensures
        r@ == change_entry(old@, new@),
{
    let mut m: Vec<(String, JsonValue)> = Vec::new();
    assert(view_members(m@) =~= Seq::<(Seq<char>, JsonView)>::empty());
    push_member(&mut m, "old", old.deep_clone());
    push_member(&mut m, "new", new.deep_clone());
    let r = JsonValue::Object(m);
    assert(r@->Object_0 =~= change_entry(old@, new@)->Object_0);
    r
}

fn removed_entry_of(old: &JsonValue) -> (r: JsonValue)
    ensures
        r@ == removed_entry(old@),
{
    let mut m: Vec<(String, JsonValue)> = Vec::new();
    assert(view_members(m@) =~= Seq::<(Seq<char>, JsonView)>::empty());
    push_member(&mut m, "old", old.deep_clone());
    push_member(&mut m, "new", JsonValue::Null);
    push_member(&mut m, "change", JsonValue::from_str("removed"));
    let r = JsonValue::Object(m);
    assert(r@->Object_0 =~= removed_entry(old@)->Object_0);
    r
}

fn added_entry_of(new: &JsonValue) -> (r: JsonValue)
    ensures
        r@ == added_entry(new@),
{
    let mut m: Vec<(String, JsonValue)> = Vec::new();
    assert(view_members(m@) =~= Seq::<(Seq<char>, JsonView)>::empty());
    push_member(&mut m, "old", JsonValue::Null);
    push_member(&mut m, "new", new.deep_clone());
    push_member(&mut m, "change", JsonValue::from_str("added"));
    let r = JsonValue::Object(m);
    assert(r@->Object_0 =~= added_entry(new@)->Object_0);
    r
}

/// The keys that changed between two configurations, with their old and new
/// values.
pub fn diff_json(old: &JsonValue, new: &JsonValue) -> (r: JsonValue)
    ensures
        r@ == spec_diff_json(old@, new@),
{
    match (old, new) {
        (JsonValue::Object(om), JsonValue::Object(nm)) => {
            let ghost omv = view_members(om@);
            let ghost nmv = view_members(nm@);
            proof {
                lemma_view_members(om@);
                lemma_view_members(nm@);
            }
            let mut out: Vec<(String, JsonValue)> = Vec::new();
            assert(view_members(out@) =~= Seq::<(Seq<char>, JsonView)>::empty());
            assert(omv.skip(0) =~= omv);
            let mut i: usize = 0;
            while i < om.len()
                invariant
                    i <= om.len(),
                    omv == view_members(om@),
                    nmv == view_members(nm@),
                    *new == JsonValue::Object(*nm),
                    omv.len() == om.len(),
                    forall|j: int| 0 <= j < om.len() ==> #[trigger] omv[j] == (om@[j].0@, om@[j].1@),
                    view_members(out@) + diff_old_members(omv.skip(i as int), nmv) == diff_old_members(omv, nmv),
                decreases om.len() - i,
            {
                let ghost t = omv.skip(i as int);
                proof {
                    assert(t.drop_first() =~= omv.skip(i + 1));
                    assert(t[0] == omv[i as int]);
                }
                let key = &om[i].0;
                let ov = &om[i].1;
                let ghost before = view_members(out@);
                match new.get(key.as_str()) {
                    Some(nv) => {
                        if !json_equal(ov, nv) {
                            let e = change_entry_of(ov, nv);
                            push_member(&mut out, key.as_str(), e);
                            proof {
                                assert(view_members(out@) + diff_old_members(t.drop_first(), nmv)
                                    =~= before + (seq![(key@, change_entry(ov@, nv@))] + diff_old_members(t.drop_first(), nmv)));
                            }
                        }
                    },
                    None => {
                        let e = removed_entry_of(ov);
                        push_member(&mut out, key.as_str(), e);
                        proof {
                            assert(view_members(out@) + diff_old_members(t.drop_first(), nmv)
                                =~= before + (seq![(key@, removed_entry(ov@))] + diff_old_members(t.drop_first(), nmv)));
                        }
                    },
                }
                i = i + 1;
            }
            proof {
                assert(omv.skip(i as int).len() == 0);
                assert(view_members(out@) + Seq::<(Seq<char>, JsonView)>::empty() =~= view_members(out@));
            }
            let ghost first = view_members(out@);
            assert(nmv.skip(0) =~= nmv);
            assert(first + diff_added_members(omv, nmv.skip(0)) =~= first + diff_added_members(omv, nmv));
            let mut k: usize = 0;
            while k < nm.len()
                invariant
                    k <= nm.len(),
                    omv == view_members(om@),
                    nmv == view_members(nm@),
                    *old == JsonValue::Object(*om),
                    nmv.len() == nm.len(),
                    forall|j: int| 0 <= j < nm.len() ==> #[trigger] nmv[j] == (nm@[j].0@, nm@[j].1@),
                    view_members(out@) + diff_added_members(omv, nmv.skip(k as int)) == first + diff_added_members(omv, nmv),
                decreases nm.len() - k,
            {
                let ghost t = nmv.skip(k as int);
                proof {
                    assert(t.drop_first() =~= nmv.skip(k + 1));
                    assert(t[0] == nmv[k as int]);
                }
                let key = &nm[k].0;
                let nv = &nm[k].1;
                let ghost before = view_members(out@);
                if old.get(key.as_str()).is_none() {
                    let e = added_entry_of(nv);
                    push_member(&mut out, key.as_str(), e);
                    proof {
                        assert(view_members(out@) + diff_added_members(omv, t.drop_first())
                            =~= before + (seq![(key@, added_entry(nv@))] + diff_added_members(omv, t.drop_first())));
                    }
                }
                k = k + 1;
            }
            proof {
                assert(nmv.skip(k as int).len() == 0);
                assert(view_members(out@) + Seq::<(Seq<char>, JsonView)>::empty() =~= view_members(out@));
            }
            JsonValue::Object(out)
        },
        _ => {
            if !json_equal(old, new) {
                change_entry_of(old, new)
            } else {
                let empty: Vec<(String, JsonValue)> = Vec::new();
                let r = JsonValue::Object(empty);
                assert(r@->Object_0 =~= Seq::<(Seq<char>, JsonView)>::empty());
                r
            }
        },
    }
}

/// No two members share a key (as in a serde_json map).
pub open spec fn distinct_keys(m: Seq<(Seq<char>, JsonView)>) -> bool {
    forall|i: int, j: int| 0 <= i < j < m.len() ==> m[i].0 != m[j].0
}

proof fn lemma_get_member_at(m: Seq<(Seq<char>, JsonView)>, i: int)
    requires
        distinct_keys(m),
        0 <= i < m.len(),
    ensures
        members_get(m, m[i].0) == Some(m[i].1),
    decreases m.len(),
{
    if i > 0 {
        let t = m.drop_first();
        assert(distinct_keys(t)) by {
            assert forall|a: int, b: int| 0 <= a < b < t.len() implies t[a].0 != t[b].0 by {
                assert(t[a] == m[a + 1] && t[b] == m[b + 1]);
            }
        }
        assert(t[i - 1] == m[i]);
        assert(m[0].0 != m[i].0);
        lemma_get_member_at(t, i - 1);
    }
}

proof fn lemma_diff_old_same(m: Seq<(Seq<char>, JsonView)>, n: int)
    requires
        distinct_keys(m),
        0 <= n <= m.len(),
    ensures
        diff_old_members(m.skip(n), m) == Seq::<(Seq<char>, JsonView)>::empty(),
    decreases m.len() - n,
{
    if n < m.len() {
        let t = m.skip(n);
        assert(t.drop_first() =~= m.skip(n + 1));
        assert(t[0] == m[n]);
        lemma_get_member_at(m, n);
        lemma_diff_old_same(m, n + 1);
    }
}

proof fn lemma_diff_added_same(m: Seq<(Seq<char>, JsonView)>, n: int)
    requires
        distinct_keys(m),
        0 <= n <= m.len(),
    ensures
        diff_added_members(m, m.skip(n)) == Seq::<(Seq<char>, JsonView)>::empty(),
    decreases m.len() - n,
{
    if n < m.len() {
        let t = m.skip(n);
        assert(t.drop_first() =~= m.skip(n + 1));
        assert(t[0] == m[n]);
        lemma_get_member_at(m, n);
        lemma_diff_added_same(m, n + 1);
    }
}

/// Law: a configuration compared with itself has an empty diff (for an
/// object, when no two members share a key, as in any serde_json map).
pub proof fn law_diff_of_same_is_empty(v: JsonView)
    requires
        v matches JsonView::Object(m) ==> distinct_keys(m),
    ensures
        spec_diff_json(v, v) == JsonView::Object(Seq::empty()),
{
    match v {
        JsonView::Object(m) => {
            assert(m.skip(0) =~= m);
            lemma_diff_old_same(m, 0);
            lemma_diff_added_same(m, 0);
            assert(diff_old_members(m, m) + diff_added_members(m, m) =~= Seq::<(Seq<char>, JsonView)>::empty());
        },
        _ => {},
    }
}

/// What a diff holds for a key: the change entry where both objects have it
/// with different values, the removed entry where only the old one has it,
/// the added entry where only the new one has it, and nothing otherwise.
pub open spec fn expected_diff_entry(om: Seq<(Seq<char>, JsonView)>, nm: Seq<(Seq<char>, JsonView)>, k: Seq<char>) -> Option<JsonView> {
    match (members_get(om, k), members_get(nm, k)) {
        (Some(o), Some(n)) => if o != n { Some(change_entry(o, n)) } else { None },
        (Some(o), None) => Some(removed_entry(o)),
        (None, Some(n)) => Some(added_entry(n)),
        (None, None) => None,
    }
}

proof fn lemma_get_concat(a: Seq<(Seq<char>, JsonView)>, b: Seq<(Seq<char>, JsonView)>, k: Seq<char>)
    ensures
        members_get(a + b, k) == (if members_get(a, k) is Some { members_get(a, k) } else { members_get(b, k) }),
    decreases a.len(),
{
    if a.len() > 0 {
        assert((a + b).drop_first() =~= a.drop_first() + b);
        assert((a + b)[0] == a[0]);
        lemma_get_concat(a.drop_first(), b, k);
    } else {
        assert(a + b =~= b);
    }
}

proof fn lemma_get_absent(m: Seq<(Seq<char>, JsonView)>, k: Seq<char>)
    requires
        forall|i: int| 0 <= i < m.len() ==> m[i].0 != k,
    ensures
        members_get(m, k) is None,
    decreases m.len(),
{
    if m.len() > 0 {
        let t = m.drop_first();
        assert forall|i: int| 0 <= i < t.len() implies t[i].0 != k by {
            assert(t[i] == m[i + 1]);
        }
        lemma_get_absent(t, k);
    }
}

proof fn lemma_diff_old_keys(om: Seq<(Seq<char>, JsonView)>, nm: Seq<(Seq<char>, JsonView)>, k: Seq<char>)
    requires
        forall|i: int| 0 <= i < om.len() ==> om[i].0 != k,
    ensures
        members_get(diff_old_members(om, nm), k) is None,
    decreases om.len(),
{
    if om.len() > 0 {
        let t = om.drop_first();
        assert forall|i: int| 0 <= i < t.len() implies t[i].0 != k by {
            assert(t[i] == om[i + 1]);
        }
        lemma_diff_old_keys(t, nm, k);
        let rest = diff_old_members(t, nm);
        let d = diff_old_members(om, nm);
        if d.len() > 0 && d =~= seq![d[0]] + rest {
            assert(d[0].0 == om[0].0);
            assert(d.drop_first() =~= rest);
        } else {
            assert(d =~= rest);
        }
    }
}

proof fn lemma_diff_old_get(om: Seq<(Seq<char>, JsonView)>, nm: Seq<(Seq<char>, JsonView)>, k: Seq<char>)
    requires
        distinct_keys(om),
    ensures
        members_get(diff_old_members(om, nm), k) == (match members_get(om, k) {
            Some(o) => match members_get(nm, k) {
                Some(n) => if o != n { Some(change_entry(o, n)) } else { None },
                None => Some(removed_entry(o)),
            },
            None => None,
        }),
    decreases om.len(),
{
    if om.len() > 0 {
        let t = om.drop_first();
        assert(distinct_keys(t)) by {
            assert forall|a: int, b: int| 0 <= a < b < t.len() implies t[a].0 != t[b].0 by {
                assert(t[a] == om[a + 1] && t[b] == om[b + 1]);
            }
        }
        lemma_diff_old_get(t, nm, k);
        let k0 = om[0].0;
        let rest = diff_old_members(t, nm);
        let d = diff_old_members(om, nm);
        if k == k0 {
            assert forall|i: int| 0 <= i < t.len() implies t[i].0 != k by {
                assert(t[i] == om[i + 1]);
            }
            lemma_diff_old_keys(t, nm, k);
            lemma_get_absent(t, k);
        }
        match members_get(nm, k0) {
            Some(nv) => if om[0].1 != nv {
                assert(d == seq![(k0, change_entry(om[0].1, nv))] + rest);
                assert(d.drop_first() =~= rest);
            } else {
                assert(d == rest);
            },
            None => {
                assert(d == seq![(k0, removed_entry(om[0].1))] + rest);
                assert(d.drop_first() =~= rest);
            },
        }
    }
}

proof fn lemma_diff_added_get(om: Seq<(Seq<char>, JsonView)>, nm: Seq<(Seq<char>, JsonView)>, k: Seq<char>)
    requires
        distinct_keys(nm),
    ensures
        members_get(diff_added_members(om, nm), k) == (if members_get(om, k) is None {
            match members_get(nm, k) {
                Some(n) => Some(added_entry(n)),
                None => None,
            }
        } else {
            None
        }),
    decreases nm.len(),
{
    if nm.len() > 0 {
        let t = nm.drop_first();
        assert(distinct_keys(t)) by {
            assert forall|a: int, b: int| 0 <= a < b < t.len() implies t[a].0 != t[b].0 by {
                assert(t[a] == nm[a + 1] && t[b] == nm[b + 1]);
            }
        }
        lemma_diff_added_get(om, t, k);
        let k0 = nm[0].0;
        let rest = diff_added_members(om, t);
        let d = diff_added_members(om, nm);
        if k == k0 {
            assert forall|i: int| 0 <= i < t.len() implies t[i].0 != k by {
                assert(t[i] == nm[i + 1]);
            }
            lemma_get_absent(t, k);
        }
        if members_get(om, k0) is None {
            assert(d == seq![(k0, added_entry(nm[0].1))] + rest);
            assert(d.drop_first() =~= rest);
        } else {
            assert(d == rest);
        }
    }
}

/// Law: the diff of two objects, neither of which repeats a key, holds for
/// each key exactly the entry that key calls for: a change entry for a key
/// both have with different values, a removed entry for a key only the old
/// one has, an added entry for a key only the new one has, and none for any
/// other key.
pub proof fn law_diff_keys(om: Seq<(Seq<char>, JsonView)>, nm: Seq<(Seq<char>, JsonView)>, k: Seq<char>)
    requires
        distinct_keys(om),
        distinct_keys(nm),
    ensures
        spec_diff_json(JsonView::Object(om), JsonView::Object(nm)).get(k) == expected_diff_entry(om, nm, k),
{
    lemma_get_concat(diff_old_members(om, nm), diff_added_members(om, nm), k);
    lemma_diff_old_get(om, nm, k);
    lemma_diff_added_get(om, nm, k);
}

} // verus!
