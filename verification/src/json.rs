//! A plain-data model of JSON documents, with a mathematical view.
use vstd::prelude::*;

verus! {

/// A JSON document. Integers that fit `i64` are held in `Int`, larger
/// non-negative ones in `UInt`; any other number is held by its decimal text.
/// An object keeps its members in order; a lookup finds the first member with
/// the key.
#[derive(Debug, PartialEq)]
pub enum JsonValue {
    Null,
    Bool(bool),
    Int(i64),
    UInt(u64),
    Float(String),
    Str(String),
    Array(Vec<JsonValue>),
    Object(Vec<(String, JsonValue)>),
}

/// The mathematical view of a JSON document: strings as character sequences.
pub enum JsonView {
    Null,
    Bool(bool),
    Int(int),
    Float(Seq<char>),
    Str(Seq<char>),
    Array(Seq<JsonView>),
    Object(Seq<(Seq<char>, JsonView)>),
}

impl View for JsonValue {
    type V = JsonView;

    open spec fn view(&self) -> JsonView {
        json_view(*self)
    }
}

/// The view of a document.
pub open spec fn json_view(v: JsonValue) -> JsonView
    decreases v,
{
    match v {
        JsonValue::Null => JsonView::Null,
        JsonValue::Bool(b) => JsonView::Bool(b),
        JsonValue::Int(i) => JsonView::Int(i as int),
        JsonValue::UInt(u) => JsonView::Int(u as int),
        JsonValue::Float(s) => JsonView::Float(s@),
        JsonValue::Str(s) => JsonView::Str(s@),
        JsonValue::Array(items) => JsonView::Array(view_items(items@)),
        JsonValue::Object(members) => JsonView::Object(view_members(members@)),
    }
}

/// The views of a sequence of documents, element by element.
pub open spec fn view_items(items: Seq<JsonValue>) -> Seq<JsonView>
    decreases items,
{
    if items.len() == 0 {
        Seq::empty()
    } else {
        seq![json_view(items[0])] + view_items(items.drop_first())
    }
}

/// The views of a sequence of object members, member by member.
pub open spec fn view_members(members: Seq<(String, JsonValue)>) -> Seq<(Seq<char>, JsonView)>
    decreases members,
{
    if members.len() == 0 {
        Seq::empty()
    } else {
        seq![(members[0].0@, json_view(members[0].1))] + view_members(members.drop_first())
    }
}

/// The element views line up with the elements.
pub proof fn lemma_view_items(items: Seq<JsonValue>)
    ensures
        view_items(items).len() == items.len(),
        forall|i: int| 0 <= i < items.len() ==> #[trigger] view_items(items)[i] == items[i]@,
    decreases items.len(),
{
    if items.len() > 0 {
        lemma_view_items(items.drop_first());
        assert forall|i: int| 0 <= i < items.len() implies #[trigger] view_items(items)[i] == items[i]@ by {
            if i > 0 {
                assert(items.drop_first()[i - 1] == items[i]);
            }
        }
    }
}

/// The member views line up with the members.
pub proof fn lemma_view_members(members: Seq<(String, JsonValue)>)
    ensures
        view_members(members).len() == members.len(),
        forall|i: int| 0 <= i < members.len() ==> #[trigger] view_members(members)[i] == (members[i].0@, members[i].1@),
    decreases members.len(),
{
    if members.len() > 0 {
        lemma_view_members(members.drop_first());
        assert forall|i: int| 0 <= i < members.len() implies #[trigger] view_members(members)[i] == (members[i].0@, members[i].1@) by {
            if i > 0 {
                assert(members.drop_first()[i - 1] == members[i]);
            }
        }
    }
}

/// The value of the first member whose key is `key`.
pub open spec fn members_get(members: Seq<(Seq<char>, JsonView)>, key: Seq<char>) -> Option<JsonView>
    decreases members.len(),
{
    if members.len() == 0 {
        None
    } else if members[0].0 == key {
        Some(members[0].1)
    } else {
        members_get(members.drop_first(), key)
    }
}

impl JsonView {
    /// Member lookup; anything but an object has no members.
    pub open spec fn get(self, key: Seq<char>) -> Option<JsonView> {
        match self {
            JsonView::Object(members) => members_get(members, key),
            _ => None,
        }
    }

    pub open spec fn as_str(self) -> Option<Seq<char>> {
        match self {
            JsonView::Str(s) => Some(s),
            _ => None,
        }
    }

    pub open spec fn as_bool(self) -> Option<bool> {
        match self {
            JsonView::Bool(b) => Some(b),
            _ => None,
        }
    }

    /// An integer that fits `i64`; floats and larger integers give `None`.
    pub open spec fn as_i64(self) -> Option<i64> {
        match self {
            JsonView::Int(i) => if i64::MIN <= i <= i64::MAX { Some(i as i64) } else { None },
            _ => None,
        }
    }

    pub open spec fn is_object(self) -> bool {
        self is Object
    }
}

/// Looks up `key` in an optional document.
pub open spec fn opt_get(v: Option<JsonView>, key: Seq<char>) -> Option<JsonView> {
    match v {
        Some(v) => v.get(key),
        None => None,
    }
}

pub open spec fn opt_as_str(v: Option<JsonView>) -> Option<Seq<char>> {
    match v {
        Some(v) => v.as_str(),
        None => None,
    }
}

pub open spec fn opt_as_bool(v: Option<JsonView>) -> Option<bool> {
    match v {
        Some(v) => v.as_bool(),
        None => None,
    }
}

pub open spec fn opt_as_i64(v: Option<JsonView>) -> Option<i64> {
    match v {
        Some(v) => v.as_i64(),
        None => None,
    }
}

/// The view of an optional borrowed document.
pub open spec fn opt_view(v: Option<&JsonValue>) -> Option<JsonView> {
    match v {
        Some(v) => Some(v@),
        None => None,
    }
}

impl JsonValue {
    /// Member lookup by key (serde_json's `Value::get` with a string key).
    pub fn get<'a>(&'a self, key: &str) -> (r: Option<&'a JsonValue>)
        ensures
            opt_view(r) == self@.get(key@),
    {
        match self {
            JsonValue::Object(members) => {
                assert(self@ == JsonView::Object(view_members(members@)));
                let ghost mv = self@->Object_0;
                proof {
                    lemma_view_members(members@);
                    assert(mv.subrange(0, mv.len() as int) =~= mv);
                }
                let k = key.to_string();
                let mut i: usize = 0;
                while i < members.len()
                    invariant
                        0 <= i <= members.len(),
                        self@ == JsonView::Object(mv),
                        mv.len() == members.len(),
                        forall|j: int| 0 <= j < members.len() ==> #[trigger] mv[j] == (members@[j].0@, members@[j].1@),
                        members_get(mv, key@) == members_get(mv.subrange(i as int, mv.len() as int), key@),
                        k@ == key@,
                    decreases members.len() - i,
                {
                    let ghost rest = mv.subrange(i as int, mv.len() as int);
                    assert(rest[0] == mv[i as int]);
                    if members[i].0 == k {
                        return Some(&members[i].1);
                    }
                    assert(rest.drop_first() =~= mv.subrange(i + 1, mv.len() as int));
                    i = i + 1;
                }
                assert(mv.subrange(i as int, mv.len() as int).len() == 0);
                None
            },
            _ => None,
        }
    }

    pub fn as_str(&self) -> (r: Option<&str>)
        ensures
            match r {
                Some(s) => self@.as_str() == Some(s@),
                None => self@.as_str() is None,
            },
    {
        match self {
            JsonValue::Str(s) => Some(s.as_str()),
            _ => None,
        }
    }

    pub fn as_bool(&self) -> (r: Option<bool>)
        ensures
            r == self@.as_bool(),
    {
        match self {
            JsonValue::Bool(b) => Some(*b),
            _ => None,
        }
    }

    pub fn as_i64(&self) -> (r: Option<i64>)
        ensures
            r == self@.as_i64(),
    {
        match self {
            JsonValue::Int(i) => Some(*i),
            JsonValue::UInt(u) => {
                if *u <= i64::MAX as u64 {
                    Some(*u as i64)
                } else {
                    None
                }
            },
            _ => None,
        }
    }
}


impl JsonValue {
    /// A copy of the document (`Clone::clone`).
    pub fn deep_clone(&self) -> (r: JsonValue)
        ensures
            r@ == self@,
        decreases self,
    {
        match self {
            JsonValue::Null => JsonValue::Null,
            JsonValue::Bool(b) => JsonValue::Bool(*b),
            JsonValue::Int(i) => JsonValue::Int(*i),
            JsonValue::UInt(u) => JsonValue::UInt(*u),
            JsonValue::Float(s) => JsonValue::Float(s.clone()),
            JsonValue::Str(s) => JsonValue::Str(s.clone()),
            JsonValue::Array(items) => {
                let mut out: Vec<JsonValue> = Vec::new();
                let mut i: usize = 0;
                proof { lemma_view_items(items@); }
                while i < items.len()
                    invariant
                        i <= items.len(),
                        out.len() == i,
                        *self == JsonValue::Array(*items),
                        forall|j: int| 0 <= j < i ==> #[trigger] out@[j]@ == items@[j]@,
                    decreases items.len() - i,
                {
                    assert(decreases_to!(*self => (*self)->Array_0));
                    assert(decreases_to!(*items => items@));
                    assert(decreases_to!(items@ => items@[i as int]));
                    assert(decreases_to!(self => items@[i as int]));
                    let c = items[i].deep_clone();
                    out.push(c);
                    i = i + 1;
                }
                proof {
                    lemma_view_items(out@);
                    assert(view_items(out@) =~= view_items(items@));
                }
                JsonValue::Array(out)
            },
            JsonValue::Object(members) => {
                let mut out: Vec<(String, JsonValue)> = Vec::new();
                let mut i: usize = 0;
                proof { lemma_view_members(members@); }
                while i < members.len()
                    invariant
                        i <= members.len(),
                        out.len() == i,
                        *self == JsonValue::Object(*members),
                        forall|j: int| 0 <= j < i ==> #[trigger] out@[j].0@ == members@[j].0@ && out@[j].1@ == members@[j].1@,
                    decreases members.len() - i,
                {
                    assert(decreases_to!(*self => (*self)->Object_0));
                    assert(decreases_to!(*members => members@));
                    assert(decreases_to!(members@ => members@[i as int]));
                    assert(decreases_to!(members@[i as int] => members@[i as int].1));
                    assert(decreases_to!(self => members@[i as int].1));
                    let c = members[i].1.deep_clone();
                    let k = members[i].0.clone();
                    out.push((k, c));
                    i = i + 1;
                }
                proof {
                    lemma_view_members(out@);
                    assert(view_members(out@) =~= view_members(members@));
                }
                JsonValue::Object(out)
            },
        }
    }

    /// A string document.
    pub fn from_str(s: &str) -> (r: JsonValue)
        ensures
            r@ == JsonView::Str(s@),
    {
        JsonValue::Str(s.to_string())
    }

    /// A string document, or `null` for `None` (as `json!` writes an `Option<&str>`).
    pub fn from_opt_str(s: Option<&str>) -> (r: JsonValue)
        ensures
            r@ == match s {
                Some(s) => JsonView::Str(s@),
                None => JsonView::Null,
            },
    {
        match s {
            Some(s) => JsonValue::Str(s.to_string()),
            None => JsonValue::Null,
        }
    }

    /// A string document, or `null` for `None`.
    pub fn from_opt_string(s: Option<String>) -> (r: JsonValue)
        ensures
            r@ == match s {
                Some(s) => JsonView::Str(s@),
                None => JsonView::Null,
            },
    {
        match s {
            Some(s) => JsonValue::Str(s),
            None => JsonValue::Null,
        }
    }
}

/// The view of an optional text as a document: a string or `null`.
pub open spec fn opt_text_view(s: Option<Seq<char>>) -> JsonView {
    match s {
        Some(s) => JsonView::Str(s),
        None => JsonView::Null,
    }
}

/// Builds an object document from its members, in order.
pub fn object_from(members: Vec<(String, JsonValue)>) -> (r: JsonValue)
    ensures
        r@ == JsonView::Object(view_members(members@)),
{
    JsonValue::Object(members)
}

/// Appends a member to an object under construction.
pub fn push_member(members: &mut Vec<(String, JsonValue)>, key: &str, value: JsonValue)
    ensures
        final(members)@ == old(members)@.push((final(members)@.last().0, value)),
        final(members)@.last().0@ == key@,
        view_members(final(members)@) == view_members(old(members)@).push((key@, value@)),
{
    let ghost before = members@;
    members.push((key.to_string(), value));
    proof {
        lemma_view_members(before);
        lemma_view_members(members@);
        assert(view_members(members@) =~= view_members(before).push((key@, value@)));
    }
}

/// The members without any member whose key is `key`.
pub open spec fn remove_key(members: Seq<(Seq<char>, JsonView)>, key: Seq<char>) -> Seq<(Seq<char>, JsonView)>
    decreases members.len(),
{
    if members.len() == 0 {
        members
    } else if members.last().0 == key {
        remove_key(members.drop_last(), key)
    } else {
        remove_key(members.drop_last(), key).push(members.last())
    }
}

/// The members with the value of the first member whose key is `key` replaced.
pub open spec fn set_first(members: Seq<(Seq<char>, JsonView)>, key: Seq<char>, value: JsonView) -> Seq<(Seq<char>, JsonView)>
    decreases members.len(),
{
    if members.len() == 0 {
        members
    } else if members[0].0 == key {
        members.update(0, (key, value))
    } else {
        seq![members[0]] + set_first(members.drop_first(), key, value)
    }
}

/// Copies of the members, without those whose key is `key`; also whether one was dropped.
pub fn members_without(members: &Vec<(String, JsonValue)>, key: &str) -> (r: (Vec<(String, JsonValue)>, bool))
    ensures
        view_members(r.0@) == remove_key(view_members(members@), key@),
        r.1 == (members_get(view_members(members@), key@) is Some),
{
    let k = key.to_string();
    let mut out: Vec<(String, JsonValue)> = Vec::new();
    let mut dropped = false;
    let mut i: usize = 0;
    let ghost mv = view_members(members@);
    proof { lemma_view_members(members@); }
    while i < members.len()
        invariant
            i <= members.len(),
            k@ == key@,
            mv == view_members(members@),
            mv.len() == members.len(),
            forall|j: int| 0 <= j < members.len() ==> #[trigger] mv[j] == (members@[j].0@, members@[j].1@),
            view_members(out@) == remove_key(mv.subrange(0, i as int), key@),
            dropped == (members_get(mv.subrange(0, i as int), key@) is Some),
        decreases members.len() - i,
    {
        let ghost pre = mv.subrange(0, i + 1);
        assert(pre.drop_last() =~= mv.subrange(0, i as int));
        proof { lemma_members_get_push(mv.subrange(0, i as int), mv[i as int], key@); }
        assert(mv.subrange(0, i as int).push(mv[i as int]) =~= pre);
        if members[i].0 == k {
            dropped = true;
        } else {
            let c = members[i].1.deep_clone();
            let kk = members[i].0.clone();
            let ghost before = out@;
            out.push((kk, c));
            proof {
                lemma_view_members(before);
                lemma_view_members(out@);
                assert(view_members(out@) =~= view_members(before).push(mv[i as int]));
            }
        }
        i = i + 1;
    }
    assert(mv.subrange(0, members.len() as int) =~= mv);
    (out, dropped)
}

/// Looking up a key after appending a member.
pub proof fn lemma_members_get_push(members: Seq<(Seq<char>, JsonView)>, m: (Seq<char>, JsonView), key: Seq<char>)
    ensures
        members_get(members.push(m), key) == match members_get(members, key) {
            Some(v) => Some(v),
            None => if m.0 == key { Some(m.1) } else { None },
        },
    decreases members.len(),
{
    if members.len() > 0 {
        assert(members.push(m)[0] == members[0]);
        assert(members.push(m).drop_first() =~= members.drop_first().push(m));
        lemma_members_get_push(members.drop_first(), m, key);
    } else {
        let p = members.push(m);
        assert(p[0] == m);
        assert(p.drop_first() =~= Seq::<(Seq<char>, JsonView)>::empty());
        assert(members_get(p.drop_first(), key) is None);
        assert(members_get(members, key) is None);
    }
}

/// Copies of the members, with the value of the first member keyed `key` replaced.
pub fn members_with_first_set(members: &Vec<(String, JsonValue)>, key: &str, value: JsonValue) -> (r: Vec<(String, JsonValue)>)
    ensures
        view_members(r@) == set_first(view_members(members@), key@, value@),
{
    let k = key.to_string();
    let mut out: Vec<(String, JsonValue)> = Vec::new();
    let mut value = Some(value);
    let ghost v0 = value->Some_0@;
    let mut i: usize = 0;
    let ghost mv = view_members(members@);
    proof {
        lemma_view_members(members@);
        assert(mv.subrange(0, 0) =~= Seq::<(Seq<char>, JsonView)>::empty());
        assert(mv.subrange(0, mv.len() as int) =~= mv);
    }
    while i < members.len()
        invariant
            i <= members.len(),
            k@ == key@,
            mv == view_members(members@),
            mv.len() == members.len(),
            forall|j: int| 0 <= j < members.len() ==> #[trigger] mv[j] == (members@[j].0@, members@[j].1@),
            match value {
                Some(v) => v@ == v0 && view_members(out@) + set_first(mv.subrange(i as int, mv.len() as int), key@, v0)
                    == set_first(mv, key@, v0),
                None => view_members(out@) + mv.subrange(i as int, mv.len() as int) == set_first(mv, key@, v0),
            },
        decreases members.len() - i,
    {
        let ghost rest = mv.subrange(i as int, mv.len() as int);
        assert(rest[0] == mv[i as int]);
        assert(rest.drop_first() =~= mv.subrange(i + 1, mv.len() as int));
        let ghost before = out@;
        let ghost was_some = value is Some;
        proof { lemma_view_members(before); }
        if value.is_some() && members[i].0 == k {
            let v = value.take().unwrap();
            out.push((members[i].0.clone(), v));
            proof {
                lemma_view_members(out@);
                assert(view_members(out@) =~= view_members(before).push((key@, v0)));
                assert(rest.update(0, (key@, v0)) =~= seq![(key@, v0)] + mv.subrange(i + 1, mv.len() as int));
                assert(view_members(out@) + mv.subrange(i + 1, mv.len() as int)
                    =~= view_members(before) + rest.update(0, (key@, v0)));
            }
        } else {
            let c = members[i].1.deep_clone();
            out.push((members[i].0.clone(), c));
            proof {
                lemma_view_members(out@);
                assert(view_members(out@) =~= view_members(before).push(mv[i as int]));
                if was_some {
                    assert(view_members(out@) + set_first(mv.subrange(i + 1, mv.len() as int), key@, v0)
                        =~= view_members(before) + (seq![rest[0]] + set_first(rest.drop_first(), key@, v0)));
                } else {
                    assert(view_members(out@) + mv.subrange(i + 1, mv.len() as int)
                        =~= view_members(before) + rest);
                }
            }
        }
        i = i + 1;
    }
    proof {
        let empty = mv.subrange(mv.len() as int, mv.len() as int);
        assert(empty =~= Seq::<(Seq<char>, JsonView)>::empty());
        assert(view_members(out@) + empty =~= view_members(out@));
    }
    out
}

/// Looking up a key after the first member with `key` got a new value.
pub proof fn lemma_members_get_set_first(members: Seq<(Seq<char>, JsonView)>, key: Seq<char>, value: JsonView, other: Seq<char>)
    ensures
        members_get(set_first(members, key, value), other) == if other == key {
            if members_get(members, key) is Some { Some(value) } else { None }
        } else {
            members_get(members, other)
        },
    decreases members.len(),
{
    if members.len() > 0 {
        if members[0].0 == key {
            let u = members.update(0, (key, value));
            assert(u.drop_first() =~= members.drop_first());
        } else {
            lemma_members_get_set_first(members.drop_first(), key, value, other);
            let r = seq![members[0]] + set_first(members.drop_first(), key, value);
            assert(r.drop_first() =~= set_first(members.drop_first(), key, value));
        }
    }
}

/// Looking up a key after the members keyed `key` were removed.
pub proof fn lemma_members_get_remove_key(members: Seq<(Seq<char>, JsonView)>, key: Seq<char>, other: Seq<char>)
    ensures
        members_get(remove_key(members, key), other) == if other == key { None } else { members_get(members, other) },
    decreases members.len(),
{
    if members.len() > 0 {
        let init = members.drop_last();
        lemma_members_get_remove_key(init, key, other);
        assert(init.push(members.last()) =~= members);
        lemma_members_get_push(init, members.last(), other);
        if members.last().0 != key {
            lemma_members_get_push(remove_key(init, key), members.last(), other);
        }
    }
}

/// A member whose key differs from `key` survives its removal.
pub proof fn lemma_remove_key_keeps_others(members: Seq<(Seq<char>, JsonView)>, key: Seq<char>, other: Seq<char>)
    requires
        other != key,
        members_get(members, other) is Some,
    ensures
        remove_key(members, key).len() > 0,
{
    lemma_members_get_remove_key(members, key, other);
}

} // verus!
