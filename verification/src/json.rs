use vstd::prelude::*;

verus! {

/// A JSON document held as plain values. Numbers are kept when they are
/// integers that fit in an `i64` or a `u64`; any other number is `Number(None)`.
/// Object members keep the order in which they were read.
#[derive(Debug, PartialEq, Eq)]
pub enum JsonValue {
    Null,
    Bool(bool),
    Number(Option<i128>),
    Str(String),
    Array(Vec<JsonValue>),
    Object(Vec<(String, JsonValue)>),
}

/// The mathematical form of a JSON document.
pub enum JsonView {
    Null,
    Bool(bool),
    Number(Option<i128>),
    Str(Seq<char>),
    Array(Seq<JsonView>),
    Object(Seq<(Seq<char>, JsonView)>),
}

pub open spec fn json_view(v: JsonValue) -> JsonView
    decreases v,
{
    match v {
        JsonValue::Null => JsonView::Null,
        JsonValue::Bool(b) => JsonView::Bool(b),
        JsonValue::Number(n) => JsonView::Number(n),
        JsonValue::Str(s) => JsonView::Str(s@),
        JsonValue::Array(items) => JsonView::Array(
            Seq::new(
                items@.len(),
                |i: int|
                    if 0 <= i < items@.len() {
                        json_view(items@[i])
                    } else {
                        JsonView::Null
                    },
            ),
        ),
        JsonValue::Object(members) => JsonView::Object(
            Seq::new(
                members@.len(),
                |i: int|
                    if 0 <= i < members@.len() {
                        (members@[i].0@, json_view(members@[i].1))
                    } else {
                        (Seq::empty(), JsonView::Null)
                    },
            ),
        ),
    }
}

impl View for JsonValue {
    type V = JsonView;

    open spec fn view(&self) -> JsonView {
        json_view(*self)
    }
}

impl JsonValue {
    /// A copy of this document with the same content.
    #[verifier::loop_isolation(false)]
    pub fn duplicate(&self) -> (r: JsonValue)
        ensures
            r@ == self@,
        decreases self,
    {
        match self {
            JsonValue::Null => JsonValue::Null,
            JsonValue::Bool(b) => JsonValue::Bool(*b),
            JsonValue::Number(n) => JsonValue::Number(*n),
            JsonValue::Str(s) => JsonValue::Str(s.clone()),
            JsonValue::Array(items) => {
                let mut out: Vec<JsonValue> = Vec::new();
                let mut i: usize = 0;
                while i < items.len()
                    invariant
                        i <= items@.len(),
                        out@.len() == i,
                        forall|k: int| 0 <= k < i ==> #[trigger] json_view(out@[k]) == json_view(items@[k]),
                    decreases items@.len() - i,
                {
                    proof {
                        assert(*self == JsonValue::Array(*items));
                        assert(decreases_to!(*self => *items));
                        vstd::std_specs::vec::axiom_vec_index_decreases(*items, i as int);
                        assert(decreases_to!(*items => items@[i as int]));
                    }
                    let c = items[i].duplicate();
                    out.push(c);
                    i = i + 1;
                }
                let r = JsonValue::Array(out);
                proof {
                    let sa = match json_view(r) { JsonView::Array(t) => t, _ => Seq::empty() };
                    let sb = match json_view(*self) { JsonView::Array(t) => t, _ => Seq::empty() };
                    assert(sa.len() == sb.len());
                    assert forall|k: int| 0 <= k < sa.len() implies sa[k] == sb[k] by {
                        assert(json_view(out@[k]) == json_view(items@[k]));
                    }
                    assert(sa =~= sb);
                }
                r
            },
            JsonValue::Object(members) => {
                let mut out: Vec<(String, JsonValue)> = Vec::new();
                let mut i: usize = 0;
                while i < members.len()
                    invariant
                        i <= members@.len(),
                        out@.len() == i,
                        forall|k: int|
                            0 <= k < i ==> #[trigger] out@[k].0@ == members@[k].0@ && json_view(out@[k].1)
                                == json_view(members@[k].1),
                    decreases members@.len() - i,
                {
                    proof {
                        assert(*self == JsonValue::Object(*members));
                        assert(decreases_to!(*self => *members));
                        vstd::std_specs::vec::axiom_vec_index_decreases(*members, i as int);
                        assert(decreases_to!(*members => members@[i as int]));
                        assert(decreases_to!(members@[i as int] => members@[i as int].1));
                    }
                    let c = members[i].1.duplicate();
                    out.push((members[i].0.clone(), c));
                    i = i + 1;
                }
                let r = JsonValue::Object(out);
                proof {
                    let sa = match json_view(r) { JsonView::Object(t) => t, _ => Seq::empty() };
                    let sb = match json_view(*self) { JsonView::Object(t) => t, _ => Seq::empty() };
                    assert(sa =~= sb);
                }
                r
            },
        }
    }
}


/// The value of the first member named `key`, if any.
pub open spec fn spec_member(members: Seq<(Seq<char>, JsonView)>, key: Seq<char>) -> Option<JsonView>
    decreases members.len(),
{
    if members.len() == 0 {
        None
    } else if members[0].0 == key {
        Some(members[0].1)
    } else {
        spec_member(members.drop_first(), key)
    }
}

/// The key of the first member whose key is not one of `allowed`, if any.
pub open spec fn spec_first_unknown_member(members: Seq<(Seq<char>, JsonView)>, allowed: Seq<Seq<char>>) -> Option<
    Seq<char>,
>
    decreases members.len(),
{
    if members.len() == 0 {
        None
    } else if !allowed.contains(members[0].0) {
        Some(members[0].0)
    } else {
        spec_first_unknown_member(members.drop_first(), allowed)
    }
}

proof fn lemma_members_skip(m: Seq<(Seq<char>, JsonView)>, i: int)
    requires
        0 <= i < m.len(),
    ensures
        m.skip(i)[0] == m[i],
        m.skip(i).drop_first() == m.skip(i + 1),
{
    assert(m.skip(i).drop_first() =~= m.skip(i + 1));
}

/// The value of the first member of an object named `key`.
pub fn object_member<'a>(members: &'a Vec<(String, JsonValue)>, key: &str) -> (r: Option<&'a JsonValue>)
    ensures
        match spec_member(json_view(JsonValue::Object(*members))->Object_0, key@) {
            Some(v) => r is Some && r.unwrap()@ == v,
            None => r is None,
        },
{
    let ghost m = json_view(JsonValue::Object(*members))->Object_0;
    let mut i: usize = 0;
    assert(m.skip(0) =~= m);
    while i < members.len()
        invariant
            i <= members@.len(),
            m.len() == members@.len(),
            m == json_view(JsonValue::Object(*members))->Object_0,
            spec_member(m, key@) == spec_member(m.skip(i as int), key@),
        decreases members@.len() - i,
    {
        proof {
            lemma_members_skip(m, i as int);
        }
        assert(m[i as int] == (members@[i as int].0@, json_view(members@[i as int].1)));
        if crate::text::str_eq(members[i].0.as_str(), key) {
            return Some(&members[i].1);
        }
        i = i + 1;
    }
    assert(m.skip(i as int).len() == 0);
    None
}

/// The key of the first member of an object that is not one of `allowed`.
pub fn first_unknown_member(members: &Vec<(String, JsonValue)>, allowed: &Vec<&str>) -> (r: Option<String>)
    ensures
        opt_seq(r) == spec_first_unknown_member(
            json_view(JsonValue::Object(*members))->Object_0,
            allowed@.map_values(|a: &str| a@),
        ),
{
    let ghost m = json_view(JsonValue::Object(*members))->Object_0;
    let ghost keys = allowed@.map_values(|a: &str| a@);
    let mut i: usize = 0;
    assert(m.skip(0) =~= m);
    while i < members.len()
        invariant
            i <= members@.len(),
            m.len() == members@.len(),
            m == json_view(JsonValue::Object(*members))->Object_0,
            keys == allowed@.map_values(|a: &str| a@),
            spec_first_unknown_member(m, keys) == spec_first_unknown_member(m.skip(i as int), keys),
        decreases members@.len() - i,
    {
        proof {
            lemma_members_skip(m, i as int);
        }
        assert(m[i as int] == (members@[i as int].0@, json_view(members@[i as int].1)));
        let mut known = false;
        let mut j: usize = 0;
        while j < allowed.len()
            invariant
                j <= allowed@.len(),
                i < members@.len(),
                keys == allowed@.map_values(|a: &str| a@),
                known == (exists|k: int| 0 <= k < j && keys[k] == members@[i as int].0@),
            decreases allowed@.len() - j,
        {
            if crate::text::str_eq(allowed[j], members[i].0.as_str()) {
                known = true;
            }
            assert(keys[j as int] == allowed@[j as int]@);
            j = j + 1;
        }
        if !known {
            assert(!keys.contains(members@[i as int].0@));
            return Some(members[i].0.clone());
        }
        i = i + 1;
    }
    assert(m.skip(i as int).len() == 0);
    None
}

pub open spec fn opt_seq(o: Option<String>) -> Option<Seq<char>> {
    match o {
        Some(s) => Some(s@),
        None => None,
    }
}


/// The mathematical form of object members.
pub open spec fn members_view(members: Seq<(String, JsonValue)>) -> Seq<(Seq<char>, JsonView)> {
    Seq::new(
        members.len(),
        |i: int|
            if 0 <= i < members.len() {
                (members[i].0@, json_view(members[i].1))
            } else {
                (Seq::empty(), JsonView::Null)
            },
    )
}

/// An object with these members, in this order.
pub fn json_object(members: Vec<(String, JsonValue)>) -> (r: JsonValue)
    ensures
        r@ == JsonView::Object(members_view(members@)),
{
    let r = JsonValue::Object(members);
    assert(json_view(r)->Object_0 =~= members_view(members@));
    r
}

/// A member whose value is a string.
pub fn str_member(key: &str, value: &str) -> (r: (String, JsonValue))
    ensures
        r.0@ == key@,
        json_view(r.1) == JsonView::Str(value@),
{
    (key.to_owned(), JsonValue::Str(value.to_owned()))
}

/// A number.
pub fn json_u64(n: u64) -> (r: JsonValue)
    ensures
        r@ == JsonView::Number(Some(n as i128)),
{
    JsonValue::Number(Some(n as i128))
}

/// A signed number.
pub fn json_i32(n: i32) -> (r: JsonValue)
    ensures
        r@ == JsonView::Number(Some(n as i128)),
{
    JsonValue::Number(Some(n as i128))
}

/// A string.
pub fn json_str(value: &str) -> (r: JsonValue)
    ensures
        r@ == JsonView::Str(value@),
{
    JsonValue::Str(value.to_owned())
}

/// A string, or null when there is none.
pub fn json_opt_str(value: Option<&str>) -> (r: JsonValue)
    ensures
        r@ == match value {
            Some(v) => JsonView::Str(v@),
            None => JsonView::Null,
        },
{
    match value {
        Some(v) => JsonValue::Str(v.to_owned()),
        None => JsonValue::Null,
    }
}

/// Appends a member.
pub fn push_member(members: &mut Vec<(String, JsonValue)>, key: &str, value: JsonValue)
    ensures
        members_view(final(members)@) == members_view(old(members)@).push((key@, value@)),
{
    let ghost before = members@;
    members.push((key.to_owned(), value));
    assert(members_view(members@) =~= members_view(before).push((key@, value@)));
}

/// The members without those named `key`, in order.
pub open spec fn spec_without_key(members: Seq<(Seq<char>, JsonView)>, key: Seq<char>) -> Seq<(Seq<char>, JsonView)>
    decreases members.len(),
{
    if members.len() == 0 {
        members
    } else {
        let rest = spec_without_key(members.drop_last(), key);
        if members.last().0 == key {
            rest
        } else {
            rest.push(members.last())
        }
    }
}

/// Sets a member of an object, as `payload[key] = value` does: the member named `key` ends up
/// holding `value`, once, after the other members.
pub fn set_member(members: &mut Vec<(String, JsonValue)>, key: &str, value: JsonValue)
    ensures
        members_view(final(members)@) == spec_without_key(members_view(old(members)@), key@).push((key@, value@)),
{
    let ghost before = members_view(members@);
    let mut kept: Vec<(String, JsonValue)> = Vec::new();
    let mut rest: Vec<(String, JsonValue)> = Vec::new();
    std::mem::swap(&mut rest, members);
    let ghost all = rest@;
    assert(members_view(all) == before);
    let mut i: usize = 0;
    assert(before.take(0) =~= Seq::<(Seq<char>, JsonView)>::empty());
    assert(members_view(kept@) =~= Seq::<(Seq<char>, JsonView)>::empty());
    while i < rest.len()
        invariant
            i <= rest@.len(),
            rest@ == all,
            members_view(all) == before,
            members_view(kept@) == spec_without_key(before.take(i as int), key@),
        decreases rest@.len() - i,
    {
        assert(before.take(i + 1).drop_last() =~= before.take(i as int));
        assert(before.take(i + 1).last() == before[i as int]);
        assert(before[i as int] == (all[i as int].0@, json_view(all[i as int].1)));
        if !crate::text::str_eq(rest[i].0.as_str(), key) {
            let ghost k0 = kept@;
            let v = rest[i].1.duplicate();
            kept.push((rest[i].0.clone(), v));
            assert(members_view(kept@) =~= members_view(k0).push(before[i as int]));
        }
        i = i + 1;
    }
    assert(before.take(i as int) =~= before);
    push_member(&mut kept, key, value);
    *members = kept;
}

} // verus!
