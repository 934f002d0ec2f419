//! A JSON document as the control plane reads and writes it.
//!
//! An object is a list of members; when a key occurs more than once the last
//! member wins, as when JSON text with repeated keys is read. Removing a key
//! removes every member with that key, and inserting one appends a member, so
//! the object always reads as the map `object_map` gives.
use vstd::prelude::*;

use crate::text::same_text;

verus! {

#[derive(Debug)]
pub enum Json {
    Null,
    Bool(bool),
    /// A number, held as its JSON text.
    Number(String),
    Str(String),
    Array(Vec<Json>),
    Object(Vec<JsonMember>),
}

#[derive(Debug)]
pub struct JsonMember {
    pub key: String,
    pub value: Json,
}

/// The map an object's members stand for: each key to the value of its last
/// member.
pub open spec fn object_map(ms: Seq<JsonMember>) -> Map<Seq<char>, Json>
    decreases ms.len(),
{
    if ms.len() == 0 {
        Map::empty()
    } else {
        object_map(ms.drop_last()).insert(ms.last().key@, ms.last().value)
    }
}

/// Whether `j` is the JSON string with the characters `s`.
pub open spec fn is_str(j: Json, s: Seq<char>) -> bool {
    j matches Json::Str(v) && v@ == s
}

/// A key is in the map exactly when some member has it, and then the map
/// holds the value of the last such member.
pub proof fn lemma_object_map_last(ms: Seq<JsonMember>, k: Seq<char>)
    ensures
        object_map(ms).dom().contains(k) <==> exists|i: int| 0 <= i < ms.len() && #[trigger] ms[i].key@ == k,
        forall|i: int|
            0 <= i < ms.len() && #[trigger] ms[i].key@ == k && (forall|j: int| i < j < ms.len() ==> ms[j].key@ != k)
                ==> object_map(ms)[k] == ms[i].value,
    decreases ms.len(),
{
    if ms.len() > 0 {
        let p = ms.drop_last();
        lemma_object_map_last(p, k);
        assert forall|i: int| 0 <= i < p.len() implies #[trigger] p[i] == ms[i] by {}
        if ms.last().key@ != k {
            assert((exists|i: int| 0 <= i < ms.len() && #[trigger] ms[i].key@ == k) ==> (exists|
                i: int,
            | 0 <= i < p.len() && #[trigger] p[i].key@ == k)) by {
                if exists|i: int| 0 <= i < ms.len() && #[trigger] ms[i].key@ == k {
                    let i = choose|i: int| 0 <= i < ms.len() && #[trigger] ms[i].key@ == k;
                    assert(p[i].key@ == k);
                }
            }
        } else {
            assert(ms[ms.len() - 1].key@ == k);
        }
        assert forall|i: int|
            0 <= i < ms.len() && #[trigger] ms[i].key@ == k && (forall|j: int|
                i < j < ms.len() ==> ms[j].key@ != k) implies object_map(ms)[k] == ms[i].value by {
            if i < ms.len() - 1 {
                assert(ms[ms.len() - 1].key@ != k);
                assert(p[i].key@ == k);
                assert(forall|j: int| i < j < p.len() ==> p[j].key@ != k);
            }
        }
    }
}

/// Appending a member.
pub proof fn lemma_object_map_push(ms: Seq<JsonMember>, m: JsonMember)
    ensures
        object_map(ms.push(m)) == object_map(ms).insert(m.key@, m.value),
{
    assert(ms.push(m).drop_last() =~= ms);
}

impl JsonMember {
    pub fn new(key: String, value: Json) -> (m: JsonMember)
        ensures
            m.key == key,
            m.value == value,
    {
        JsonMember { key, value }
    }
}

/// The value of the last member with key `key`.
pub fn object_get<'a>(ms: &'a Vec<JsonMember>, key: &str) -> (r: Option<&'a Json>)
    ensures
        match r {
            Some(v) => object_map(ms@).dom().contains(key@) && *v == object_map(ms@)[key@],
            None => !object_map(ms@).dom().contains(key@),
        },
{
    let mut i = ms.len();
    while i > 0
        invariant
            i <= ms@.len(),
            forall|j: int| i <= j < ms@.len() ==> #[trigger] ms@[j].key@ != key@,
        decreases i,
    {
        if same_text(ms[i - 1].key.as_str(), key) {
            proof {
                lemma_object_map_last(ms@, key@);
                assert(ms@[i - 1].key@ == key@);
            }
            return Some(&ms[i - 1].value);
        }
        i = i - 1;
    }
    proof {
        lemma_object_map_last(ms@, key@);
    }
    None
}

/// Removes every member with key `key`.
pub fn object_remove(ms: Vec<JsonMember>, key: &str) -> (r: Vec<JsonMember>)
    ensures
        object_map(r@) == object_map(ms@).remove(key@),
{
    let mut kept: Vec<JsonMember> = Vec::new();
    let mut rest = ms;
    let ghost whole = rest@;
    let ghost mut taken: int = 0;
    assert(whole.subrange(0, 0) =~= Seq::<JsonMember>::empty());
    while rest.len() > 0
        invariant
            0 <= taken <= whole.len(),
            rest@ =~= whole.subrange(taken, whole.len() as int),
            object_map(kept@) == object_map(whole.subrange(0, taken)).remove(key@),
        decreases rest.len(),
    {
        let ghost before = kept@;
        let m = rest.remove(0);
        assert(m == whole[taken]);
        let ghost next = whole.subrange(0, taken + 1);
        assert(next.drop_last() =~= whole.subrange(0, taken));
        assert(next.last() == m);
        if !same_text(m.key.as_str(), key) {
            let ghost mm = m;
            kept.push(m);
            proof {
                lemma_object_map_push(before, mm);
                assert(object_map(kept@) =~= object_map(next).remove(key@));
            }
        } else {
            assert(object_map(kept@) =~= object_map(next).remove(key@));
        }
        proof {
            taken = taken + 1;
        }
    }
    assert(whole.subrange(0, taken) =~= whole);
    kept
}

/// Sets `key` to `value`.
pub fn object_insert(ms: &mut Vec<JsonMember>, key: String, value: Json)
    ensures
        object_map(final(ms)@) == object_map(old(ms)@).insert(key@, value),
{
    let m = JsonMember::new(key, value);
    let ghost mm = m;
    ms.push(m);
    proof {
        lemma_object_map_push(old(ms)@, mm);
    }
}

/// What a JSON value holds, with its strings as character sequences.
pub enum JsonView {
    Null,
    Bool(bool),
    Number(Seq<char>),
    Str(Seq<char>),
    Array(Seq<JsonView>),
    Object(Seq<(Seq<char>, JsonView)>),
}

/// The views of the first `k` elements of an array.
pub open spec fn elements_view(s: Seq<Json>, k: int) -> Seq<JsonView>
    decreases s, k,
{
    if k <= 0 || k > s.len() {
        Seq::empty()
    } else {
        elements_view(s, k - 1).push(json_view(s[k - 1]))
    }
}

/// The views of the first `k` members of an object.
pub open spec fn members_view(s: Seq<JsonMember>, k: int) -> Seq<(Seq<char>, JsonView)>
    decreases s, k,
{
    if k <= 0 || k > s.len() {
        Seq::empty()
    } else {
        members_view(s, k - 1).push((s[k - 1].key@, json_view(s[k - 1].value)))
    }
}

/// The view of a JSON value.
pub open spec fn json_view(j: Json) -> JsonView
    decreases j, 0int,
{
    match j {
        Json::Null => JsonView::Null,
        Json::Bool(b) => JsonView::Bool(b),
        Json::Number(n) => JsonView::Number(n@),
        Json::Str(s) => JsonView::Str(s@),
        Json::Array(v) => JsonView::Array(elements_view(v@, v@.len() as int)),
        Json::Object(ms) => JsonView::Object(members_view(ms@, ms@.len() as int)),
    }
}

impl Json {
    /// A copy of this value.
    pub fn duplicate(&self) -> (r: Json)
        ensures
            json_view(r) == json_view(*self),
        decreases *self,
    {
        match self {
            Json::Null => Json::Null,
            Json::Bool(b) => Json::Bool(*b),
            Json::Number(n) => Json::Number(n.clone()),
            Json::Str(t) => Json::Str(t.clone()),
            Json::Array(v) => {
                let mut out: Vec<Json> = Vec::new();
                let mut i: usize = 0;
                while i < v.len()
                    invariant
                        *self is Array,
                        self->Array_0 == *v,
                        i <= v@.len(),
                        out@.len() == i,
                        elements_view(out@, i as int) == elements_view(v@, i as int),
                        forall|k: int| 0 <= k < i ==> #[trigger] json_view(out@[k]) == json_view(v@[k]),
                    decreases v@.len() - i,
                {
                    proof {
                        broadcast use vstd::std_specs::vec::axiom_vec_index_decreases;
                        assert(*v == self->Array_0);
                        assert(decreases_to!(*self => self->Array_0));
                        assert(decreases_to!(*v => v[i as int]));
                        assert(decreases_to!(*self => v[i as int]));
                    }
                    let e = v[i].duplicate();
                    let ghost before = out@;
                    out.push(e);
                    proof {
                        lemma_elements_view_prefix(out@, i as int);
                        lemma_elements_view_prefix(before, i as int);
                        assert(out@.subrange(0, i as int) =~= before);
                    }
                    i = i + 1;
                }
                Json::Array(out)
            },
            Json::Object(ms) => {
                let mut out: Vec<JsonMember> = Vec::new();
                let mut i: usize = 0;
                while i < ms.len()
                    invariant
                        *self is Object,
                        self->Object_0 == *ms,
                        i <= ms@.len(),
                        out@.len() == i,
                        members_view(out@, i as int) == members_view(ms@, i as int),
                    decreases ms@.len() - i,
                {
                    proof {
                        broadcast use vstd::std_specs::vec::axiom_vec_index_decreases;
                        assert(*ms == self->Object_0);
                        assert(decreases_to!(*self => self->Object_0));
                        assert(decreases_to!(*ms => ms[i as int]));
                        assert(decreases_to!(ms[i as int] => ms[i as int].value));
                        assert(decreases_to!(*self => ms[i as int].value));
                    }
                    let value = ms[i].value.duplicate();
                    let m = JsonMember { key: ms[i].key.clone(), value };
                    let ghost before = out@;
                    out.push(m);
                    proof {
                        lemma_members_view_prefix(out@, i as int);
                        lemma_members_view_prefix(before, i as int);
                        assert(out@.subrange(0, i as int) =~= before);
                    }
                    i = i + 1;
                }
                Json::Object(out)
            },
        }
    }
}

/// The view of a prefix depends only on the prefix.
pub proof fn lemma_elements_view_prefix(s: Seq<Json>, k: int)
    requires
        0 <= k <= s.len(),
    ensures
        elements_view(s, k) == elements_view(s.subrange(0, k), k),
    decreases k,
{
    if k > 0 {
        lemma_elements_view_prefix(s, k - 1);
        lemma_elements_view_prefix(s.subrange(0, k), k - 1);
        assert(s.subrange(0, k).subrange(0, k - 1) =~= s.subrange(0, k - 1));
    }
}

/// The view of a prefix depends only on the prefix.
pub proof fn lemma_members_view_prefix(s: Seq<JsonMember>, k: int)
    requires
        0 <= k <= s.len(),
    ensures
        members_view(s, k) == members_view(s.subrange(0, k), k),
    decreases k,
{
    if k > 0 {
        lemma_members_view_prefix(s, k - 1);
        lemma_members_view_prefix(s.subrange(0, k), k - 1);
        assert(s.subrange(0, k).subrange(0, k - 1) =~= s.subrange(0, k - 1));
    }
}

} // verus!
