//! JSON values as plain data, with a mathematical view.

use crate::number::{compare_number_tokens, number_token_order, Comparison};
use crate::text::text_equal;
use vstd::prelude::*;

verus! {

/// A JSON value. A number is held by its token text (`"500"`, `"-2"`,
/// `"1.5"`); an object is a list of members whose keys are meant to be
/// distinct.
#[derive(Debug)]
pub enum Json {
    Null,
    Bool(bool),
    Number(String),
    String(String),
    Array(Vec<Json>),
    Object(Vec<(String, Json)>),
}

/// The mathematical value of a [`Json`].
pub enum JsonView {
    Null,
    Bool(bool),
    Number(Seq<char>),
    String(Seq<char>),
    Array(Seq<JsonView>),
    Object(Seq<(Seq<char>, JsonView)>),
}

/// The mathematical value of a JSON value.
pub open spec fn json_view(j: Json) -> JsonView
    decreases j,
{
    match j {
        Json::Null => JsonView::Null,
        Json::Bool(b) => JsonView::Bool(b),
        Json::Number(n) => JsonView::Number(n@),
        Json::String(s) => JsonView::String(s@),
        Json::Array(items) => JsonView::Array(
            Seq::new(
                items@.len(),
                |i: int|
                    if 0 <= i < items@.len() {
                        json_view(items@[i])
                    } else {
                        JsonView::Null
                    },
            ),
        ),
        Json::Object(members) => JsonView::Object(
            Seq::new(
                members@.len(),
                |i: int|
                    (
                        members@[i].0@,
                        if 0 <= i < members@.len() {
                            json_view(members@[i].1)
                        } else {
                            JsonView::Null
                        },
                    ),
            ),
        ),
    }
}

impl View for Json {
    type V = JsonView;

    open spec fn view(&self) -> JsonView {
        json_view(*self)
    }
}

impl Clone for Json {
    fn clone(&self) -> (r: Json)
        ensures
            r@ == self@,
        decreases self,
    {
        match self {
            Json::Null => Json::Null,
            Json::Bool(b) => Json::Bool(*b),
            Json::Number(n) => Json::Number(n.clone()),
            Json::String(s) => Json::String(s.clone()),
            Json::Array(items) => {
                let mut copy: Vec<Json> = Vec::new();
                let mut i: usize = 0;
                while i < items.len()
                    invariant
                        self is Array && self->Array_0 == *items,
                        i <= items.len(),
                        copy@.len() == i,
                        forall|j: int| 0 <= j < i ==> copy@[j]@ == items@[j]@,
                    decreases items.len() - i,
                {
                    assert(decreases_to!(self->Array_0 => items[i as int]));
                    copy.push(items[i].clone());
                    i += 1;
                }
                let r = Json::Array(copy);
                assert(r@ == self@) by {
                    assert(r@->Array_0 =~= self@->Array_0);
                }
                r
            },
            Json::Object(members) => {
                let mut copy: Vec<(String, Json)> = Vec::new();
                let mut i: usize = 0;
                while i < members.len()
                    invariant
                        self is Object && self->Object_0 == *members,
                        i <= members.len(),
                        copy@.len() == i,
                        forall|j: int|
                            0 <= j < i ==> copy@[j].0@ == members@[j].0@ && copy@[j].1@
                                == members@[j].1@,
                    decreases members.len() - i,
                {
                    assert(decreases_to!(self->Object_0 => members[i as int]));
                    copy.push((members[i].0.clone(), members[i].1.clone()));
                    i += 1;
                }
                let r = Json::Object(copy);
                assert(r@ == self@) by {
                    assert(r@->Object_0 =~= self@->Object_0);
                }
                r
            },
        }
    }
}

/// The views of the members of an object.
pub open spec fn members_view(members: Seq<(String, Json)>) -> Seq<(Seq<char>, JsonView)> {
    Seq::new(members.len(), |i: int| (members[i].0@, members[i].1@))
}

/// The views of the items of an array.
pub open spec fn items_view(items: Seq<Json>) -> Seq<JsonView> {
    Seq::new(items.len(), |i: int| items[i]@)
}

/// The index of the first member at or after `from` that is named `key`.
pub open spec fn key_index_from(
    members: Seq<(Seq<char>, JsonView)>,
    key: Seq<char>,
    from: int,
) -> Option<int>
    decreases members.len() - from,
{
    if from < 0 || from >= members.len() {
        None
    } else if members[from].0 == key {
        Some(from)
    } else {
        key_index_from(members, key, from + 1)
    }
}

/// The value of the first member named `key`.
pub open spec fn lookup(members: Seq<(Seq<char>, JsonView)>, key: Seq<char>) -> Option<JsonView> {
    match key_index_from(members, key, 0) {
        Some(i) => Some(members[i].1),
        None => None,
    }
}

/// The members with `key` set to `value`: in place where a member has that
/// name, at the end where none has.
pub open spec fn with_member(
    members: Seq<(Seq<char>, JsonView)>,
    key: Seq<char>,
    value: JsonView,
) -> Seq<(Seq<char>, JsonView)> {
    match key_index_from(members, key, 0) {
        Some(i) => members.update(i, (key, value)),
        None => members.push((key, value)),
    }
}

/// A float token that denotes zero.
pub open spec fn is_zero_float(token: Seq<char>) -> bool {
    token == "0.0"@ || token == "-0.0"@
}

/// Two number tokens denote equal numbers: the same token, or two zeros of
/// the float kind. An integer and a float are never equal.
pub open spec fn number_equal(a: Seq<char>, b: Seq<char>) -> bool {
    a == b || (is_zero_float(a) && is_zero_float(b))
}

/// Deep equality of JSON values: scalars by value, arrays item by item,
/// objects member by member whatever the order of their members.
pub open spec fn json_equal(a: JsonView, b: JsonView) -> bool
    decreases a, 0nat,
{
    match (a, b) {
        (JsonView::Null, JsonView::Null) => true,
        (JsonView::Bool(x), JsonView::Bool(y)) => x == y,
        (JsonView::Number(x), JsonView::Number(y)) => number_equal(x, y),
        (JsonView::String(x), JsonView::String(y)) => x == y,
        (JsonView::Array(x), JsonView::Array(y)) => x.len() == y.len() && forall|i: int|
            0 <= i < x.len() ==> json_equal(#[trigger] x[i], y[i]),
        (JsonView::Object(x), JsonView::Object(y)) => x.len() == y.len() && forall|i: int|
            0 <= i < x.len() ==> member_matches(#[trigger] x[i], y),
        _ => false,
    }
}

/// The member is found in `others` under its name, with an equal value.
pub open spec fn member_matches(
    member: (Seq<char>, JsonView),
    others: Seq<(Seq<char>, JsonView)>,
) -> bool
    decreases member.1, 1nat,
{
    match lookup(others, member.0) {
        Some(v) => json_equal(member.1, v),
        None => false,
    }
}

impl JsonView {
    /// The member of an object by name; `None` for anything but an object.
    pub open spec fn get(self, key: Seq<char>) -> Option<JsonView> {
        match self {
            JsonView::Object(members) => lookup(members, key),
            _ => None,
        }
    }

    /// How two values order as numbers; `None` unless both are numbers.
    pub open spec fn number_order(self, other: JsonView) -> Option<Comparison> {
        match (self, other) {
            (JsonView::Number(a), JsonView::Number(b)) => number_token_order(a, b),
            _ => None,
        }
    }
}

/// The index of the first member named `key`.
pub fn find_member(members: &Vec<(String, Json)>, key: &str) -> (r: Option<usize>)
    ensures
        match r {
            Some(i) => key_index_from(members_view(members@), key@, 0) == Some(i as int) && i
                < members@.len(),
            None => key_index_from(members_view(members@), key@, 0) is None,
        },
{
    let mut i: usize = 0;
    while i < members.len()
        invariant
            i <= members.len(),
            key_index_from(members_view(members@), key@, 0) == key_index_from(
                members_view(members@),
                key@,
                i as int,
            ),
        decreases members.len() - i,
    {
        if text_equal(members[i].0.as_str(), key) {
            return Some(i);
        }
        i += 1;
    }
    None
}

/// Sets `key` to `value` among the members: in place where a member has that
/// name, at the end where none has.
pub fn insert_member(members: &mut Vec<(String, Json)>, key: String, value: Json)
    ensures
        members_view(final(members)@) == with_member(members_view(old(members)@), key@, value@),
{
    let found = find_member(members, key.as_str());
    match found {
        Some(i) => {
            members.set(i, (key, value));
            assert(members_view(members@) =~= with_member(
                members_view(old(members)@),
                key@,
                value@,
            ));
        },
        None => {
            members.push((key, value));
            assert(members_view(members@) =~= with_member(
                members_view(old(members)@),
                key@,
                value@,
            ));
        },
    }
}

impl Json {
    /// A string value.
    pub fn text(s: &str) -> (r: Json)
        ensures
            r@ == JsonView::String(s@),
    {
        Json::String(s.to_owned())
    }

    /// A number with the given token.
    pub fn number(token: &str) -> (r: Json)
        ensures
            r@ == JsonView::Number(token@),
    {
        Json::Number(token.to_owned())
    }

    /// The view of an object is the views of its members.
    pub proof fn lemma_object_view(self)
        requires
            self is Object,
        ensures
            self@ == JsonView::Object(members_view(self->Object_0@)),
    {
        assert(self@->Object_0 =~= members_view(self->Object_0@));
    }

    /// The view of an array is the views of its items.
    pub proof fn lemma_array_view(self)
        requires
            self is Array,
        ensures
            self@ == JsonView::Array(items_view(self->Array_0@)),
    {
        assert(self@->Array_0 =~= items_view(self->Array_0@));
    }

    /// The member of an object by name; `None` for anything but an object.
    pub fn get(&self, key: &str) -> (r: Option<&Json>)
        ensures
            match r {
                Some(v) => self@.get(key@) == Some(v@),
                None => self@.get(key@) is None,
            },
    {
        match self {
            Json::Object(members) => {
                proof {
                    self.lemma_object_view();
                }
                match find_member(members, key) {
                    Some(i) => Some(&members[i].1),
                    None => None,
                }
            },
            _ => None,
        }
    }

    /// The text of a string value.
    pub fn as_text(&self) -> (r: Option<&str>)
        ensures
            match r {
                Some(s) => self@ == JsonView::String(s@),
                None => !(self@ is String),
            },
    {
        match self {
            Json::String(s) => Some(s.as_str()),
            _ => None,
        }
    }

    /// Whether the value is `null`.
    pub fn is_null(&self) -> (r: bool)
        ensures
            r == (self@ is Null),
    {
        match self {
            Json::Null => true,
            _ => false,
        }
    }

    /// How two values order as numbers; `None` unless both are numbers.
    pub fn number_order(&self, other: &Json) -> (r: Option<Comparison>)
        ensures
            r == self@.number_order(other@),
    {
        match (self, other) {
            (Json::Number(a), Json::Number(b)) => compare_number_tokens(a.as_str(), b.as_str()),
            _ => None,
        }
    }

    /// Deep equality with another value.
    pub fn equals(&self, other: &Json) -> (r: bool)
        ensures
            r == json_equal(self@, other@),
        decreases self,
    {
        match (self, other) {
            (Json::Null, Json::Null) => true,
            (Json::Bool(x), Json::Bool(y)) => *x == *y,
            (Json::Number(x), Json::Number(y)) => numbers_equal(x.as_str(), y.as_str()),
            (Json::String(x), Json::String(y)) => text_equal(x.as_str(), y.as_str()),
            (Json::Array(x), Json::Array(y)) => {
                proof {
                    self.lemma_array_view();
                    other.lemma_array_view();
                }
                if x.len() != y.len() {
                    return false;
                }
                let mut i: usize = 0;
                while i < x.len()
                    invariant
                        self is Array && self->Array_0 == *x,
                        self@ == JsonView::Array(items_view(x@)),
                        other@ == JsonView::Array(items_view(y@)),
                        x.len() == y.len(),
                        i <= x.len(),
                        forall|j: int|
                            0 <= j < i ==> json_equal(
                                #[trigger] items_view(x@)[j],
                                items_view(y@)[j],
                            ),
                    decreases x.len() - i,
                {
                    assert(decreases_to!(self->Array_0 => x[i as int]));
                    if !x[i].equals(&y[i]) {
                        assert(!json_equal(items_view(x@)[i as int], items_view(y@)[i as int]));
                        return false;
                    }
                    i += 1;
                }
                true
            },
            (Json::Object(x), Json::Object(y)) => {
                proof {
                    self.lemma_object_view();
                    other.lemma_object_view();
                }
                if x.len() != y.len() {
                    return false;
                }
                let mut i: usize = 0;
                while i < x.len()
                    invariant
                        self is Object && self->Object_0 == *x,
                        self@ == JsonView::Object(members_view(x@)),
                        other@ == JsonView::Object(members_view(y@)),
                        x.len() == y.len(),
                        i <= x.len(),
                        forall|j: int|
                            0 <= j < i ==> member_matches(
                                #[trigger] members_view(x@)[j],
                                members_view(y@),
                            ),
                    decreases x.len() - i,
                {
                    assert(decreases_to!(self->Object_0 => x[i as int]));
                    let matched = match find_member(y, x[i].0.as_str()) {
                        Some(k) => x[i].1.equals(&y[k].1),
                        None => false,
                    };
                    if !matched {
                        assert(!member_matches(members_view(x@)[i as int], members_view(y@)));
                        return false;
                    }
                    i += 1;
                }
                true
            },
            _ => false,
        }
    }
}

/// The value with `new` set at the path from its segment `i` on. Inside an
/// object each segment selects the member of that name, which is made, as
/// an empty object, where it is missing; the last segment names the member
/// that becomes `new`. A value that is no object stays as it is.
pub open spec fn set_path(value: JsonView, path: Seq<Seq<char>>, i: int, new: JsonView) -> JsonView
    decreases path.len() - i,
{
    if i < 0 || i >= path.len() {
        new
    } else {
        match value {
            JsonView::Object(members) => {
                let inner = match lookup(members, path[i]) {
                    Some(v) => v,
                    None => JsonView::Object(Seq::empty()),
                };
                JsonView::Object(with_member(members, path[i], set_path(inner, path, i + 1, new)))
            },
            other => other,
        }
    }
}

/// A copy of the members of an object.
pub fn copy_members(members: &Vec<(String, Json)>) -> (r: Vec<(String, Json)>)
    ensures
        members_view(r@) == members_view(members@),
{
    let mut copy: Vec<(String, Json)> = Vec::new();
    let mut k: usize = 0;
    while k < members.len()
        invariant
            k <= members.len(),
            copy@.len() == k,
            forall|j: int|
                0 <= j < k ==> copy@[j].0@ == members@[j].0@ && copy@[j].1@ == members@[j].1@,
        decreases members.len() - k,
    {
        copy.push((members[k].0.clone(), members[k].1.clone()));
        k += 1;
    }
    assert(members_view(copy@) =~= members_view(members@));
    copy
}

/// The value with `new` set at the path from its segment `i` on.
pub fn set_at_path(value: &Json, path: &Vec<String>, i: usize, new: &Json) -> (r: Json)
    ensures
        r@ == set_path(value@, crate::text::text_views(path@), i as int, new@),
    decreases path@.len() - i,
{
    if i >= path.len() {
        return new.clone();
    }
    match value {
        Json::Object(members) => {
            proof {
                value.lemma_object_view();
            }
            let key = &path[i];
            assert(crate::text::text_views(path@)[i as int] == key@);
            let empty = Json::Object(Vec::new());
            proof {
                empty.lemma_object_view();
                assert(empty@->Object_0 =~= Seq::empty());
            }
            let inner = match find_member(members, key.as_str()) {
                Some(k) => set_at_path(&members[k].1, path, i + 1, new),
                None => set_at_path(&empty, path, i + 1, new),
            };
            let mut copy = copy_members(members);
            insert_member(&mut copy, key.clone(), inner);
            let r = Json::Object(copy);
            proof {
                r.lemma_object_view();
            }
            r
        },
        other => other.clone(),
    }
}

/// No two members have the same name.
pub open spec fn distinct_keys(members: Seq<(Seq<char>, JsonView)>) -> bool {
    forall|i: int, j: int|
        0 <= i < j < members.len() ==> (#[trigger] members[i]).0 != (#[trigger] members[j]).0
}

impl JsonView {
    /// The value is one that JSON text can denote: in every object, at any
    /// depth, no two members have the same name.
    pub open spec fn well_formed(self) -> bool
        decreases self,
    {
        match self {
            JsonView::Array(items) => forall|i: int|
                0 <= i < items.len() ==> (#[trigger] items[i]).well_formed(),
            JsonView::Object(members) => distinct_keys(members) && forall|i: int|
                0 <= i < members.len() ==> (#[trigger] members[i]).1.well_formed(),
            _ => true,
        }
    }
}

/// What `key_index_from` finds is the first member of that name at or after
/// `from`; it finds none exactly where there is none.
pub proof fn lemma_key_index(members: Seq<(Seq<char>, JsonView)>, key: Seq<char>, from: int)
    requires
        0 <= from,
    ensures
        match key_index_from(members, key, from) {
            Some(i) => from <= i < members.len() && members[i].0 == key && forall|j: int|
                from <= j < i ==> (#[trigger] members[j]).0 != key,
            None => forall|j: int| from <= j < members.len() ==> (#[trigger] members[j]).0 != key,
        },
    decreases members.len() - from,
{
    if from < members.len() && members[from].0 != key {
        lemma_key_index(members, key, from + 1);
    }
}

/// A well-formed value is equal to itself.
pub proof fn lemma_equal_is_reflexive(v: JsonView)
    requires
        v.well_formed(),
    ensures
        json_equal(v, v),
    decreases v,
{
    match v {
        JsonView::Array(items) => {
            assert forall|i: int| 0 <= i < items.len() implies json_equal(
                #[trigger] items[i],
                items[i],
            ) by {
                lemma_equal_is_reflexive(items[i]);
            }
        },
        JsonView::Object(members) => {
            assert forall|i: int| 0 <= i < members.len() implies member_matches(
                #[trigger] members[i],
                members,
            ) by {
                lemma_key_index(members, members[i].0, 0);
                let found = key_index_from(members, members[i].0, 0);
                assert(found is Some);
                assert(found->0 == i) by {
                    if found->0 < i {
                        assert(members[found->0].0 != members[i].0);
                    }
                }
                lemma_equal_is_reflexive(members[i].1);
            }
        },
        _ => {},
    }
}

/// Setting a member among members with distinct names leaves the names
/// distinct, and the member is found under its name afterwards.
pub proof fn lemma_with_member(members: Seq<(Seq<char>, JsonView)>, key: Seq<char>, value: JsonView)
    requires
        distinct_keys(members),
    ensures
        distinct_keys(with_member(members, key, value)),
        lookup(with_member(members, key, value), key) == Some(value),
        forall|other: Seq<char>|
            other != key ==> lookup(with_member(members, key, value), other) == lookup(
                members,
                other,
            ),
{
    let after = with_member(members, key, value);
    lemma_key_index(members, key, 0);
    lemma_key_index(after, key, 0);
    match key_index_from(members, key, 0) {
        Some(i) => {
            assert(after[i] == (key, value));
            assert forall|a: int, b: int| 0 <= a < b < after.len() implies (#[trigger] after[a]).0
                != (#[trigger] after[b]).0 by {
                assert(members[a].0 != members[b].0);
            }
            let found = key_index_from(after, key, 0);
            assert(found is Some) by {
                if found is None {
                    assert(after[i].0 != key);
                }
            }
            assert(found->0 == i) by {
                if found->0 != i {
                    if found->0 < i {
                        assert(after[found->0].0 != after[i].0);
                    } else {
                        assert(after[i].0 != after[found->0].0);
                    }
                }
            }
        },
        None => {
            let n = members.len() as int;
            assert(after[n] == (key, value));
            assert forall|a: int, b: int| 0 <= a < b < after.len() implies (#[trigger] after[a]).0
                != (#[trigger] after[b]).0 by {
                if b < n {
                    assert(members[a].0 != members[b].0);
                } else {
                    assert(members[a].0 != key);
                }
            }
            let found = key_index_from(after, key, 0);
            assert(found is Some) by {
                if found is None {
                    assert(after[n].0 != key);
                }
            }
            assert(found->0 == n) by {
                if found->0 < n {
                    assert(members[found->0].0 != key);
                }
            }
        },
    }
    assert forall|other: Seq<char>| other != key implies lookup(after, other) == lookup(
        members,
        other,
    ) by {
        lemma_key_index(members, other, 0);
        lemma_key_index(after, other, 0);
        let before_found = key_index_from(members, other, 0);
        let after_found = key_index_from(after, other, 0);
        match before_found {
            Some(k) => {
                assert(after[k] == members[k]);
                assert(after_found is Some) by {
                    if after_found is None {
                        assert(after[k].0 != other);
                    }
                }
                assert(after_found->0 == k) by {
                    let m = after_found->0;
                    if m < k {
                        assert(after[m].0 == other);
                        assert(after[m] == members[m] || after[m] == (key, value));
                        assert(members[m].0 != other);
                    } else if m > k {
                        assert(after[k].0 != other);
                    }
                }
            },
            None => {
                if after_found is Some {
                    let m = after_found->0;
                    assert(after[m].0 == other);
                    if m < members.len() {
                        assert(after[m] == members[m] || after[m] == (key, value));
                        assert(members[m].0 != other);
                    }
                }
            },
        }
    }
}

/// Setting a well-formed value at a path inside a well-formed value gives
/// a well-formed value.
pub proof fn lemma_set_path_is_well_formed(
    value: JsonView,
    path: Seq<Seq<char>>,
    i: int,
    new: JsonView,
)
    requires
        value.well_formed(),
        new.well_formed(),
    ensures
        set_path(value, path, i, new).well_formed(),
    decreases path.len() - i,
{
    if 0 <= i < path.len() {
        match value {
            JsonView::Object(members) => {
                let inner = match lookup(members, path[i]) {
                    Some(v) => v,
                    None => JsonView::Object(Seq::empty()),
                };
                lemma_key_index(members, path[i], 0);
                assert(inner.well_formed()) by {
                    if lookup(members, path[i]) is Some {
                        let k = key_index_from(members, path[i], 0)->0;
                        assert(members[k].1.well_formed());
                    }
                }
                lemma_set_path_is_well_formed(inner, path, i + 1, new);
                let set = set_path(inner, path, i + 1, new);
                lemma_with_member(members, path[i], set);
                let after = with_member(members, path[i], set);
                assert forall|k: int| 0 <= k < after.len() implies (#[trigger] after[k]).1.well_formed() by {
                    if after[k] != (path[i], set) {
                        assert(after[k] == members[k]);
                    }
                }
            },
            _ => {},
        }
    }
}

impl PartialEq for Json {
    fn eq(&self, other: &Json) -> (r: bool) {
        self.equals(other)
    }
}

impl vstd::std_specs::cmp::PartialEqSpecImpl for Json {
    open spec fn obeys_eq_spec() -> bool {
        true
    }

    open spec fn eq_spec(&self, other: &Json) -> bool {
        json_equal(self@, other@)
    }
}

/// Whether two number tokens denote equal numbers.
pub fn numbers_equal(a: &str, b: &str) -> (r: bool)
    ensures
        r == number_equal(a@, b@),
{
    if text_equal(a, b) {
        true
    } else {
        (text_equal(a, "0.0") || text_equal(a, "-0.0")) && (text_equal(b, "0.0") || text_equal(
            b,
            "-0.0",
        ))
    }
}

} // verus!
