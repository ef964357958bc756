//! Structured values: the data gathered while a plan runs, the variables of a
//! request and the responses of backend services.

use crate::path::part;
use crate::path::Path;
use crate::path::PathElement;
use crate::path::Segment;
use vstd::prelude::*;

verus! {

/// The mathematical model of a structured value. The members of an object
/// keep their order.
pub enum Json {
    Null,
    Bool(bool),
    Number(int),
    String(Seq<char>),
    Array(Seq<Json>),
    Object(Seq<JsonMember>),
}

/// The model of a member of an object.
pub struct JsonMember {
    pub key: Seq<char>,
    pub value: Json,
}

/// A structured value.
#[derive(Debug)]
pub enum Value {
    Null,
    Bool(bool),
    Number(i64),
    String(String),
    Array(Vec<Value>),
    Object(Vec<Member>),
}

/// A member of an object: a key and the value under it.
#[derive(Debug)]
pub struct Member {
    pub key: String,
    pub value: Value,
}

impl View for Value {
    type V = Json;

    open spec fn view(&self) -> Json
        decreases self,
    {
        match self {
            Value::Null => Json::Null,
            Value::Bool(b) => Json::Bool(*b),
            Value::Number(n) => Json::Number(*n as int),
            Value::String(s) => Json::String(s@),
            Value::Array(items) => Json::Array(
                Seq::new(
                    items@.len(),
                    |i: int|
                        if 0 <= i < items@.len() {
                            items@[i]@
                        } else {
                            Json::Null
                        },
                ),
            ),
            Value::Object(members) => Json::Object(
                Seq::new(
                    members@.len(),
                    |i: int|
                        if 0 <= i < members@.len() {
                            JsonMember { key: members@[i].key@, value: members@[i].value@ }
                        } else {
                            JsonMember { key: Seq::empty(), value: Json::Null }
                        },
                ),
            ),
        }
    }
}

/// The models of a list of values.
pub open spec fn items_view(items: Seq<Value>) -> Seq<Json> {
    Seq::new(items.len(), |i: int| items[i]@)
}

/// The models of a list of members.
pub open spec fn members_view(members: Seq<Member>) -> Seq<JsonMember> {
    Seq::new(members.len(), |i: int| JsonMember { key: members[i].key@, value: members[i].value@ })
}

/// The model of an array is the list of the models of its items.
pub proof fn array_view(items: Vec<Value>)
    ensures
        Value::Array(items)@ == Json::Array(items_view(items@)),
{
    assert(Value::Array(items)@->Array_0 =~= items_view(items@));
}

/// The model of an object is the list of the models of its members.
pub proof fn object_view(members: Vec<Member>)
    ensures
        Value::Object(members)@ == Json::Object(members_view(members@)),
{
    assert(Value::Object(members)@->Object_0 =~= members_view(members@));
}

impl Clone for Value {
    fn clone(&self) -> (res: Self)
        ensures
            res@ == self@,
        decreases self,
    {
        match self {
            Value::Null => Value::Null,
            Value::Bool(b) => Value::Bool(*b),
            Value::Number(n) => Value::Number(*n),
            Value::String(s) => Value::String(s.clone()),
            Value::Array(items) => {
                let mut copy: Vec<Value> = Vec::new();
                let mut i: usize = 0;
                while i < items.len()
                    invariant
                        i <= items.len(),
                        copy@.len() == i,
                        forall|j: int| 0 <= j < i ==> (#[trigger] copy@[j])@ == items@[j]@,
                        *self == Value::Array(*items),
                    decreases items.len() - i,
                {
                    proof {
                        assert(decreases_to!(*self => self->Array_0));
                        assert(decreases_to!(*items => items@[i as int]));
                    }
                    let item = items[i].clone();
                    copy.push(item);
                    i = i + 1;
                }
                proof {
                    array_view(*items);
                    array_view(copy);
                    assert(items_view(copy@) =~= items_view(items@));
                }
                Value::Array(copy)
            },
            Value::Object(members) => {
                let mut copy: Vec<Member> = Vec::new();
                let mut i: usize = 0;
                while i < members.len()
                    invariant
                        i <= members.len(),
                        copy@.len() == i,
                        forall|j: int|
                            0 <= j < i ==> (#[trigger] copy@[j]).key@ == members@[j].key@
                                && copy@[j].value@ == members@[j].value@,
                        *self == Value::Object(*members),
                    decreases members.len() - i,
                {
                    let key = members[i].key.clone();
                    proof {
                        assert(decreases_to!(*self => self->Object_0));
                        assert(decreases_to!(*members => members@[i as int]));
                    }
                    let value = members[i].value.clone();
                    copy.push(Member { key, value });
                    i = i + 1;
                }
                proof {
                    object_view(*members);
                    object_view(copy);
                    assert(members_view(copy@) =~= members_view(members@));
                }
                Value::Object(copy)
            },
        }
    }
}

/// The index of the member under `key`: that of the last member with this
/// key, so a later member replaces an earlier one.
pub open spec fn member_index(members: Seq<JsonMember>, key: Seq<char>) -> Option<int>
    decreases members.len(),
{
    if members.len() == 0 {
        None
    } else if members.last().key == key {
        Some(members.len() - 1)
    } else {
        member_index(members.drop_last(), key)
    }
}

/// Where `member_index` finds a member, it is one of the members and has the key.
pub proof fn member_index_is_within(members: Seq<JsonMember>, key: Seq<char>)
    ensures
        member_index(members, key) matches Some(i) ==> 0 <= i < members.len() && members[i].key
            == key,
    decreases members.len(),
{
    if members.len() > 0 && members.last().key != key {
        member_index_is_within(members.drop_last(), key);
    }
}

/// Where a member is found under `key`, it is still found there after its
/// value is replaced.
pub proof fn member_index_after_update(
    members: Seq<JsonMember>,
    index: int,
    key: Seq<char>,
    value: Json,
)
    requires
        member_index(members, key) == Some(index),
    ensures
        0 <= index < members.len(),
        member_index(members.update(index, JsonMember { key, value }), key) == Some(index),
    decreases members.len(),
{
    member_index_is_within(members, key);
    let updated = members.update(index, JsonMember { key, value });
    if index != members.len() - 1 {
        assert(updated.drop_last() =~= members.drop_last().update(index, JsonMember { key, value }));
        member_index_after_update(members.drop_last(), index, key, value);
    }
}

/// Replacing the value of one member does not change which member is found
/// under another key.
pub proof fn member_index_of_another_key(
    members: Seq<JsonMember>,
    index: int,
    key: Seq<char>,
    value: Json,
    other: Seq<char>,
)
    requires
        0 <= index < members.len(),
        members[index].key == key,
        other != key,
    ensures
        member_index(members.update(index, JsonMember { key, value }), other) == member_index(
            members,
            other,
        ),
    decreases members.len(),
{
    let updated = members.update(index, JsonMember { key, value });
    if index == members.len() - 1 {
        assert(updated.drop_last() =~= members.drop_last());
    } else {
        assert(updated.drop_last() =~= members.drop_last().update(index, JsonMember { key, value }));
        if members.last().key != other {
            member_index_of_another_key(members.drop_last(), index, key, value, other);
        }
    }
}

/// `count` items that are all null.
pub open spec fn nulls(count: nat) -> Seq<Json> {
    Seq::new(count, |i: int| Json::Null)
}

impl Json {
    /// The object without members.
    pub open spec fn empty_object() -> Json {
        Json::Object(Seq::empty())
    }

    /// The members of this value: those of an object, none of any other value.
    pub open spec fn members(self) -> Seq<JsonMember> {
        match self {
            Json::Object(members) => members,
            _ => Seq::empty(),
        }
    }

    /// The items of this value: those of an array, none of any other value.
    pub open spec fn items(self) -> Seq<Json> {
        match self {
            Json::Array(items) => items,
            _ => Seq::empty(),
        }
    }

    /// The value one step into this one: the member of an object under a
    /// key, or the item of an array at an index.
    pub open spec fn child(self, segment: Segment) -> Option<Json> {
        match segment {
            Segment::Key(key) => match member_index(self.members(), key) {
                Some(i) => Some(self.members()[i].value),
                None => None,
            },
            Segment::Index(index) => if index < self.items().len() {
                Some(self.items()[index as int])
            } else {
                None
            },
        }
    }

    /// The value that `path` leads to from this one, if each step exists.
    pub open spec fn at(self, path: Seq<Segment>) -> Option<Json>
        decreases path.len(),
    {
        if path.len() == 0 {
            Some(self)
        } else {
            match self.child(path[0]) {
                Some(child) => child.at(path.drop_first()),
                None => None,
            }
        }
    }

    /// This value with `value` put where `path` leads. What the path passes
    /// through is kept; what it needs and does not find is made: an object
    /// for a key, with the member added last, and an array for an index,
    /// filled up with nulls. A value of another shape that stands in the way
    /// is replaced.
    pub open spec fn with_at(self, path: Seq<Segment>, value: Json) -> Json
        decreases path.len(),
    {
        if path.len() == 0 {
            value
        } else {
            let rest = path.drop_first();
            match path[0] {
                Segment::Key(key) => {
                    let members = self.members();
                    match member_index(members, key) {
                        Some(i) => Json::Object(
                            members.update(
                                i,
                                JsonMember { key, value: members[i].value.with_at(rest, value) },
                            ),
                        ),
                        None => Json::Object(
                            members.push(JsonMember { key, value: Json::Null.with_at(rest, value) }),
                        ),
                    }
                },
                Segment::Index(index) => {
                    let items = self.items();
                    if index < items.len() {
                        Json::Array(
                            items.update(index as int, items[index as int].with_at(rest, value)),
                        )
                    } else {
                        Json::Array(
                            (items + nulls((index - items.len()) as nat)).push(
                                Json::Null.with_at(rest, value),
                            ),
                        )
                    }
                },
            }
        }
    }
}

impl Json {
    /// What is put at a path is found there.
    pub proof fn with_at_then_at(self, path: Seq<Segment>, value: Json)
        ensures
            self.with_at(path, value).at(path) == Some(value),
        decreases path.len(),
    {
        if path.len() > 0 {
            let rest = path.drop_first();
            let put = self.with_at(path, value);
            match path[0] {
                Segment::Key(key) => {
                    let members = self.members();
                    match member_index(members, key) {
                        Some(i) => {
                            let below = members[i].value.with_at(rest, value);
                            member_index_after_update(members, i, key, below);
                            members[i].value.with_at_then_at(rest, value);
                            assert(put.child(path[0]) == Some(below));
                        },
                        None => {
                            let below = Json::Null.with_at(rest, value);
                            let added = members.push(JsonMember { key, value: below });
                            assert(added.last().key == key);
                            Json::Null.with_at_then_at(rest, value);
                            assert(put.child(path[0]) == Some(below));
                        },
                    }
                },
                Segment::Index(index) => {
                    let items = self.items();
                    if index < items.len() {
                        items[index as int].with_at_then_at(rest, value);
                    } else {
                        Json::Null.with_at_then_at(rest, value);
                    }
                },
            }
        }
    }
}

impl Json {
    /// What is put at one path leaves what another path leads to, where the
    /// two paths part.
    pub proof fn with_at_keeps_what_lies_apart(
        self,
        path: Seq<Segment>,
        value: Json,
        other: Seq<Segment>,
    )
        requires
            part(path, other),
            self.at(other) is Some,
        ensures
            self.with_at(path, value).at(other) == self.at(other),
        decreases path.len(),
    {
        let rest = path.drop_first();
        let put = self.with_at(path, value);
        match path[0] {
            Segment::Key(key) => {
                let members = self.members();
                let wanted = other[0]->Key_0;
                member_index_is_within(members, wanted);
                let found = member_index(members, wanted)->0;
                match member_index(members, key) {
                    Some(i) => {
                        let below = members[i].value.with_at(rest, value);
                        member_index_is_within(members, key);
                        if key == wanted {
                            member_index_after_update(members, i, key, below);
                            members[i].value.with_at_keeps_what_lies_apart(
                                rest,
                                value,
                                other.drop_first(),
                            );
                        } else {
                            member_index_of_another_key(members, i, key, below, wanted);
                        }
                    },
                    None => {
                        let below = Json::Null.with_at(rest, value);
                        let added = members.push(JsonMember { key, value: below });
                        assert(added.drop_last() =~= members);
                        assert(put.child(other[0]) == Some(members[found].value));
                    },
                }
            },
            Segment::Index(index) => {
                let items = self.items();
                if path[0] == other[0] {
                    items[index as int].with_at_keeps_what_lies_apart(
                        rest,
                        value,
                        other.drop_first(),
                    );
                }
            },
        }
    }
}

/// Finds the member under `key`.
pub fn find_member(members: &Vec<Member>, key: &String) -> (res: Option<usize>)
    ensures
        match res {
            Some(i) => member_index(members_view(members@), key@) == Some(i as int) && i
                < members@.len(),
            None => member_index(members_view(members@), key@) is None,
        },
{
    let ghost all = members_view(members@);
    let mut i: usize = members.len();
    assert(all.take(i as int) =~= all);
    while i > 0
        invariant
            i <= members.len(),
            all == members_view(members@),
            member_index(all, key@) == member_index(all.take(i as int), key@),
        decreases i,
    {
        i = i - 1;
        proof {
            let upto = all.take(i as int + 1);
            assert(upto.drop_last() =~= all.take(i as int));
            assert(upto.last() == all[i as int]);
        }
        if members[i].key == *key {
            return Some(i);
        }
    }
    None
}

impl Value {
    /// The object without members.
    pub fn empty_object() -> (res: Value)
        ensures
            res@ == Json::empty_object(),
    {
        let members: Vec<Member> = Vec::new();
        proof {
            object_view(members);
            assert(members_view(members@) =~= Seq::<JsonMember>::empty());
        }
        Value::Object(members)
    }

    /// Whether this value is null.
    pub fn is_null(&self) -> (res: bool)
        ensures
            res == (self@ is Null),
    {
        match self {
            Value::Null => true,
            _ => false,
        }
    }

    /// The value one step into this one.
    pub fn get(&self, element: &PathElement) -> (res: Option<&Value>)
        ensures
            match res {
                Some(child) => self@.child(element@) == Some(child@),
                None => self@.child(element@) is None,
            },
    {
        match element {
            PathElement::Key(key) => match self {
                Value::Object(members) => {
                    proof {
                        object_view(*members);
                    }
                    match find_member(members, key) {
                        Some(i) => Some(&members[i].value),
                        None => None,
                    }
                },
                _ => None,
            },
            PathElement::Index(index) => match self {
                Value::Array(items) => {
                    proof {
                        array_view(*items);
                    }
                    if *index < items.len() {
                        Some(&items[*index])
                    } else {
                        None
                    }
                },
                _ => None,
            },
        }
    }

    /// The value that `path` leads to from this one.
    pub fn get_path(&self, path: &Path) -> (res: Option<&Value>)
        ensures
            match res {
                Some(found) => self@.at(path@) == Some(found@),
                None => self@.at(path@) is None,
            },
    {
        let mut current: &Value = self;
        let mut i: usize = 0;
        assert(path@.skip(0) =~= path@);
        while i < path.elements.len()
            invariant
                i <= path.elements.len(),
                self@.at(path@) == current@.at(path@.skip(i as int)),
            decreases path.elements.len() - i,
        {
            proof {
                assert(path@.skip(i as int).drop_first() =~= path@.skip(i as int + 1));
                assert(path@.skip(i as int)[0] == path.elements@[i as int]@);
            }
            match current.get(&path.elements[i]) {
                Some(child) => {
                    current = child;
                },
                None => {
                    return None;
                },
            }
            i = i + 1;
        }
        Some(current)
    }

    /// This value with `value` put where `path` leads.
    pub fn insert(self, path: &Path, value: Value) -> (res: Value)
        ensures
            res@ == self@.with_at(path@, value@),
    {
        assert(path@.skip(0) =~= path@);
        self.insert_from(path, 0, value)
    }

    /// This value with `value` put where the steps of `path` from `from` on lead.
    fn insert_from(self, path: &Path, from: usize, value: Value) -> (res: Value)
        requires
            from <= path.elements@.len(),
        ensures
            res@ == self@.with_at(path@.skip(from as int), value@),
        decreases path.elements@.len() - from,
    {
        if from >= path.elements.len() {
            return value;
        }
        let ghost steps = path@.skip(from as int);
        proof {
            assert(steps.drop_first() =~= path@.skip(from as int + 1));
            assert(steps[0] == path.elements@[from as int]@);
        }
        match &path.elements[from] {
            PathElement::Key(key) => {
                let mut members: Vec<Member> = match self {
                    Value::Object(members) => {
                        proof {
                            object_view(members);
                        }
                        members
                    },
                    _ => {
                        let members: Vec<Member> = Vec::new();
                        assert(members_view(members@) =~= self@.members());
                        members
                    },
                };
                let ghost before = members@;
                assert(members_view(before) == self@.members());
                match find_member(&members, key) {
                    Some(i) => {
                        let old = members.remove(i);
                        let child = old.value.insert_from(path, from + 1, value);
                        members.insert(i, Member { key: key.clone(), value: child });
                        proof {
                            object_view(members);
                            assert(members_view(members@) =~= members_view(before).update(
                                i as int,
                                JsonMember { key: key@, value: child@ },
                            ));
                        }
                    },
                    None => {
                        let child = Value::Null.insert_from(path, from + 1, value);
                        members.push(Member { key: key.clone(), value: child });
                        proof {
                            object_view(members);
                            assert(members_view(members@) =~= members_view(before).push(
                                JsonMember { key: key@, value: child@ },
                            ));
                        }
                    },
                }
                Value::Object(members)
            },
            PathElement::Index(index) => {
                let mut items: Vec<Value> = match self {
                    Value::Array(items) => {
                        proof {
                            array_view(items);
                        }
                        items
                    },
                    _ => {
                        let items: Vec<Value> = Vec::new();
                        assert(items_view(items@) =~= self@.items());
                        items
                    },
                };
                let ghost before = items@;
                assert(items_view(before) == self@.items());
                if *index < items.len() {
                    let old = items.remove(*index);
                    let child = old.insert_from(path, from + 1, value);
                    items.insert(*index, child);
                    proof {
                        array_view(items);
                        assert(items_view(items@) =~= items_view(before).update(
                            *index as int,
                            child@,
                        ));
                    }
                } else {
                    while items.len() < *index
                        invariant
                            before.len() <= items@.len() <= *index,
                            items_view(items@) == items_view(before) + nulls(
                                (items@.len() - before.len()) as nat,
                            ),
                        decreases *index - items.len(),
                    {
                        let ghost filled = items@;
                        items.push(Value::Null);
                        proof {
                            assert(Value::Null@ == Json::Null);
                            let wanted = items_view(before) + nulls(
                                (items@.len() - before.len()) as nat,
                            );
                            assert forall|j: int| 0 <= j < items@.len() implies items_view(
                                items@,
                            )[j] == wanted[j] by {
                                if j < filled.len() {
                                    assert(items_view(items@)[j] == items_view(filled)[j]);
                                }
                            }
                            assert(items_view(items@) =~= wanted);
                        }
                    }
                    let ghost filled = items@;
                    let child = Value::Null.insert_from(path, from + 1, value);
                    items.push(child);
                    proof {
                        array_view(items);
                        assert(items_view(items@) =~= (items_view(before) + nulls(
                            (*index - before.len()) as nat,
                        )).push(child@));
                    }
                }
                Value::Array(items)
            },
        }
    }
}

} // verus!
