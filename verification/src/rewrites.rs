//! Rewrite rules, which adapt the shape of data between the representation
//! of the supergraph and that of a service.

use crate::json::find_member;
use crate::json::member_index;
use crate::json::members_view;
use crate::json::object_view;
use crate::json::Json;
use crate::json::JsonMember;
use crate::json::Member;
use crate::json::Value;
use crate::path::Path;
use crate::path::PathElement;
use crate::path::Segment;
use vstd::prelude::*;

verus! {

/// The mathematical model of a rewrite rule.
pub enum Rewrite {
    ValueSetter { path: Seq<Segment>, set_value_to: Json },
    KeyRenamer { path: Seq<Segment>, rename_key_to: Seq<char> },
}

/// A rewrite rule.
#[derive(Debug)]
pub enum DataRewrite {
    /// Replaces the value that `path` leads to.
    ValueSetter { path: Path, set_value_to: Value },
    /// Renames the key of the member that `path` leads to.
    KeyRenamer { path: Path, rename_key_to: String },
}

impl View for DataRewrite {
    type V = Rewrite;

    open spec fn view(&self) -> Rewrite {
        match self {
            DataRewrite::ValueSetter { path, set_value_to } => Rewrite::ValueSetter {
                path: path@,
                set_value_to: set_value_to@,
            },
            DataRewrite::KeyRenamer { path, rename_key_to } => Rewrite::KeyRenamer {
                path: path@,
                rename_key_to: rename_key_to@,
            },
        }
    }
}

/// The models of a list of rules.
pub open spec fn rules_view(rules: Seq<DataRewrite>) -> Seq<Rewrite> {
    Seq::new(rules.len(), |i: int| rules[i]@)
}

/// `members` with the key of the member at `index` changed to `key`.
pub open spec fn renamed(members: Seq<JsonMember>, index: int, key: Seq<char>) -> Seq<JsonMember> {
    members.update(index, JsonMember { key, value: members[index].value })
}

impl Json {
    /// This value after one rule.
    /// A value setter replaces the value that its path leads to; where the
    /// path leads nowhere, nothing changes.
    /// A key renamer, whose path ends in a key, gives the member that its path
    /// leads to the new key; where the path leads to no member, nothing
    /// changes.
    pub open spec fn rewritten(self, rule: Rewrite) -> Json {
        match rule {
            Rewrite::ValueSetter { path, set_value_to } => {
                if self.at(path) is Some {
                    self.with_at(path, set_value_to)
                } else {
                    self
                }
            },
            Rewrite::KeyRenamer { path, rename_key_to } => {
                if path.len() > 0 && path.last() is Key && self.at(path.drop_last()) is Some {
                    let parent = self.at(path.drop_last())->0;
                    match member_index(parent.members(), path.last()->Key_0) {
                        Some(i) => self.with_at(
                            path.drop_last(),
                            Json::Object(renamed(parent.members(), i, rename_key_to)),
                        ),
                        None => self,
                    }
                } else {
                    self
                }
            },
        }
    }

    /// This value after the rules, applied in order.
    pub open spec fn rewritten_all(self, rules: Seq<Rewrite>) -> Json
        decreases rules.len(),
    {
        if rules.len() == 0 {
            self
        } else {
            self.rewritten_all(rules.drop_last()).rewritten(rules.last())
        }
    }
}

/// The members with the key of the member at `index` changed to `key`.
fn rename_member(members: &Vec<Member>, index: usize, key: &String) -> (res: Vec<Member>)
    requires
        index < members@.len(),
    ensures
        members_view(res@) == renamed(members_view(members@), index as int, key@),
{
    let mut res: Vec<Member> = Vec::new();
    let mut i: usize = 0;
    while i < members.len()
        invariant
            i <= members@.len(),
            index < members@.len(),
            res@.len() == i,
            forall|j: int|
                0 <= j < i ==> (#[trigger] res@[j]).value@ == members@[j].value@ && res@[j].key@ == (
                if j == index {
                    key@
                } else {
                    members@[j].key@
                }),
        decreases members.len() - i,
    {
        let name = if i == index {
            key.clone()
        } else {
            members[i].key.clone()
        };
        res.push(Member { key: name, value: members[i].value.clone() });
        i = i + 1;
    }
    assert(members_view(res@) =~= renamed(members_view(members@), index as int, key@));
    res
}

impl Value {
    /// Applies one rule.
    pub fn apply_rewrite(self, rule: &DataRewrite) -> (res: Value)
        ensures
            res@ == self@.rewritten(rule@),
    {
        match rule {
            DataRewrite::ValueSetter { path, set_value_to } => {
                if self.get_path(path).is_some() {
                    self.insert(path, set_value_to.clone())
                } else {
                    self
                }
            },
            DataRewrite::KeyRenamer { path, rename_key_to } => {
                let count = path.elements.len();
                if count == 0 {
                    return self;
                }
                let key = match &path.elements[count - 1] {
                    PathElement::Key(key) => key,
                    PathElement::Index(_) => {
                        return self;
                    },
                };
                let above = path.prefix_then(count - 1, &Path::empty());
                assert(above@ =~= path@.drop_last());
                assert(path@.last() == Segment::Key(key@));
                let replacement = match self.get_path(&above) {
                    Some(Value::Object(members)) => {
                        proof {
                            object_view(*members);
                        }
                        match find_member(members, key) {
                            Some(i) => {
                                let changed = rename_member(members, i, rename_key_to);
                                proof {
                                    object_view(changed);
                                }
                                Some(Value::Object(changed))
                            },
                            None => None,
                        }
                    },
                    Some(_) => None,
                    None => None,
                };
                match replacement {
                    Some(object) => self.insert(&above, object),
                    None => self,
                }
            },
        }
    }

    /// Applies the rules in order.
    pub fn apply_rewrites(self, rules: &Vec<DataRewrite>) -> (res: Value)
        ensures
            res@ == self@.rewritten_all(rules_view(rules@)),
    {
        let ghost all = rules_view(rules@);
        let ghost start = self@;
        let mut current = self;
        let mut i: usize = 0;
        assert(all.take(0) =~= Seq::<Rewrite>::empty());
        while i < rules.len()
            invariant
                i <= rules@.len(),
                all == rules_view(rules@),
                current@ == start.rewritten_all(all.take(i as int)),
            decreases rules.len() - i,
        {
            proof {
                let upto = all.take(i as int + 1);
                assert(upto.drop_last() =~= all.take(i as int));
                assert(upto.last() == rules@[i as int]@);
            }
            current = current.apply_rewrite(&rules[i]);
            i = i + 1;
        }
        assert(all.take(i as int) =~= all);
        current
    }
}

} // verus!
