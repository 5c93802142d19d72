//! JSON values as plain data, and their mathematical model.

use vstd::prelude::*;

verus! {

/// A JSON number: an integer given without sign, an integer given with
/// one, or a binary64 float given by its bit pattern.
#[derive(Debug, Clone, Copy, PartialEq, Eq, Structural)]
pub enum Number {
    PosInt(u64),
    NegInt(i64),
    Float(u64),
}

impl Number {
    /// The integer that the number stands for; a float stands for none.
    pub open spec fn as_int(self) -> Option<int> {
        match self {
            Number::PosInt(n) => Some(n as int),
            Number::NegInt(n) => Some(n as int),
            Number::Float(_) => None,
        }
    }
}

/// A JSON value. An object keeps its members in the order given.
#[derive(Debug, PartialEq, Eq)]
pub enum Json {
    Null,
    Bool(bool),
    Number(Number),
    String(String),
    Array(Vec<Json>),
    Object(Vec<(String, Json)>),
}

/// The model of a JSON value: strings by their characters, arrays and
/// member lists as sequences.
pub enum JsonView {
    Null,
    Bool(bool),
    Number(Number),
    String(Seq<char>),
    Array(Seq<JsonView>),
    Object(Seq<(Seq<char>, JsonView)>),
}

impl View for Json {
    type V = JsonView;

    open spec fn view(&self) -> JsonView
        decreases self,
    {
        match self {
            Json::Null => JsonView::Null,
            Json::Bool(b) => JsonView::Bool(*b),
            Json::Number(n) => JsonView::Number(*n),
            Json::String(s) => JsonView::String(s@),
            Json::Array(items) => JsonView::Array(
                Seq::new(
                    items@.len(),
                    |i: int|
                        if 0 <= i < items@.len() {
                            items@[i].view()
                        } else {
                            JsonView::Null
                        },
                ),
            ),
            Json::Object(members) => JsonView::Object(
                Seq::new(
                    members@.len(),
                    |i: int|
                        if 0 <= i < members@.len() {
                            (members@[i].0@, members@[i].1.view())
                        } else {
                            (Seq::empty(), JsonView::Null)
                        },
                ),
            ),
        }
    }
}

/// The value of the last member of that name in a member list, if there
/// is one: where a name is given twice, the later value stands.
pub open spec fn find_member(members: Seq<(Seq<char>, JsonView)>, name: Seq<char>) -> Option<
    JsonView,
>
    decreases members.len(),
{
    if members.len() == 0 {
        None
    } else if members.last().0 == name {
        Some(members.last().1)
    } else {
        find_member(members.drop_last(), name)
    }
}

/// A member added at the end of a member list changes what is found
/// under its own name, and nothing else.
pub proof fn lemma_member_after_push(
    members: Seq<(Seq<char>, JsonView)>,
    name: Seq<char>,
    value: JsonView,
    wanted: Seq<char>,
)
    ensures
        find_member(members.push((name, value)), wanted) == if name == wanted {
            Some(value)
        } else {
            find_member(members, wanted)
        },
{
    assert(members.push((name, value)).drop_last() =~= members);
}

impl JsonView {
    /// The member of that name, if the value is an object that has one.
    pub open spec fn member(self, name: Seq<char>) -> Option<JsonView> {
        match self {
            JsonView::Object(members) => find_member(members, name),
            _ => None,
        }
    }
}

/// The model of an array has the models of its items, in order.
pub proof fn lemma_array_view(json: &Json)
    requires
        json is Array,
    ensures
        json@ is Array,
        json@->Array_0.len() == json->Array_0@.len(),
        forall|i: int|
            0 <= i < json->Array_0@.len() ==> json@->Array_0[i] == (#[trigger] json->Array_0@[i])@,
{
    reveal_with_fuel(<Json as View>::view, 2);
}

/// The model of an object has the names and the models of its members,
/// in order.
pub proof fn lemma_object_view(json: &Json)
    requires
        json is Object,
    ensures
        json@ is Object,
        json@->Object_0.len() == json->Object_0@.len(),
        forall|i: int|
            0 <= i < json->Object_0@.len() ==> json@->Object_0[i] == (
                (#[trigger] json->Object_0@[i]).0@,
                json->Object_0@[i].1@,
            ),
{
    reveal_with_fuel(<Json as View>::view, 2);
}

impl Json {
    /// The member of that name, if the value is an object that has one.
    pub fn get(&self, name: &str) -> (r: Option<&Json>)
        ensures
            match r {
                Some(j) => self@.member(name@) == Some(j@),
                None => self@.member(name@).is_none(),
            },
    {
        match self {
            Json::Object(members) => {
                let wanted = String::from_str(name);
                let ghost all = self@->Object_0;
                let mut i: usize = members.len();
                proof {
                    lemma_object_view(self);
                    assert(all.take(i as int) =~= all);
                }
                while i > 0
                    invariant
                        i <= members@.len(),
                        wanted@ == name@,
                        self@ == JsonView::Object(all),
                        all.len() == members@.len(),
                        forall|k: int|
                            0 <= k < all.len() ==> all[k] == (
                                (#[trigger] members@[k]).0@,
                                members@[k].1@,
                            ),
                        find_member(all, name@) == find_member(all.take(i as int), name@),
                    decreases i,
                {
                    i = i - 1;
                    proof {
                        let upto = all.take(i + 1);
                        assert(upto.last() == all[i as int]);
                        assert(upto.drop_last() =~= all.take(i as int));
                    }
                    if members[i].0 == wanted {
                        return Some(&members[i].1);
                    }
                }
                proof {
                    assert(all.take(0).len() == 0);
                }
                None
            },
            _ => None,
        }
    }
}

} // verus!
