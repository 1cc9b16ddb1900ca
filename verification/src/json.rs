//! JSON values as the importer reads them.

use vstd::prelude::*;

verus! {

/// A JSON number: the integer it stands for, when it is one that fits in 64
/// bits with a sign, and the bit pattern of the number in double precision.
/// The two are kept side by side as they were read; neither is worked out
/// from the other here.
#[derive(Clone, Copy, Debug, PartialEq, Eq)]
pub struct JsonNumber {
    pub integer: Option<i64>,
    pub bits: u64,
}

/// A JSON value. An object keeps its members in a list; the first member of a
/// name is the one that counts.
#[derive(Debug, PartialEq)]
pub enum Json {
    Null,
    Boolean(bool),
    Number(JsonNumber),
    Text(String),
    Array(Vec<Json>),
    Object(Vec<(String, Json)>),
}

/// The mathematical value of a [`Json`].
pub ghost enum JsonTree {
    Null,
    Boolean(bool),
    Number(JsonNumber),
    Text(Seq<char>),
    Array(Seq<JsonTree>),
    Object(Seq<(Seq<char>, JsonTree)>),
}

pub open spec fn tree_of(j: Json) -> JsonTree
    decreases j,
{
    match j {
        Json::Null => JsonTree::Null,
        Json::Boolean(b) => JsonTree::Boolean(b),
        Json::Number(n) => JsonTree::Number(n),
        Json::Text(s) => JsonTree::Text(s@),
        Json::Array(items) => JsonTree::Array(
            Seq::new(
                items@.len(),
                |i: int|
                    if 0 <= i < items@.len() {
                        tree_of(items@[i])
                    } else {
                        JsonTree::Null
                    },
            ),
        ),
        Json::Object(members) => JsonTree::Object(
            Seq::new(
                members@.len(),
                |i: int|
                    if 0 <= i < members@.len() {
                        (members@[i].0@, tree_of(members@[i].1))
                    } else {
                        (Seq::empty(), JsonTree::Null)
                    },
            ),
        ),
    }
}

impl View for Json {
    type V = JsonTree;

    open spec fn view(&self) -> JsonTree {
        tree_of(*self)
    }
}

/// The first member called `key` among `members`, looking from position `from` on.
pub open spec fn member_from(members: Seq<(Seq<char>, JsonTree)>, key: Seq<char>, from: int) -> Option<JsonTree>
    decreases members.len() - from,
{
    if from < 0 || from >= members.len() {
        None
    } else if members[from].0 == key {
        Some(members[from].1)
    } else {
        member_from(members, key, from + 1)
    }
}

/// The values of a list of [`Json`], in order.
pub open spec fn trees(items: Seq<Json>) -> Seq<JsonTree> {
    Seq::new(items.len(), |i: int| items[i]@)
}

/// The names and values of a list of members, in order.
pub open spec fn member_trees(members: Seq<(String, Json)>) -> Seq<(Seq<char>, JsonTree)> {
    Seq::new(members.len(), |i: int| (members[i].0@, members[i].1@))
}

impl JsonTree {
    /// The member called `key` of an object; nothing has members but an object.
    pub open spec fn field(self, key: Seq<char>) -> Option<JsonTree> {
        match self {
            JsonTree::Object(members) => member_from(members, key, 0),
            _ => None,
        }
    }

    /// The characters of a string.
    pub open spec fn text(self) -> Option<Seq<char>> {
        match self {
            JsonTree::Text(s) => Some(s),
            _ => None,
        }
    }

    /// The integer that a number stands for, when it fits in 64 bits with a sign.
    pub open spec fn integer(self) -> Option<i64> {
        match self {
            JsonTree::Number(n) => n.integer,
            _ => None,
        }
    }

    /// The bit pattern of a number taken in double precision.
    pub open spec fn number(self) -> Option<u64> {
        match self {
            JsonTree::Number(n) => Some(n.bits),
            _ => None,
        }
    }

    /// The truth value of `true` or `false`.
    pub open spec fn boolean(self) -> Option<bool> {
        match self {
            JsonTree::Boolean(b) => Some(b),
            _ => None,
        }
    }

    /// The elements of an array.
    pub open spec fn items(self) -> Option<Seq<JsonTree>> {
        match self {
            JsonTree::Array(items) => Some(items),
            _ => None,
        }
    }

    /// The members of an object, in the order it holds them.
    pub open spec fn members(self) -> Option<Seq<(Seq<char>, JsonTree)>> {
        match self {
            JsonTree::Object(members) => Some(members),
            _ => None,
        }
    }
}

/// Whether two texts are the same.
pub fn same_text(a: &str, b: &str) -> (r: bool)
    ensures
        r == (a@ == b@),
{
    let x: String = a.to_owned();
    let y: String = b.to_owned();
    x == y
}

impl Json {
    /// The member called `key`, if this is an object that has one.
    pub fn get(&self, key: &str) -> (r: Option<&Json>)
        ensures
            match r {
                Some(j) => self@.field(key@) == Some(j@),
                None => self@.field(key@) is None,
            },
    {
        match self {
            Json::Object(members) => {
                let mut i: usize = 0;
                while i < members.len()
                    invariant
                        i <= members.len(),
                        self@ == JsonTree::Object(self@->Object_0),
                        self@->Object_0.len() == members@.len(),
                        forall|k: int|
                            0 <= k < members@.len() ==> #[trigger] self@->Object_0[k] == (
                                members@[k].0@,
                                members@[k].1@,
                            ),
                        member_from(self@->Object_0, key@, 0) == member_from(
                            self@->Object_0,
                            key@,
                            i as int,
                        ),
                    decreases members.len() - i,
                {
                    if same_text(members[i].0.as_str(), key) {
                        return Some(&members[i].1);
                    }
                    i += 1;
                }
                None
            },
            _ => None,
        }
    }

    /// The string, if this is one.
    pub fn as_text(&self) -> (r: Option<&String>)
        ensures
            match r {
                Some(s) => self@.text() == Some(s@),
                None => self@.text() is None,
            },
    {
        match self {
            Json::Text(s) => Some(s),
            _ => None,
        }
    }

    /// The integer, if this is a number that stands for one.
    pub fn as_integer(&self) -> (r: Option<i64>)
        ensures
            r == self@.integer(),
    {
        match self {
            Json::Number(n) => n.integer,
            _ => None,
        }
    }

    /// The double-precision bit pattern, if this is a number.
    pub fn as_number(&self) -> (r: Option<u64>)
        ensures
            r == self@.number(),
    {
        match self {
            Json::Number(n) => Some(n.bits),
            _ => None,
        }
    }

    /// The truth value, if this is `true` or `false`.
    pub fn as_boolean(&self) -> (r: Option<bool>)
        ensures
            r == self@.boolean(),
    {
        match self {
            Json::Boolean(b) => Some(*b),
            _ => None,
        }
    }

    /// The elements, if this is an array.
    pub fn as_array(&self) -> (r: Option<&Vec<Json>>)
        ensures
            match r {
                Some(items) => self@.items() == Some(trees(items@)),
                None => self@.items() is None,
            },
    {
        match self {
            Json::Array(items) => {
                assert(self@->Array_0 =~= trees(items@));
                Some(items)
            },
            _ => None,
        }
    }

    /// The members, if this is an object.
    pub fn as_object(&self) -> (r: Option<&Vec<(String, Json)>>)
        ensures
            match r {
                Some(members) => self@.members() == Some(member_trees(members@)),
                None => self@.members() is None,
            },
    {
        match self {
            Json::Object(members) => {
                assert(self@->Object_0 =~= member_trees(members@));
                Some(members)
            },
            _ => None,
        }
    }
}

} // verus!
