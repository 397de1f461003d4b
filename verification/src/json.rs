//! JSON documents as trees of plain values.
//!
//! Reading and writing the text of a document is the work of `serde_json`.
//! What a document holds is visible here, so that the functions that take
//! records out of documents and put them in can be proved.
use crate::trusted::{
    json_from_value, json_parse, json_text, parse_value, render_value, value_from_json,
};
use vstd::prelude::*;

verus! {

/// A JSON document, as a tree of plain values.
#[derive(Debug, PartialEq)]
pub enum Json {
    Null,
    Bool(bool),
    /// A number that is a whole number within the range of `i64`.
    Int(i64),
    /// Any other number, kept as the parser produced it. The readers of
    /// whole numbers look at `Int` only. That a number read from a text is an
    /// `Int` wherever it fits one is the work of the conversion in
    /// [`crate::trusted`], and is assumed with it, not proved.
    Number(serde_json::Number),
    String(String),
    Array(Vec<Json>),
    /// The members of an object, in the order of the document.
    Object(Vec<(String, Json)>),
}

/// The mathematical value of a [`Json`] document.
pub enum JsonView {
    Null,
    Bool(bool),
    Int(int),
    Number(serde_json::Number),
    String(Seq<char>),
    Array(Seq<JsonView>),
    Object(Seq<(Seq<char>, JsonView)>),
}

/// Whether `i` is the place of the first member called `key`.
pub open spec fn is_first_member(
    members: Seq<(Seq<char>, JsonView)>,
    key: Seq<char>,
    i: int,
) -> bool {
    &&& 0 <= i < members.len()
    &&& members[i].0 == key
    &&& forall|k: int| 0 <= k < i ==> (#[trigger] members[k]).0 != key
}

/// The value of the first member called `key`, if there is one.
pub open spec fn find_member(members: Seq<(Seq<char>, JsonView)>, key: Seq<char>) -> Option<
    JsonView,
> {
    if exists|i: int| is_first_member(members, key, i) {
        Some(members[choose|i: int| is_first_member(members, key, i)].1)
    } else {
        None
    }
}

/// The first member called `key` is found by its place.
pub proof fn lemma_find_member_at(members: Seq<(Seq<char>, JsonView)>, key: Seq<char>, i: int)
    requires
        is_first_member(members, key, i),
    ensures
        find_member(members, key) == Some(members[i].1),
{
    let j = choose|j: int| is_first_member(members, key, j);
    assert(members[j].0 == key);
    assert(members[i].0 == key);
    assert(j == i);
}

/// No member is found where no member has the name.
pub proof fn lemma_find_member_absent(members: Seq<(Seq<char>, JsonView)>, key: Seq<char>)
    requires
        forall|k: int| 0 <= k < members.len() ==> (#[trigger] members[k]).0 != key,
    ensures
        find_member(members, key) is None,
{
    if exists|i: int| is_first_member(members, key, i) {
        let j = choose|j: int| is_first_member(members, key, j);
        assert(members[j].0 == key);
    }
}

impl JsonView {
    /// The value of the member called `key` where this is an object that has
    /// one; of several members with that name, the first.
    pub open spec fn member(self, key: Seq<char>) -> Option<JsonView> {
        match self {
            JsonView::Object(members) => find_member(members, key),
            _ => None,
        }
    }

    /// The member called `key` where it is a string.
    pub open spec fn text_member(self, key: Seq<char>) -> Option<Seq<char>> {
        match self.member(key) {
            Some(JsonView::String(text)) => Some(text),
            _ => None,
        }
    }

    /// The member called `key` where it is a whole number from `low` to `high`.
    pub open spec fn int_member(self, key: Seq<char>, low: int, high: int) -> Option<int> {
        match self.member(key) {
            Some(JsonView::Int(n)) => if low <= n <= high {
                Some(n)
            } else {
                None
            },
            _ => None,
        }
    }

    /// The member called `key` where it is `true` or `false`.
    pub open spec fn bool_member(self, key: Seq<char>) -> Option<bool> {
        match self.member(key) {
            Some(JsonView::Bool(b)) => Some(b),
            _ => None,
        }
    }
}

impl View for Json {
    type V = JsonView;

    open spec fn view(&self) -> JsonView {
        self.model()
    }
}

impl Json {
    /// The mathematical value of the document; `@` stands for it.
    pub open spec fn model(&self) -> JsonView
        decreases self,
    {
        match self {
            Json::Null => JsonView::Null,
            Json::Bool(b) => JsonView::Bool(*b),
            Json::Int(i) => JsonView::Int(*i as int),
            Json::Number(n) => JsonView::Number(*n),
            Json::String(s) => JsonView::String(s@),
            Json::Array(items) => JsonView::Array(
                Seq::new(
                    items@.len(),
                    |i: int|
                        if 0 <= i < items@.len() {
                            items@[i].model()
                        } else {
                            JsonView::Null
                        },
                ),
            ),
            Json::Object(members) => JsonView::Object(
                Seq::new(
                    members@.len(),
                    |i: int|
                        if 0 <= i < members@.len() {
                            (members@[i].0@, members@[i].1.model())
                        } else {
                            (Seq::empty(), JsonView::Null)
                        },
                ),
            ),
        }
    }
}

impl Clone for Json {
    fn clone(&self) -> (copy: Json)
        ensures
            copy@ == self@,
        decreases self,
    {
        match self {
            Json::Null => Json::Null,
            Json::Bool(b) => Json::Bool(*b),
            Json::Int(i) => Json::Int(*i),
            Json::Number(n) => Json::Number(n.clone()),
            Json::String(s) => Json::String(s.clone()),
            Json::Array(items) => {
                let mut copies: Vec<Json> = Vec::new();
                let mut i: usize = 0;
                while i < items.len()
                    invariant
                        i <= items.len(),
                        copies.len() == i,
                        forall|k: int| 0 <= k < i ==> copies[k]@ == items[k]@,
                        decreases_to!(*self => *items),
                    decreases items.len() - i,
                {
                    assert(decreases_to!(*items => items[i as int]));
                    copies.push(items[i].clone());
                    i += 1;
                }
                assert(copies@.len() == items@.len());
                assert(Json::Array(copies)@->Array_0 =~= self@->Array_0);
                Json::Array(copies)
            },
            Json::Object(members) => {
                let mut copies: Vec<(String, Json)> = Vec::new();
                let mut i: usize = 0;
                while i < members.len()
                    invariant
                        i <= members.len(),
                        copies.len() == i,
                        forall|k: int|
                            0 <= k < i ==> copies[k].0@ == members[k].0@ && copies[k].1@
                                == members[k].1@,
                        decreases_to!(*self => *members),
                    decreases members.len() - i,
                {
                    assert(decreases_to!(*members => members[i as int]));
                    copies.push((members[i].0.clone(), members[i].1.clone()));
                    i += 1;
                }
                assert(Json::Object(copies)@->Object_0 =~= self@->Object_0);
                Json::Object(copies)
            },
        }
    }
}

impl Json {
    /// Reads a document from its text, or returns `None` where the text is
    /// no JSON document.
    pub fn parse(text: &str) -> (r: Option<Json>)
        ensures
            match r {
                Some(json) => json_parse(text@) == Some(json@),
                None => json_parse(text@) is None,
            },
    {
        match parse_value(text) {
            Ok(value) => Some(json_from_value(value)),
            Err(_) => None,
        }
    }

    /// The member called `key` of an object; `None` for a value that is no
    /// object or has no such member.
    pub fn member(&self, key: &str) -> (r: Option<&Json>)
        ensures
            match r {
                Some(found) => self@.member(key@) == Some(found@),
                None => self@.member(key@) is None,
            },
    {
        match self {
            Json::Object(members) => {
                let wanted = key.to_owned();
                let mut i: usize = 0;
                while i < members.len()
                    invariant
                        i <= members.len(),
                        wanted@ == key@,
                        self@ is Object,
                        self@->Object_0.len() == members.len(),
                        forall|k: int|
                            0 <= k < members.len() ==> #[trigger] self@->Object_0[k] == (
                                members[k].0@,
                                members[k].1@,
                            ),
                        forall|k: int| 0 <= k < i ==> (#[trigger] members[k]).0@ != key@,
                    decreases members.len() - i,
                {
                    if members[i].0 == wanted {
                        proof {
                            let ms = self@->Object_0;
                            assert forall|k: int| 0 <= k < i implies (#[trigger] ms[k]).0
                                != key@ by {
                                assert(members[k].0@ != key@);
                            }
                            lemma_find_member_at(ms, key@, i as int);
                        }
                        return Some(&members[i].1);
                    }
                    i += 1;
                }
                proof {
                    let ms = self@->Object_0;
                    assert forall|k: int| 0 <= k < ms.len() implies (#[trigger] ms[k]).0
                        != key@ by {
                        assert(members[k].0@ != key@);
                    }
                    lemma_find_member_absent(ms, key@);
                }
                None
            },
            _ => None,
        }
    }

    /// The member called `key` where it is a string.
    pub fn text_member(&self, key: &str) -> (r: Option<String>)
        ensures
            match r {
                Some(text) => self@.text_member(key@) == Some(text@),
                None => self@.text_member(key@) is None,
            },
    {
        match self.member(key) {
            Some(Json::String(text)) => Some(text.clone()),
            _ => None,
        }
    }

    /// The member called `key` where it is a whole number in the range of `i64`.
    pub fn i64_member(&self, key: &str) -> (r: Option<i64>)
        ensures
            match r {
                Some(n) => self@.int_member(key@, i64::MIN as int, i64::MAX as int) == Some(
                    n as int,
                ),
                None => self@.int_member(key@, i64::MIN as int, i64::MAX as int) is None,
            },
    {
        match self.member(key) {
            Some(Json::Int(n)) => Some(*n),
            _ => None,
        }
    }

    /// The member called `key` where it is a whole number in the range of `i32`.
    pub fn i32_member(&self, key: &str) -> (r: Option<i32>)
        ensures
            match r {
                Some(n) => self@.int_member(key@, i32::MIN as int, i32::MAX as int) == Some(
                    n as int,
                ),
                None => self@.int_member(key@, i32::MIN as int, i32::MAX as int) is None,
            },
    {
        match self.member(key) {
            Some(Json::Int(n)) => if -2147483648 <= *n && *n <= 2147483647 {
                Some(*n as i32)
            } else {
                None
            },
            _ => None,
        }
    }

    /// The member called `key` where it is `true` or `false`.
    pub fn bool_member(&self, key: &str) -> (r: Option<bool>)
        ensures
            match r {
                Some(b) => self@.bool_member(key@) == Some(b),
                None => self@.bool_member(key@) is None,
            },
    {
        match self.member(key) {
            Some(Json::Bool(b)) => Some(*b),
            _ => None,
        }
    }

    /// Writes the document as compact text.
    pub fn render(&self) -> (text: String)
        ensures
            text@ == json_text(self@),
    {
        let value = value_from_json(self);
        render_value(&value)
    }
}

} // verus!
