use vstd::prelude::*;
use vstd::string::*;

use crate::strmap::{entry_lookup, key_position, lemma_key_position};

verus! {

/// The mathematical model of a JSON document. Object members keep their
/// order; a key that occurs twice is read from its last occurrence.
pub enum JsonView {
    Null,
    Bool(bool),
    Number(Seq<char>),
    Str(Seq<char>),
    Array(Seq<JsonView>),
    Object(Seq<(Seq<char>, JsonView)>),
}

/// A JSON document as the library reads and writes it.
#[derive(Debug)]
pub enum JsonValue {
    Null,
    Bool(bool),
    /// A number, held in its decimal text form.
    Number(String),
    Str(String),
    Array(Vec<JsonValue>),
    /// The members of an object, in document order.
    Object(Vec<(String, JsonValue)>),
}

impl JsonValue {
    pub open spec fn view(&self) -> JsonView
        decreases self,
    {
        match self {
            JsonValue::Null => JsonView::Null,
            JsonValue::Bool(b) => JsonView::Bool(*b),
            JsonValue::Number(n) => JsonView::Number(n@),
            JsonValue::Str(s) => JsonView::Str(s@),
            JsonValue::Array(items) => JsonView::Array(
                Seq::new(
                    items@.len(),
                    |i: int|
                        if 0 <= i < items@.len() {
                            items@[i].view()
                        } else {
                            JsonView::Null
                        },
                ),
            ),
            JsonValue::Object(members) => JsonView::Object(
                Seq::new(
                    members@.len(),
                    |i: int|
                        if 0 <= i < members@.len() {
                            (members@[i].0@, members@[i].1.view())
                        } else {
                            (Seq::empty(), JsonView::Null)
                        },
                ),
            ),
        }
    }
}

/// The views of a sequence of JSON values.
pub open spec fn views(s: Seq<JsonValue>) -> Seq<JsonView> {
    s.map_values(|x: JsonValue| x@)
}

/// The views of a sequence of object members.
pub open spec fn member_views(s: Seq<(String, JsonValue)>) -> Seq<(Seq<char>, JsonView)> {
    s.map_values(|m: (String, JsonValue)| (m.0@, m.1@))
}

impl JsonView {
    /// The member `key` of an object; `None` for a missing member or a value
    /// that is not an object.
    pub open spec fn get(self, key: Seq<char>) -> Option<JsonView> {
        match self {
            JsonView::Object(members) => entry_lookup(members, key),
            _ => None,
        }
    }

    /// The text of a string value; `None` for any other value.
    pub open spec fn as_str(self) -> Option<Seq<char>> {
        match self {
            JsonView::Str(s) => Some(s),
            _ => None,
        }
    }

    /// The elements of an array value; `None` for any other value.
    pub open spec fn as_array(self) -> Option<Seq<JsonView>> {
        match self {
            JsonView::Array(items) => Some(items),
            _ => None,
        }
    }
}

/// The view of an array or object, written with `views` and `member_views`.
pub proof fn lemma_view_parts(v: JsonValue)
    ensures
        v matches JsonValue::Array(items) ==> v@ == JsonView::Array(views(items@)),
        v matches JsonValue::Object(members) ==> v@ == JsonView::Object(member_views(members@)),
{
    match v {
        JsonValue::Array(items) => {
            let a = views(items@);
            assert(v@->Array_0 =~= a);
        },
        JsonValue::Object(members) => {
            let m = member_views(members@);
            assert(v@->Object_0 =~= m);
        },
        _ => {},
    }
}

impl JsonValue {
    /// The member `key` of an object, as `serde_json::Value::get` finds it.
    pub fn get(&self, key: &str) -> (r: Option<&JsonValue>)
        ensures
            match r {
                Some(x) => self@.get(key@) == Some(x@),
                None => self@.get(key@) is None,
            },
    {
        proof {
            lemma_view_parts(*self);
        }
        match self {
            JsonValue::Object(members) => {
                let k = String::from_str(key);
                let ghost mv = member_views(members@);
                proof {
                    lemma_key_position(mv, k@);
                }
                let mut i = members.len();
                assert(mv.take(i as int) =~= mv);
                while i > 0
                    invariant
                        i <= members@.len(),
                        mv == member_views(members@),
                        self@ == JsonView::Object(mv),
                        k@ == key@,
                        key_position(mv, k@) == key_position(mv.take(i as int), k@),
                    decreases i,
                {
                    assert(mv.take(i as int).drop_last() =~= mv.take(i - 1));
                    if members[i - 1].0 == k {
                        assert(mv.take(i as int).last() == mv[i - 1]);
                        assert(key_position(mv, k@) == Some((i - 1) as nat));
                        return Some(&members[i - 1].1);
                    }
                    i = i - 1;
                }
                None
            },
            _ => None,
        }
    }

    /// The text of a string value, as `serde_json::Value::as_str` gives it.
    pub fn as_str(&self) -> (r: Option<&str>)
        ensures
            match r {
                Some(s) => self@.as_str() == Some(s@),
                None => self@.as_str() is None,
            },
    {
        match self {
            JsonValue::Str(s) => Some(s.as_str()),
            _ => None,
        }
    }

    /// The elements of an array value, as `serde_json::Value::as_array` gives
    /// them.
    pub fn as_array(&self) -> (r: Option<&Vec<JsonValue>>)
        ensures
            match r {
                Some(a) => self@.as_array() == Some(views(a@)),
                None => self@.as_array() is None,
            },
    {
        proof {
            lemma_view_parts(*self);
        }
        match self {
            JsonValue::Array(items) => Some(items),
            _ => None,
        }
    }

    /// A copy of this value, member for member.
    #[verifier::loop_isolation(false)]
    pub fn deep_clone(&self) -> (r: JsonValue)
        ensures
            r@ == self@,
        decreases self,
    {
        proof {
            lemma_view_parts(*self);
        }
        match self {
            JsonValue::Null => JsonValue::Null,
            JsonValue::Bool(b) => JsonValue::Bool(*b),
            JsonValue::Number(n) => JsonValue::Number(n.clone()),
            JsonValue::Str(s) => JsonValue::Str(s.clone()),
            JsonValue::Array(items) => {
                let mut out: Vec<JsonValue> = Vec::new();
                let mut i: usize = 0;
                while i < items.len()
                    invariant
                        i <= items@.len(),
                        views(out@) == views(items@).take(i as int),
                    decreases items@.len() - i,
                {
                    proof {
                        assert(decreases_to!(*items => items@[i as int]));
                    }
                    let c = items[i].deep_clone();
                    out.push(c);
                    assert(views(out@) =~= views(items@).take(i + 1));
                    i = i + 1;
                }
                let r = JsonValue::Array(out);
                proof {
                    lemma_view_parts(r);
                    assert(views(items@).take(items@.len() as int) =~= views(items@));
                }
                r
            },
            JsonValue::Object(members) => {
                let mut out: Vec<(String, JsonValue)> = Vec::new();
                let mut i: usize = 0;
                while i < members.len()
                    invariant
                        i <= members@.len(),
                        member_views(out@) == member_views(members@).take(i as int),
                    decreases members@.len() - i,
                {
                    proof {
                        assert(decreases_to!(*members => members@[i as int]));
                    }
                    let c = members[i].1.deep_clone();
                    out.push((members[i].0.clone(), c));
                    assert(member_views(out@) =~= member_views(members@).take(i + 1));
                    i = i + 1;
                }
                let r = JsonValue::Object(out);
                proof {
                    lemma_view_parts(r);
                    assert(member_views(members@).take(members@.len() as int) =~= member_views(members@));
                }
                r
            },
        }
    }
}

} // verus!
