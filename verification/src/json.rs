//! A JSON document model: the values that requests, tool arguments, schemas and
//! editor replies carry.
use vstd::prelude::*;

verus! {

/// A JSON value. Numbers keep their textual form (as `serde_json` prints them), since the
/// library never computes with them; object members keep their order.
pub enum Json {
    Null,
    Bool(bool),
    Number(String),
    Str(String),
    Array(Vec<Json>),
    Object(Vec<(String, Json)>),
}

/// The value of the first member named `key`, if any.
pub open spec fn member_value(members: Seq<(String, Json)>, key: Seq<char>) -> Option<Json>
    decreases members.len(),
{
    if members.len() == 0 {
        None
    } else if members[0].0@ == key {
        Some(members[0].1)
    } else {
        member_value(members.drop_first(), key)
    }
}

/// The first member named `key` is the one at position `i`.
pub proof fn lemma_member_value_at(members: Seq<(String, Json)>, key: Seq<char>, i: int)
    requires
        0 <= i < members.len(),
        members[i].0@ == key,
        forall|k: int| 0 <= k < i ==> members[k].0@ != key,
    ensures
        member_value(members, key) == Some(members[i].1),
    decreases i,
{
    if i > 0 {
        lemma_member_value_at(members.drop_first(), key, i - 1);
    }
}

/// In an object whose member names are distinct, each name finds its own member.
pub proof fn lemma_member_value_distinct(members: Seq<(String, Json)>, i: int)
    requires
        0 <= i < members.len(),
        member_names(members).no_duplicates(),
    ensures
        member_value(members, members[i].0@) == Some(members[i].1),
{
    assert forall|k: int| 0 <= k < i implies members[k].0@ != members[i].0@ by {
        assert(member_names(members)[k] == members[k].0@);
        assert(member_names(members)[i] == members[i].0@);
    }
    lemma_member_value_at(members, members[i].0@, i);
}

/// A name that no member has finds nothing.
pub proof fn lemma_member_value_absent(members: Seq<(String, Json)>, key: Seq<char>)
    requires
        !member_names(members).contains(key),
    ensures
        member_value(members, key) is None,
    decreases members.len(),
{
    if members.len() > 0 {
        assert(member_names(members)[0] == members[0].0@);
        assert(member_names(members.drop_first()) =~= member_names(members).drop_first());
        lemma_member_value_absent(members.drop_first(), key);
    }
}

/// The names of the members, in order.
pub open spec fn member_names(members: Seq<(String, Json)>) -> Seq<Seq<char>> {
    members.map_values(|m: (String, Json)| m.0@)
}

impl Json {
    /// The member named `key` of an object (`Value::get` with a string key);
    /// `None` for other values.
    pub open spec fn field(self, key: Seq<char>) -> Option<Json> {
        match self {
            Json::Object(members) => member_value(members@, key),
            _ => None,
        }
    }

    /// The text of a string value (`Value::as_str`).
    pub open spec fn text(self) -> Option<Seq<char>> {
        match self {
            Json::Str(s) => Some(s@),
            _ => None,
        }
    }

    /// The text of the string member named `key`, if the value is an object with such a
    /// member and that member is a string.
    pub open spec fn str_field(self, key: Seq<char>) -> Option<Seq<char>> {
        match self.field(key) {
            Some(v) => v.text(),
            None => None,
        }
    }

    /// The member names of an object; empty for other values.
    pub open spec fn keys(self) -> Seq<Seq<char>> {
        match self {
            Json::Object(members) => member_names(members@),
            _ => Seq::empty(),
        }
    }

    /// A string value.
    pub fn string(s: &str) -> (j: Json)
        ensures
            j.text() == Some(s@),
    {
        Json::Str(String::from_str(s))
    }

    /// An empty object.
    pub fn empty_object() -> (j: Json)
        ensures
            j matches Json::Object(m) && m@.len() == 0,
    {
        Json::Object(Vec::new())
    }

    /// Whether the value is an object (`Value::is_object`).
    pub fn is_object(&self) -> (b: bool)
        ensures
            b == (self is Object),
    {
        match self {
            Json::Object(_) => true,
            _ => false,
        }
    }

    /// The position of the first member named `key`.
    fn position(members: &Vec<(String, Json)>, key: &str) -> (r: Option<usize>)
        ensures
            match r {
                Some(i) => i < members@.len() && member_value(members@, key@) == Some(
                    members@[i as int].1,
                ),
                None => member_value(members@, key@) is None,
            },
    {
        let k = String::from_str(key);
        let mut i: usize = 0;
        assert(members@.skip(0) =~= members@);
        while i < members.len()
            invariant
                i <= members@.len(),
                k@ == key@,
                member_value(members@, key@) == member_value(members@.skip(i as int), key@),
            decreases members@.len() - i,
        {
            assert(members@.skip(i as int)[0] == members@[i as int]);
            if members[i].0 == k {
                return Some(i);
            }
            assert(members@.skip(i as int).drop_first() =~= members@.skip(i + 1));
            i += 1;
        }
        None
    }

    /// The text of the string member named `key` (`value.get(key).and_then(as_str)`).
    pub fn get_str(&self, key: &str) -> (r: Option<String>)
        ensures
            match r {
                Some(s) => self.str_field(key@) == Some(s@),
                None => self.str_field(key@) is None,
            },
    {
        match self {
            Json::Object(members) => match Self::position(members, key) {
                Some(i) => match &members[i].1 {
                    Json::Str(s) => Some(s.clone()),
                    _ => None,
                },
                None => None,
            },
            _ => None,
        }
    }

    /// Takes the member named `key` out of an object (`value.get(key).cloned()`).
    pub fn take_field(self, key: &str) -> (r: Option<Json>)
        ensures
            r == self.field(key@),
    {
        match self {
            Json::Object(members) => {
                let mut members = members;
                match Self::position(&members, key) {
                    Some(i) => {
                        let (_, v) = members.remove(i);
                        Some(v)
                    },
                    None => None,
                }
            },
            _ => None,
        }
    }
}

/// An object member.
pub fn member(key: &str, value: Json) -> (m: (String, Json))
    ensures
        m.0@ == key@,
        m.1 == value,
{
    (String::from_str(key), value)
}

} // verus!
