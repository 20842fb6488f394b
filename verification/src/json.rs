//! A parsed JSON document, as far as the catalogue reads it.

use vstd::prelude::*;
use crate::text::text_eq;

verus! {

/// A JSON value. Objects keep their members in document order; a lookup
/// returns the first member with the requested name.
#[derive(Debug)]
pub enum Json {
    Null,
    Bool(bool),
    /// A number without a fractional part.
    Int(i64),
    Text(String),
    Array(Vec<Json>),
    Object(Vec<(String, Json)>),
    /// Any value the catalogue never reads, such as a number with a fraction.
    Other,
}

/// The value of the first member named `key`, if there is one.
pub open spec fn lookup(members: Seq<(String, Json)>, key: Seq<char>) -> Option<Json>
    decreases members.len(),
{
    if members.len() == 0 {
        None
    } else if members[0].0@ == key {
        Some(members[0].1)
    } else {
        lookup(members.drop_first(), key)
    }
}

impl Json {
    /// The member `key` of an object; `None` for a missing member and for
    /// anything that is not an object.
    pub open spec fn field(self, key: Seq<char>) -> Option<Json> {
        match self {
            Json::Object(members) => lookup(members@, key),
            _ => None,
        }
    }

    /// The number, if the value is one without a fractional part.
    pub open spec fn int_value(self) -> Option<int> {
        match self {
            Json::Int(n) => Some(n as int),
            _ => None,
        }
    }

    /// The characters, if the value is a string.
    pub open spec fn text_value(self) -> Option<Seq<char>> {
        match self {
            Json::Text(s) => Some(s@),
            _ => None,
        }
    }

    /// The truth value, if the value is a boolean.
    pub open spec fn bool_value(self) -> Option<bool> {
        match self {
            Json::Bool(b) => Some(b),
            _ => None,
        }
    }

    /// The elements, if the value is an array.
    pub open spec fn items(self) -> Option<Seq<Json>> {
        match self {
            Json::Array(items) => Some(items@),
            _ => None,
        }
    }

    /// The integer member `key`, if the value is an object that has one.
    pub open spec fn int_field(self, key: Seq<char>) -> Option<int> {
        match self.field(key) {
            Some(value) => value.int_value(),
            None => None,
        }
    }

    /// The string member `key`, if the value is an object that has one.
    pub open spec fn text_field(self, key: Seq<char>) -> Option<Seq<char>> {
        match self.field(key) {
            Some(value) => value.text_value(),
            None => None,
        }
    }

    /// The boolean member `key`, if the value is an object that has one.
    pub open spec fn bool_field(self, key: Seq<char>) -> Option<bool> {
        match self.field(key) {
            Some(value) => value.bool_value(),
            None => None,
        }
    }

    /// The array member `key`, if the value is an object that has one.
    pub open spec fn array_field(self, key: Seq<char>) -> Option<Seq<Json>> {
        match self.field(key) {
            Some(value) => value.items(),
            None => None,
        }
    }

    /// Looks up the member `key` of an object.
    pub fn get(&self, key: &str) -> (found: Option<&Json>)
        ensures
            match found {
                Some(value) => self.field(key@) == Some(*value),
                None => self.field(key@) is None,
            },
    {
        match self {
            Json::Object(members) => {
                let mut i: usize = 0;
                assert(members@.skip(0) =~= members@);
                while i < members.len()
                    invariant
                        i <= members.len(),
                        self.field(key@) == lookup(members@, key@),
                        lookup(members@, key@) == lookup(members@.skip(i as int), key@),
                    decreases members.len() - i,
                {
                    assert(members@.skip(i as int)[0] == members@[i as int]);
                    if text_eq(members[i].0.as_str(), key) {
                        return Some(&members[i].1);
                    }
                    assert(members@.skip(i as int).drop_first() =~= members@.skip(i + 1));
                    i = i + 1;
                }
                None
            },
            _ => None,
        }
    }

    /// Reads the value as a number without a fractional part.
    pub fn as_int(&self) -> (value: Option<i64>)
        ensures
            match value {
                Some(n) => self.int_value() == Some(n as int),
                None => self.int_value() is None,
            },
    {
        match self {
            Json::Int(n) => Some(*n),
            _ => None,
        }
    }

    /// Reads the value as a string.
    pub fn as_text(&self) -> (value: Option<&str>)
        ensures
            match value {
                Some(s) => self.text_value() == Some(s@),
                None => self.text_value() is None,
            },
    {
        match self {
            Json::Text(s) => Some(s.as_str()),
            _ => None,
        }
    }

    /// Reads the value as a boolean.
    pub fn as_bool(&self) -> (value: Option<bool>)
        ensures
            value == self.bool_value(),
    {
        match self {
            Json::Bool(b) => Some(*b),
            _ => None,
        }
    }

    /// Reads the value as an array.
    pub fn as_array(&self) -> (value: Option<&Vec<Json>>)
        ensures
            match value {
                Some(items) => self.items() == Some(items@),
                None => self.items() is None,
            },
    {
        match self {
            Json::Array(items) => Some(items),
            _ => None,
        }
    }

    /// Reads the integer member `key`.
    pub fn get_int(&self, key: &str) -> (value: Option<i64>)
        ensures
            match value {
                Some(n) => self.int_field(key@) == Some(n as int),
                None => self.int_field(key@) is None,
            },
    {
        match self.get(key) {
            Some(member) => member.as_int(),
            None => None,
        }
    }

    /// Reads the string member `key`.
    pub fn get_text(&self, key: &str) -> (value: Option<&str>)
        ensures
            match value {
                Some(s) => self.text_field(key@) == Some(s@),
                None => self.text_field(key@) is None,
            },
    {
        match self.get(key) {
            Some(member) => member.as_text(),
            None => None,
        }
    }

    /// Reads the boolean member `key`.
    pub fn get_bool(&self, key: &str) -> (value: Option<bool>)
        ensures
            value == self.bool_field(key@),
    {
        match self.get(key) {
            Some(member) => member.as_bool(),
            None => None,
        }
    }

    /// Reads the array member `key`.
    pub fn get_array(&self, key: &str) -> (value: Option<&Vec<Json>>)
        ensures
            match value {
                Some(items) => self.array_field(key@) == Some(items@),
                None => self.array_field(key@) is None,
            },
    {
        match self.get(key) {
            Some(member) => member.as_array(),
            None => None,
        }
    }
}

} // verus!
