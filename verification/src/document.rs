//! The parsed JSON tree that mapping consumes, with the small accessor
//! operations every mapper shares: read a required string field, read an
//! optional string field defaulting to empty, read an optional array
//! defaulting to no elements.
//!
//! Numbers are held as signed integers: the upstream documents use
//! numeric fields only for counts.
use vstd::prelude::*;
use crate::error::Error;
use crate::text::str_eq;

verus! {

/// A parsed JSON document or one of its sub-trees.
#[derive(Debug)]
pub enum JsonTree {
    Null,
    Bool(bool),
    Number(i64),
    Text(String),
    Array(Vec<JsonTree>),
    Object(Vec<(String, JsonTree)>),
}

/// The value under `key` in an object member list: the first member with
/// that key, or `Null` when no member has it.
pub open spec fn field_of(members: Seq<(String, JsonTree)>, key: Seq<char>) -> JsonTree
    decreases members.len(),
{
    if members.len() == 0 {
        JsonTree::Null
    } else if members[0].0@ == key {
        members[0].1
    } else {
        field_of(members.drop_first(), key)
    }
}

/// The value under `key`: indexing anything but an object yields `Null`,
/// as does a missing key.
pub open spec fn get_of(t: JsonTree, key: Seq<char>) -> JsonTree {
    match t {
        JsonTree::Object(members) => field_of(members@, key),
        _ => JsonTree::Null,
    }
}

/// The elements of an array; anything but an array has none.
pub open spec fn elements_of(t: JsonTree) -> Seq<JsonTree> {
    match t {
        JsonTree::Array(v) => v@,
        _ => Seq::empty(),
    }
}

/// The characters of a text node; anything else reads as the empty
/// string. This is the null-tolerant reading of optional string fields.
pub open spec fn opt_text_of(t: JsonTree) -> Seq<char> {
    match t {
        JsonTree::Text(s) => s@,
        _ => Seq::empty(),
    }
}

impl JsonTree {
    /// Finds the value under `key`, or `None` where the spec-level read
    /// yields `Null` because the key is missing or this is no object.
    pub fn get<'a>(&'a self, key: &str) -> (r: Option<&'a JsonTree>)
        ensures
            match r {
                Some(v) => *v == get_of(*self, key@),
                None => get_of(*self, key@) == JsonTree::Null,
            },
    {
        match self {
            JsonTree::Object(members) => {
                let n = members.len();
                let mut idx: usize = 0;
                proof {
                    assert(members@.skip(0) =~= members@);
                }
                while idx < n
                    invariant
                        *self == JsonTree::Object(*members),
                        n == members@.len(),
                        idx <= n,
                        field_of(members@, key@) == field_of(members@.skip(idx as int), key@),
                    decreases n - idx,
                {
                    let ghost rest = members@.skip(idx as int);
                    proof {
                        assert(rest[0] == members@[idx as int]);
                        assert(rest.drop_first() =~= members@.skip(idx as int + 1));
                    }
                    if str_eq(members[idx].0.as_str(), key) {
                        proof {
                            assert(rest[0].0@ == key@);
                            assert(field_of(rest, key@) == rest[0].1);
                        }
                        return Some(&members[idx].1);
                    }
                    idx += 1;
                }
                proof {
                    assert(members@.skip(n as int).len() == 0);
                }
                None
            },
            _ => None,
        }
    }

    /// Whether the value under `key` reads as `Null`.
    pub fn field_is_null(&self, key: &str) -> (r: bool)
        ensures
            r == (get_of(*self, key@) == JsonTree::Null),
    {
        match self.get(key) {
            None => true,
            Some(v) => matches!(v, JsonTree::Null),
        }
    }

    /// Reads a field the schema requires to hold a string; anything else
    /// is a missing required field.
    pub fn read_required_text(&self, key: &str) -> (r: Result<String, Error>)
        ensures
            match r {
                Ok(s) => get_of(*self, key@) matches JsonTree::Text(t) && s@ == t@,
                Err(e) => !(get_of(*self, key@) matches JsonTree::Text(_)) && e
                    == Error::MissingRequiredField,
            },
    {
        match self.get(key) {
            Some(JsonTree::Text(s)) => Ok(s.clone()),
            _ => Err(Error::MissingRequiredField),
        }
    }

    /// Reads an optional string field; absent, null, or non-textual
    /// values degrade to the empty string.
    pub fn read_optional_text(&self, key: &str) -> (r: String)
        ensures
            r@ == opt_text_of(get_of(*self, key@)),
    {
        match self.get(key) {
            Some(JsonTree::Text(s)) => s.clone(),
            _ => String::new(),
        }
    }

    /// Reads an optional array field; absent, null, or non-array values
    /// have no elements.
    pub fn read_array<'a>(&'a self, key: &str) -> (r: Option<&'a Vec<JsonTree>>)
        ensures
            match r {
                Some(v) => v@ == elements_of(get_of(*self, key@)),
                None => elements_of(get_of(*self, key@)).len() == 0,
            },
    {
        match self.get(key) {
            Some(JsonTree::Array(v)) => Some(v),
            _ => None,
        }
    }

    /// Reads a field holding a number, or `None` where it holds none.
    pub fn read_number(&self, key: &str) -> (r: Option<i64>)
        ensures
            match r {
                Some(n) => get_of(*self, key@) == JsonTree::Number(n),
                None => !(get_of(*self, key@) matches JsonTree::Number(_)),
            },
    {
        match self.get(key) {
            Some(JsonTree::Number(n)) => Some(*n),
            _ => None,
        }
    }

    /// Whether the value under `key` is the text `expected`.
    pub fn field_is_text(&self, key: &str, expected: &str) -> (r: bool)
        ensures
            r == (get_of(*self, key@) matches JsonTree::Text(s) && s@ == expected@),
    {
        match self.get(key) {
            Some(JsonTree::Text(s)) => str_eq(s.as_str(), expected),
            _ => false,
        }
    }
}

} // verus!
