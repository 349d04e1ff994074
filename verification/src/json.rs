//! The JSON values that requests carry into the service, as the service
//! reads them: their structure, and the compact JSON text of each value.

use vstd::prelude::*;

verus! {

/// A JSON value: its structure, and `text`, its compact JSON serialisation.
#[derive(Debug)]
pub struct JsonValue {
    pub node: JsonNode,
    pub text: String,
}

/// The structure of a JSON value.
#[derive(Debug)]
pub enum JsonNode {
    Null,
    Bool(bool),
    /// A number that fits in an `i64`.
    Integer(i64),
    /// Any other number (a larger integer, or one with a fraction or exponent).
    OtherNumber,
    String(String),
    Array(Vec<JsonValue>),
    /// The members of an object, each key at most once.
    Object(Vec<(String, JsonValue)>),
}

/// The value of the first member of `members` whose key is `key`.
pub open spec fn member_value(members: Seq<(String, JsonValue)>, key: Seq<char>) -> Option<JsonValue>
    decreases members.len(),
{
    if members.len() == 0 {
        None
    } else if members[0].0@ == key {
        Some(members[0].1)
    } else {
        member_value(members.drop_first(), key)
    }
}

/// What `get` finds in a value under `key`: a member of an object, and nothing in any other value.
pub open spec fn json_get(v: JsonValue, key: Seq<char>) -> Option<JsonValue> {
    match v.node {
        JsonNode::Object(members) => member_value(members@, key),
        _ => None,
    }
}

impl JsonValue {
    /// Whether this value is `null`.
    pub fn is_null(&self) -> (r: bool)
        ensures
            r == (self.node is Null),
    {
        match self.node {
            JsonNode::Null => true,
            _ => false,
        }
    }

    /// The value of the member `key` of this object (nothing when this is not an object).
    pub fn get(&self, key: &String) -> (r: Option<&JsonValue>)
        ensures
            match r {
                Some(v) => json_get(*self, key@) == Some(*v),
                None => json_get(*self, key@) is None,
            },
    {
        match &self.node {
            JsonNode::Object(members) => {
                let mut i: usize = 0;
                assert(members@.skip(0) =~= members@);
                while i < members.len()
                    invariant
                        i <= members@.len(),
                        self.node == JsonNode::Object(*members),
                        member_value(members@, key@) == member_value(members@.skip(i as int), key@),
                    decreases members@.len() - i,
                {
                    assert(members@.skip(i as int).drop_first() =~= members@.skip(i as int + 1));
                    assert(members@.skip(i as int)[0] == members@[i as int]);
                    if members[i].0 == *key {
                        assert(member_value(members@.skip(i as int), key@) == Some(members@[i as int].1));
                        return Some(&members[i].1);
                    }
                    i = i + 1;
                }
                None
            },
            _ => None,
        }
    }
}

} // verus!
