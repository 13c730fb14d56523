use vstd::prelude::*;
use vstd::string::*;

verus! {

/// A parsed JSON document. A number keeps its text: nothing here computes
/// with numbers.
pub enum Json {
    Null,
    Bool(bool),
    Number(String),
    Str(String),
    Array(Vec<Json>),
    Object(Vec<Member>),
}

/// One member of an object. A lookup by key finds the first member with
/// that key.
pub struct Member {
    pub key: String,
    pub value: Json,
}

/// The value of the first member at or after index `i` whose key is `key`.
pub open spec fn member_from(members: Seq<Member>, key: Seq<char>, i: int) -> Option<Json>
    decreases members.len() - i,
{
    if i < 0 || i >= members.len() {
        None
    } else if members[i].key@ == key {
        Some(members[i].value)
    } else {
        member_from(members, key, i + 1)
    }
}

/// The value of the member `key` of an object, if it has one.
pub open spec fn member(members: Seq<Member>, key: Seq<char>) -> Option<Json> {
    member_from(members, key, 0)
}

/// The value a reference points to, if any.
pub open spec fn deref_json(v: Option<&Json>) -> Option<Json> {
    match v {
        Some(x) => Some(*x),
        None => None,
    }
}

/// Looks up the member `key` of an object.
pub fn get_member<'a>(members: &'a Vec<Member>, key: &str) -> (r: Option<&'a Json>)
    ensures
        deref_json(r) == member(members@, key@),
{
    let wanted = String::from_str(key);
    let mut i: usize = 0;
    while i < members.len()
        invariant
            i <= members@.len(),
            wanted@ == key@,
            member(members@, key@) == member_from(members@, key@, i as int),
        decreases members@.len() - i,
    {
        if members[i].key == wanted {
            return Some(&members[i].value);
        }
        i = i + 1;
    }
    None
}

} // verus!
