//! A JSON document as the response decoder reads it, and lookup of object
//! members.

use vstd::prelude::*;

verus! {

/// A JSON value. Numbers that fit an `i64` are `Int`; any other number keeps
/// its text. An object keeps its members in document order.
#[derive(Debug)]
pub enum Json {
    Null,
    Bool(bool),
    Int(i64),
    Number(String),
    Str(String),
    Array(Vec<Json>),
    Object(Vec<(String, Json)>),
}

/// The value of the first member named `key`, if any.
pub open spec fn lookup(members: Seq<(String, Json)>, key: Seq<char>) -> Option<Json>
    decreases members.len(),
{
    if members.len() == 0 {
        None
    } else if members[0].0@ == key {
        Some(members[0].1)
    } else {
        lookup(members.drop_first(), key)
    }
}

/// The member `key` of `v` when `v` is an object that has one.
pub open spec fn member_of(v: Json, key: Seq<char>) -> Option<Json> {
    match v {
        Json::Object(members) => lookup(members@, key),
        _ => None,
    }
}

/// The text of the member `key` of `v` when that member is a string.
pub open spec fn str_member_of(v: Json, key: Seq<char>) -> Option<Seq<char>> {
    match member_of(v, key) {
        Some(Json::Str(s)) => Some(s@),
        _ => None,
    }
}

pub open spec fn opt_string_view(o: Option<String>) -> Option<Seq<char>> {
    match o {
        Some(s) => Some(s@),
        None => None,
    }
}

/// The value of the first member named `key`, if any.
pub fn lookup_member<'a>(members: &'a Vec<(String, Json)>, key: &String) -> (r: Option<&'a Json>)
    ensures
        match r {
            Some(x) => lookup(members@, key@) == Some(*x),
            None => lookup(members@, key@) is None,
        },
{
    let mut i: usize = 0;
    assert(members@.subrange(0, members@.len() as int) =~= members@);
    while i < members.len()
        invariant
            0 <= i <= members.len(),
            lookup(members@, key@) == lookup(members@.subrange(i as int, members@.len() as int), key@),
        decreases members.len() - i,
    {
        let ghost rest = members@.subrange(i as int, members@.len() as int);
        assert(rest.drop_first() =~= members@.subrange(i + 1, members@.len() as int));
        assert(rest[0] == members@[i as int]);
        if members[i].0 == *key {
            return Some(&members[i].1);
        }
        i = i + 1;
    }
    None
}

/// The member `key` of `v`, when `v` is an object that has one.
pub fn member<'a>(v: &'a Json, key: &String) -> (r: Option<&'a Json>)
    ensures
        match r {
            Some(x) => member_of(*v, key@) == Some(*x),
            None => member_of(*v, key@) is None,
        },
{
    match v {
        Json::Object(members) => {
            assert(member_of(*v, key@) == lookup(members@, key@));
            lookup_member(members, key)
        },
        _ => None,
    }
}

/// The text of the member `key` of `v`, when that member is a string.
pub fn str_member(v: &Json, key: &String) -> (r: Option<String>)
    ensures
        opt_string_view(r) == str_member_of(*v, key@),
{
    match member(v, key) {
        Some(Json::Str(s)) => Some(s.clone()),
        _ => None,
    }
}

} // verus!
