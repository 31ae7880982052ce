//! The shape of a JSON document, as far as a decoder of responses reads
//! it.

use crate::text::same_text;
use vstd::prelude::*;

verus! {

/// A JSON value.
///
/// A number that is a whole number from 0 up to the largest `u64` is held
/// as it is. Of any other number only its being a number is held: no
/// record has a place for one.
#[derive(Debug)]
pub enum Json {
    Null,
    Bool(bool),
    Natural(u64),
    OtherNumber,
    Text(String),
    Array(Vec<Json>),
    Object(Vec<(String, Json)>),
}

impl Json {
    /// The JSON value of a whole number that was read with a sign: held
    /// as it is from 0 on, and only as a number below 0.
    pub fn of_integer(number: i64) -> (json: Json)
        ensures
            number >= 0 ==> json == Json::Natural(number as u64),
            number < 0 ==> json == Json::OtherNumber,
    {
        if number >= 0 {
            Json::Natural(number as u64)
        } else {
            Json::OtherNumber
        }
    }
}

/// What an object holds under one name.
pub enum Field {
    /// No member has the name.
    Absent,
    /// One member has the name, with this value.
    Once(Json),
    /// Two or more members have the name.
    Repeated,
}

/// Whether the member `i` of `members` has the name `name`.
pub open spec fn named_at(members: Seq<(String, Json)>, name: Seq<char>, i: int) -> bool {
    0 <= i < members.len() && members[i].0@ == name
}

/// What `members` hold under `name`.
pub open spec fn member(members: Seq<(String, Json)>, name: Seq<char>) -> Field {
    if forall|i: int| !named_at(members, name, i) {
        Field::Absent
    } else {
        let first = choose|i: int| named_at(members, name, i);
        if forall|i: int| named_at(members, name, i) ==> i == first {
            Field::Once(members[first].1)
        } else {
            Field::Repeated
        }
    }
}

/// What a search for a name among the members of an object found.
pub enum Found<'a> {
    Absent,
    Once(&'a Json),
    Repeated,
}

impl<'a> Found<'a> {
    /// The finding as a [`Field`].
    pub open spec fn field(self) -> Field {
        match self {
            Found::Absent => Field::Absent,
            Found::Once(value) => Field::Once(*value),
            Found::Repeated => Field::Repeated,
        }
    }
}

/// Searches `members` for `name`.
pub fn find<'a>(members: &'a Vec<(String, Json)>, name: &str) -> (found: Found<'a>)
    ensures
        found.field() == member(members@, name@),
{
    let mut place: Option<usize> = None;
    let mut i: usize = 0;
    while i < members.len()
        invariant
            0 <= i <= members@.len(),
            match place {
                Some(p) => p < i && named_at(members@, name@, p as int) && forall|j: int|
                    0 <= j < i && named_at(members@, name@, j) ==> j == p,
                None => forall|j: int| 0 <= j < i ==> !named_at(members@, name@, j),
            },
        decreases members@.len() - i,
    {
        if same_text(members[i].0.as_str(), name) {
            if let Some(p) = place {
                assert(named_at(members@, name@, i as int));
                return Found::Repeated;
            }
            place = Some(i);
        }
        i += 1;
    }
    match place {
        Some(p) => Found::Once(&members[p].1),
        None => Found::Absent,
    }
}

} // verus!
