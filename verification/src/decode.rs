//! Decoding by shape: which JSON values spell a value of a type, and
//! which value they spell.

use crate::json::{find, member, Field, Found, Json};
use crate::text::same_text;
use vstd::prelude::*;

verus! {

/// The document does not have the shape of what was to be decoded.
#[derive(Debug, PartialEq, Eq)]
pub struct DecodeError;

/// A type whose values are spelled by JSON values.
pub trait Decode: Sized {
    /// Whether `json` spells a value of this type.
    spec fn accepts(json: Json) -> bool;

    /// Whether this is the value that `json` spells.
    spec fn spelled_by(&self, json: Json) -> bool;

    /// The value that `json` spells; an error where it spells none.
    fn decode(json: &Json) -> (decoded: Result<Self, DecodeError>)
        ensures
            decoded.is_ok() == Self::accepts(*json),
            decoded matches Ok(value) ==> value.spelled_by(*json),
    ;
}

impl Decode for bool {
    open spec fn accepts(json: Json) -> bool {
        json is Bool
    }

    open spec fn spelled_by(&self, json: Json) -> bool {
        json == Json::Bool(*self)
    }

    fn decode(json: &Json) -> (decoded: Result<Self, DecodeError>) {
        match json {
            Json::Bool(flag) => Ok(*flag),
            _ => Err(DecodeError),
        }
    }
}

impl Decode for u64 {
    open spec fn accepts(json: Json) -> bool {
        json is Natural
    }

    open spec fn spelled_by(&self, json: Json) -> bool {
        json == Json::Natural(*self)
    }

    fn decode(json: &Json) -> (decoded: Result<Self, DecodeError>) {
        match json {
            Json::Natural(number) => Ok(*number),
            _ => Err(DecodeError),
        }
    }
}

impl Decode for u32 {
    open spec fn accepts(json: Json) -> bool {
        json matches Json::Natural(number) && number <= u32::MAX
    }

    open spec fn spelled_by(&self, json: Json) -> bool {
        json == Json::Natural(*self as u64)
    }

    fn decode(json: &Json) -> (decoded: Result<Self, DecodeError>) {
        match json {
            Json::Natural(number) => {
                if *number <= u32::MAX as u64 {
                    Ok(*number as u32)
                } else {
                    Err(DecodeError)
                }
            },
            _ => Err(DecodeError),
        }
    }
}

impl Decode for String {
    open spec fn accepts(json: Json) -> bool {
        json is Text
    }

    open spec fn spelled_by(&self, json: Json) -> bool {
        json matches Json::Text(text) && self@ == text@
    }

    fn decode(json: &Json) -> (decoded: Result<Self, DecodeError>) {
        match json {
            Json::Text(text) => Ok(text.clone()),
            _ => Err(DecodeError),
        }
    }
}

impl<T: Decode> Decode for Vec<T> {
    open spec fn accepts(json: Json) -> bool {
        json matches Json::Array(items) && each_accepts::<T>(items@)
    }

    open spec fn spelled_by(&self, json: Json) -> bool {
        json matches Json::Array(items) && each_spelled(self@, items@)
    }

    fn decode(json: &Json) -> (decoded: Result<Self, DecodeError>) {
        match json {
            Json::Array(items) => decode_each(items),
            _ => Err(DecodeError),
        }
    }
}

/// Whether each of `items` spells a value of the type.
pub open spec fn each_accepts<T: Decode>(items: Seq<Json>) -> bool {
    forall|i: int| 0 <= i < items.len() ==> T::accepts(#[trigger] items[i])
}

/// Whether `values` are what `items` spell, one for one.
pub open spec fn each_spelled<T: Decode>(values: Seq<T>, items: Seq<Json>) -> bool {
    &&& values.len() == items.len()
    &&& forall|i: int| 0 <= i < items.len() ==> (#[trigger] values[i]).spelled_by(items[i])
}

/// Decodes the items of an array, in their order.
pub fn decode_each<T: Decode>(items: &Vec<Json>) -> (decoded: Result<Vec<T>, DecodeError>)
    ensures
        decoded.is_ok() == each_accepts::<T>(items@),
        decoded matches Ok(values) ==> each_spelled(values@, items@),
{
    let mut values: Vec<T> = Vec::new();
    let mut i: usize = 0;
    while i < items.len()
        invariant
            0 <= i <= items@.len(),
            values@.len() == i,
            forall|j: int| 0 <= j < i ==> T::accepts(#[trigger] items@[j]),
            forall|j: int| 0 <= j < i ==> (#[trigger] values@[j]).spelled_by(items@[j]),
        decreases items@.len() - i,
    {
        match T::decode(&items[i]) {
            Ok(value) => {
                values.push(value);
            },
            Err(error) => {
                return Err(error);
            },
        }
        i += 1;
    }
    Ok(values)
}

/// The members of an object whose values are all of one type: for each
/// member its name and its value, in the order of the object.
///
/// It is read as a mapping: where a name stands more than once, its last
/// entry counts.
#[derive(Debug)]
pub struct Members<T> {
    pub entries: Vec<(String, T)>,
}

/// Whether the value of each of `members` spells a value of the type.
pub open spec fn each_value_accepts<T: Decode>(members: Seq<(String, Json)>) -> bool {
    forall|i: int| 0 <= i < members.len() ==> T::accepts((#[trigger] members[i]).1)
}

/// Whether `entries` are what `members` spell, one for one: the same
/// names, and the values that the members' values spell.
pub open spec fn each_value_spelled<T: Decode>(
    entries: Seq<(String, T)>,
    members: Seq<(String, Json)>,
) -> bool {
    &&& entries.len() == members.len()
    &&& forall|i: int|
        0 <= i < members.len() ==> {
            &&& (#[trigger] entries[i]).0@ == members[i].0@
            &&& entries[i].1.spelled_by(members[i].1)
        }
}

/// Decodes the members of an object, in their order.
pub fn decode_each_value<T: Decode>(members: &Vec<(String, Json)>) -> (decoded: Result<
    Vec<(String, T)>,
    DecodeError,
>)
    ensures
        decoded.is_ok() == each_value_accepts::<T>(members@),
        decoded matches Ok(entries) ==> each_value_spelled(entries@, members@),
{
    let mut entries: Vec<(String, T)> = Vec::new();
    let mut i: usize = 0;
    while i < members.len()
        invariant
            0 <= i <= members@.len(),
            entries@.len() == i,
            forall|j: int| 0 <= j < i ==> T::accepts((#[trigger] members@[j]).1),
            forall|j: int|
                0 <= j < i ==> {
                    &&& (#[trigger] entries@[j]).0@ == members@[j].0@
                    &&& entries@[j].1.spelled_by(members@[j].1)
                },
        decreases members@.len() - i,
    {
        match T::decode(&members[i].1) {
            Ok(value) => {
                entries.push((members[i].0.clone(), value));
            },
            Err(error) => {
                return Err(error);
            },
        }
        i += 1;
    }
    Ok(entries)
}

impl<T> Members<T> {
    /// Whether the entry `i` is the last one with the name `name`.
    pub open spec fn last_named(&self, name: Seq<char>, i: int) -> bool {
        &&& 0 <= i < self.entries@.len()
        &&& self.entries@[i].0@ == name
        &&& forall|j: int| i < j < self.entries@.len() ==> (#[trigger] self.entries@[j]).0@ != name
    }

    /// The value under `name`: that of the last entry with the name.
    pub fn get(&self, name: &str) -> (value: Option<&T>)
        ensures
            match value {
                Some(found) => exists|i: int|
                    self.last_named(name@, i) && *found == self.entries@[i].1,
                None => forall|i: int|
                    0 <= i < self.entries@.len() ==> (#[trigger] self.entries@[i]).0@ != name@,
            },
    {
        let mut i: usize = self.entries.len();
        while i > 0
            invariant
                0 <= i <= self.entries@.len(),
                forall|j: int|
                    i <= j < self.entries@.len() ==> (#[trigger] self.entries@[j]).0@ != name@,
            decreases i,
        {
            i -= 1;
            if same_text(self.entries[i].0.as_str(), name) {
                assert(self.last_named(name@, i as int));
                return Some(&self.entries[i].1);
            }
        }
        None
    }
}

impl<T: Decode> Decode for Members<T> {
    open spec fn accepts(json: Json) -> bool {
        json matches Json::Object(members) && each_value_accepts::<T>(members@)
    }

    open spec fn spelled_by(&self, json: Json) -> bool {
        json matches Json::Object(members) && each_value_spelled(self.entries@, members@)
    }

    fn decode(json: &Json) -> (decoded: Result<Self, DecodeError>) {
        match json {
            Json::Object(members) => match decode_each_value(members) {
                Ok(entries) => Ok(Members { entries }),
                Err(error) => Err(error),
            },
            _ => Err(DecodeError),
        }
    }
}

/// Whether `members` hold a value of the type under `name`: the name
/// stands once, with a value that is accepted.
pub open spec fn required_accepts<T: Decode>(
    members: Seq<(String, Json)>,
    name: Seq<char>,
) -> bool {
    member(members, name) matches Field::Once(json) && T::accepts(json)
}

/// Whether `value` is what `members` hold under `name`.
pub open spec fn required_spelled<T: Decode>(
    value: T,
    members: Seq<(String, Json)>,
    name: Seq<char>,
) -> bool {
    member(members, name) matches Field::Once(json) && value.spelled_by(json)
}

/// Whether `members` hold a value of the type under `name`, or none: the
/// name is absent, or stands once with `null` or with a value that is
/// accepted.
pub open spec fn optional_accepts<T: Decode>(
    members: Seq<(String, Json)>,
    name: Seq<char>,
) -> bool {
    match member(members, name) {
        Field::Absent => true,
        Field::Once(json) => json is Null || T::accepts(json),
        Field::Repeated => false,
    }
}

/// Whether `value` is what `members` hold under `name`: nothing for a
/// name that is absent or stands with `null`.
pub open spec fn optional_spelled<T: Decode>(
    value: Option<T>,
    members: Seq<(String, Json)>,
    name: Seq<char>,
) -> bool {
    match member(members, name) {
        Field::Absent => value is None,
        Field::Once(json) => match value {
            Some(inner) => !(json is Null) && inner.spelled_by(json),
            None => json is Null,
        },
        Field::Repeated => false,
    }
}

/// Decodes the member that a record cannot do without.
pub fn required<T: Decode>(members: &Vec<(String, Json)>, name: &str) -> (decoded: Result<
    T,
    DecodeError,
>)
    ensures
        decoded.is_ok() == required_accepts::<T>(members@, name@),
        decoded matches Ok(value) ==> required_spelled(value, members@, name@),
{
    match find(members, name) {
        Found::Once(json) => T::decode(json),
        _ => Err(DecodeError),
    }
}

/// Decodes the member that a record may lack.
pub fn optional<T: Decode>(members: &Vec<(String, Json)>, name: &str) -> (decoded: Result<
    Option<T>,
    DecodeError,
>)
    ensures
        decoded.is_ok() == optional_accepts::<T>(members@, name@),
        decoded matches Ok(value) ==> optional_spelled(value, members@, name@),
{
    match find(members, name) {
        Found::Absent => Ok(None),
        Found::Once(json) => {
            match json {
                Json::Null => Ok(None),
                _ => match T::decode(json) {
                    Ok(value) => Ok(Some(value)),
                    Err(error) => Err(error),
                },
            }
        },
        Found::Repeated => Err(DecodeError),
    }
}

} // verus!
