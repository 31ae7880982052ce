//! What the `info` property adds to a page.

use crate::decode::{
    required, required_accepts, required_spelled, Decode, DecodeError, Members,
};
use crate::json::{member, Field, Json};
use vstd::prelude::*;

verus! {

/// The outcome of testing one action on a page: a plain yes or no, or the
/// reason for which the action is refused.
#[derive(Debug)]
pub enum Actions {
    Bool(bool),
    Detailed(DetailedActions),
}

/// The reason for which an action is refused.
#[derive(Debug)]
pub struct DetailedActions {
    pub code: String,
    pub text: String,
}

/// One protection of a page.
#[derive(Debug)]
pub struct Protection {
    pub protection_type: String,
    pub level: String,
    pub expiry: String,
}

impl Decode for DetailedActions {
    open spec fn accepts(json: Json) -> bool {
        &&& json matches Json::Object(members)
        &&& required_accepts::<String>(members@, "code"@)
        &&& required_accepts::<String>(members@, "text"@)
    }

    open spec fn spelled_by(&self, json: Json) -> bool {
        &&& json matches Json::Object(members)
        &&& required_spelled(self.code, members@, "code"@)
        &&& required_spelled(self.text, members@, "text"@)
    }

    fn decode(json: &Json) -> (decoded: Result<Self, DecodeError>) {
        let members = match json {
            Json::Object(members) => members,
            _ => {
                return Err(DecodeError);
            },
        };
        let code = required::<String>(members, "code")?;
        let text = required::<String>(members, "text")?;
        Ok(DetailedActions { code, text })
    }
}

impl Decode for Actions {
    /// A boolean is tried first, then the detailed record; any other
    /// shape is refused.
    open spec fn accepts(json: Json) -> bool {
        json is Bool || DetailedActions::accepts(json)
    }

    open spec fn spelled_by(&self, json: Json) -> bool {
        match *self {
            Actions::Bool(flag) => json == Json::Bool(flag),
            Actions::Detailed(detail) => !(json is Bool) && detail.spelled_by(json),
        }
    }

    fn decode(json: &Json) -> (decoded: Result<Self, DecodeError>)
        ensures
            json is Bool ==> decoded == Ok::<Actions, DecodeError>(Actions::Bool(json->Bool_0)),
            json is Object && decoded is Ok ==> decoded->Ok_0 is Detailed,
            !(json is Bool || json is Object) ==> decoded is Err,
    {
        match bool::decode(json) {
            Ok(flag) => Ok(Actions::Bool(flag)),
            Err(_) => match DetailedActions::decode(json) {
                Ok(detail) => Ok(Actions::Detailed(detail)),
                Err(error) => Err(error),
            },
        }
    }
}

/// The text that `members` hold under `name`, where the name stands once
/// with a string.
pub open spec fn text_under(members: Seq<(String, Json)>, name: Seq<char>) -> Option<Seq<char>> {
    match member(members, name) {
        Field::Once(Json::Text(text)) => Some(text@),
        _ => None,
    }
}

/// The two shapes of an outcome. A boolean spells the plain outcome with
/// that boolean. An object that holds a code and a text, each once and
/// each a string, spells the detailed outcome with that code and that
/// text. Nothing else spells an outcome.
pub proof fn lemma_action_shapes(json: Json, action: Actions)
    ensures
        json is Bool ==> Actions::accepts(json),
        json is Bool && action.spelled_by(json) ==> action == Actions::Bool(json->Bool_0),
        json is Object ==> (Actions::accepts(json) <==> text_under(json->Object_0@, "code"@) is Some
            && text_under(json->Object_0@, "text"@) is Some),
        json is Object && action.spelled_by(json) ==> {
            &&& action is Detailed
            &&& text_under(json->Object_0@, "code"@) == Some(action->Detailed_0.code@)
            &&& text_under(json->Object_0@, "text"@) == Some(action->Detailed_0.text@)
        },
        !(json is Bool || json is Object) ==> !Actions::accepts(json),
{
}

/// The outcomes of the actions tested on a page: under each name of the
/// object one outcome. A member that is a boolean spells the plain
/// outcome with that boolean under its name, and a member that is an
/// object spells a detailed outcome under its name.
pub proof fn lemma_action_members(json: Json, outcomes: Members<Actions>, i: int)
    requires
        json is Object,
        0 <= i < json->Object_0@.len(),
        outcomes.spelled_by(json),
    ensures
        outcomes.entries@.len() == json->Object_0@.len(),
        outcomes.entries@[i].0@ == json->Object_0@[i].0@,
        json->Object_0@[i].1 is Bool ==> outcomes.entries@[i].1 == Actions::Bool(
            json->Object_0@[i].1->Bool_0,
        ),
        json->Object_0@[i].1 is Object ==> outcomes.entries@[i].1 is Detailed,
        Members::<Actions>::accepts(json) ==> json->Object_0@[i].1 is Bool
            || json->Object_0@[i].1 is Object,
{
    assert(outcomes.entries@[i].1.spelled_by(json->Object_0@[i].1));
}

impl Decode for Protection {
    open spec fn accepts(json: Json) -> bool {
        &&& json matches Json::Object(members)
        &&& required_accepts::<String>(members@, "type"@)
        &&& required_accepts::<String>(members@, "level"@)
        &&& required_accepts::<String>(members@, "expiry"@)
    }

    open spec fn spelled_by(&self, json: Json) -> bool {
        &&& json matches Json::Object(members)
        &&& required_spelled(self.protection_type, members@, "type"@)
        &&& required_spelled(self.level, members@, "level"@)
        &&& required_spelled(self.expiry, members@, "expiry"@)
    }

    fn decode(json: &Json) -> (decoded: Result<Self, DecodeError>) {
        let members = match json {
            Json::Object(members) => members,
            _ => {
                return Err(DecodeError);
            },
        };
        let protection_type = required::<String>(members, "type")?;
        let level = required::<String>(members, "level")?;
        let expiry = required::<String>(members, "expiry")?;
        Ok(Protection { protection_type, level, expiry })
    }
}

} // verus!
