//! The error that the server reports in place of a result.

use crate::decode::{required, required_accepts, required_spelled, Decode, DecodeError};
use crate::json::Json;
use vstd::prelude::*;

verus! {

/// A response that reports an error: the error, and the host that served
/// it.
#[derive(Debug, PartialEq)]
pub struct WikiError {
    pub error: WikiErrorInner,
    pub served_by: String,
}

/// The error itself: its code, what it says, and where to read more.
#[derive(Debug, PartialEq)]
pub struct WikiErrorInner {
    pub code: String,
    pub info: String,
    pub docref: String,
}

impl Decode for WikiErrorInner {
    open spec fn accepts(json: Json) -> bool {
        &&& json matches Json::Object(members)
        &&& required_accepts::<String>(members@, "code"@)
        &&& required_accepts::<String>(members@, "info"@)
        &&& required_accepts::<String>(members@, "docref"@)
    }

    open spec fn spelled_by(&self, json: Json) -> bool {
        &&& json matches Json::Object(members)
        &&& required_spelled(self.code, members@, "code"@)
        &&& required_spelled(self.info, members@, "info"@)
        &&& required_spelled(self.docref, members@, "docref"@)
    }

    fn decode(json: &Json) -> (decoded: Result<Self, DecodeError>) {
        let members = match json {
            Json::Object(members) => members,
            _ => {
                return Err(DecodeError);
            },
        };
        let code = required::<String>(members, "code")?;
        let info = required::<String>(members, "info")?;
        let docref = required::<String>(members, "docref")?;
        Ok(WikiErrorInner { code, info, docref })
    }
}

impl Decode for WikiError {
    open spec fn accepts(json: Json) -> bool {
        &&& json matches Json::Object(members)
        &&& required_accepts::<WikiErrorInner>(members@, "error"@)
        &&& required_accepts::<String>(members@, "servedby"@)
    }

    open spec fn spelled_by(&self, json: Json) -> bool {
        &&& json matches Json::Object(members)
        &&& required_spelled(self.error, members@, "error"@)
        &&& required_spelled(self.served_by, members@, "servedby"@)
    }

    fn decode(json: &Json) -> (decoded: Result<Self, DecodeError>) {
        let members = match json {
            Json::Object(members) => members,
            _ => {
                return Err(DecodeError);
            },
        };
        let error = required::<WikiErrorInner>(members, "error")?;
        let served_by = required::<String>(members, "servedby")?;
        Ok(WikiError { error, served_by })
    }
}

} // verus!
