//! What a list of the members of a category holds.

use crate::decode::{optional, optional_accepts, optional_spelled, Decode, DecodeError};
use crate::json::Json;
use vstd::prelude::*;

verus! {

/// One member of a category, with the properties that were asked for.
#[derive(Debug)]
pub struct Data {
    pub page_id: Option<u32>,
    pub ns: Option<u32>,
    pub sort_key: Option<String>,
    pub sort_key_prefix: Option<String>,
    pub title: Option<String>,
    pub page_type: Option<String>,
    pub timestamp: Option<String>,
}

impl Decode for Data {
    open spec fn accepts(json: Json) -> bool {
        &&& json matches Json::Object(members)
        &&& optional_accepts::<u32>(members@, "pageid"@)
        &&& optional_accepts::<u32>(members@, "ns"@)
        &&& optional_accepts::<String>(members@, "sortkey"@)
        &&& optional_accepts::<String>(members@, "sortkeyprefix"@)
        &&& optional_accepts::<String>(members@, "title"@)
        &&& optional_accepts::<String>(members@, "type"@)
        &&& optional_accepts::<String>(members@, "timestamp"@)
    }

    open spec fn spelled_by(&self, json: Json) -> bool {
        &&& json matches Json::Object(members)
        &&& optional_spelled(self.page_id, members@, "pageid"@)
        &&& optional_spelled(self.ns, members@, "ns"@)
        &&& optional_spelled(self.sort_key, members@, "sortkey"@)
        &&& optional_spelled(self.sort_key_prefix, members@, "sortkeyprefix"@)
        &&& optional_spelled(self.title, members@, "title"@)
        &&& optional_spelled(self.page_type, members@, "type"@)
        &&& optional_spelled(self.timestamp, members@, "timestamp"@)
    }

    fn decode(json: &Json) -> (decoded: Result<Self, DecodeError>) {
        let members = match json {
            Json::Object(members) => members,
            _ => {
                return Err(DecodeError);
            },
        };
        let page_id = optional::<u32>(members, "pageid")?;
        let ns = optional::<u32>(members, "ns")?;
        let sort_key = optional::<String>(members, "sortkey")?;
        let sort_key_prefix = optional::<String>(members, "sortkeyprefix")?;
        let title = optional::<String>(members, "title")?;
        let page_type = optional::<String>(members, "type")?;
        let timestamp = optional::<String>(members, "timestamp")?;
        Ok(Data { page_id, ns, sort_key, sort_key_prefix, title, page_type, timestamp })
    }
}

} // verus!
