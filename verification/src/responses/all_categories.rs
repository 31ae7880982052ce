//! What a list of categories holds.

use crate::decode::{
    optional, optional_accepts, optional_spelled, required, required_accepts, required_spelled,
    Decode, DecodeError,
};
use crate::json::Json;
use vstd::prelude::*;

verus! {

/// One category, with the counts that were asked for.
#[derive(Debug)]
pub struct Data {
    pub category: String,
    pub size: Option<u32>,
    pub pages: Option<u32>,
    pub files: Option<u32>,
    pub subcats: Option<u32>,
}

impl Decode for Data {
    open spec fn accepts(json: Json) -> bool {
        &&& json matches Json::Object(members)
        &&& required_accepts::<String>(members@, "category"@)
        &&& optional_accepts::<u32>(members@, "size"@)
        &&& optional_accepts::<u32>(members@, "pages"@)
        &&& optional_accepts::<u32>(members@, "files"@)
        &&& optional_accepts::<u32>(members@, "subcats"@)
    }

    open spec fn spelled_by(&self, json: Json) -> bool {
        &&& json matches Json::Object(members)
        &&& required_spelled(self.category, members@, "category"@)
        &&& optional_spelled(self.size, members@, "size"@)
        &&& optional_spelled(self.pages, members@, "pages"@)
        &&& optional_spelled(self.files, members@, "files"@)
        &&& optional_spelled(self.subcats, members@, "subcats"@)
    }

    fn decode(json: &Json) -> (decoded: Result<Self, DecodeError>) {
        let members = match json {
            Json::Object(members) => members,
            _ => {
                return Err(DecodeError);
            },
        };
        let category = required::<String>(members, "category")?;
        let size = optional::<u32>(members, "size")?;
        let pages = optional::<u32>(members, "pages")?;
        let files = optional::<u32>(members, "files")?;
        let subcats = optional::<u32>(members, "subcats")?;
        Ok(Data { category, size, pages, files, subcats })
    }
}

} // verus!
