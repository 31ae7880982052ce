//! Responses: the typed records of a decoded reply.

pub mod all_categories;
pub mod category_members;
pub mod pages;

use crate::decode::{
    optional, optional_accepts, optional_spelled, required, required_accepts, required_spelled,
    Decode, DecodeError,
};
use crate::json::Json;
use vstd::prelude::*;

verus! {

/// The tokens with which a truncated result is continued: the marker that
/// every continuation carries, and one token for each list or property
/// that has more to give. A response without such a block is complete.
#[derive(Debug)]
pub struct ContinueBlock {
    pub continuation: String,
    pub ac_continue: Option<String>,
    pub cm_continue: Option<String>,
    pub in_continue: Option<String>,
    pub desc_continue: Option<String>,
    pub ex_continue: Option<String>,
}

/// The data of a response: one collection for each list or property that
/// was asked for.
#[derive(Debug)]
pub struct QueryBlock {
    pub pages: Option<Vec<pages::Data>>,
    pub all_categories: Option<Vec<all_categories::Data>>,
    pub category_members: Option<Vec<category_members::Data>>,
}

/// The warnings of a response: one for each list or property that the
/// server had something to say of.
#[derive(Debug)]
pub struct WarningBlock {
    pub all_categories: Option<Warnings>,
    pub category_members: Option<Warnings>,
    pub info: Option<Warnings>,
    pub pages: Option<Warnings>,
    pub description: Option<Warnings>,
    pub extracts: Option<Warnings>,
}

/// A response to a query.
#[derive(Debug)]
pub struct Query {
    pub batch_complete: bool,
    pub query: QueryBlock,
    pub continue_block: Option<ContinueBlock>,
    pub warnings: Option<WarningBlock>,
}

/// What the server warns of, in its own words.
#[derive(Debug)]
pub struct Warnings {
    pub warnings: String,
}

impl Decode for ContinueBlock {
    open spec fn accepts(json: Json) -> bool {
        &&& json matches Json::Object(members)
        &&& required_accepts::<String>(members@, "continue"@)
        &&& optional_accepts::<String>(members@, "accontinue"@)
        &&& optional_accepts::<String>(members@, "cmcontinue"@)
        &&& optional_accepts::<String>(members@, "incontinue"@)
        &&& optional_accepts::<String>(members@, "desccontinue"@)
        &&& optional_accepts::<String>(members@, "excontinue"@)
    }

    open spec fn spelled_by(&self, json: Json) -> bool {
        &&& json matches Json::Object(members)
        &&& required_spelled(self.continuation, members@, "continue"@)
        &&& optional_spelled(self.ac_continue, members@, "accontinue"@)
        &&& optional_spelled(self.cm_continue, members@, "cmcontinue"@)
        &&& optional_spelled(self.in_continue, members@, "incontinue"@)
        &&& optional_spelled(self.desc_continue, members@, "desccontinue"@)
        &&& optional_spelled(self.ex_continue, members@, "excontinue"@)
    }

    fn decode(json: &Json) -> (decoded: Result<Self, DecodeError>) {
        let members = match json {
            Json::Object(members) => members,
            _ => {
                return Err(DecodeError);
            },
        };
        let continuation = required::<String>(members, "continue")?;
        let ac_continue = optional::<String>(members, "accontinue")?;
        let cm_continue = optional::<String>(members, "cmcontinue")?;
        let in_continue = optional::<String>(members, "incontinue")?;
        let desc_continue = optional::<String>(members, "desccontinue")?;
        let ex_continue = optional::<String>(members, "excontinue")?;
        Ok(
            ContinueBlock {
                continuation,
                ac_continue,
                cm_continue,
                in_continue,
                desc_continue,
                ex_continue,
            },
        )
    }
}

impl Decode for QueryBlock {
    open spec fn accepts(json: Json) -> bool {
        &&& json matches Json::Object(members)
        &&& optional_accepts::<Vec<pages::Data>>(members@, "pages"@)
        &&& optional_accepts::<Vec<all_categories::Data>>(members@, "allcategories"@)
        &&& optional_accepts::<Vec<category_members::Data>>(members@, "categorymembers"@)
    }

    open spec fn spelled_by(&self, json: Json) -> bool {
        &&& json matches Json::Object(members)
        &&& optional_spelled(self.pages, members@, "pages"@)
        &&& optional_spelled(self.all_categories, members@, "allcategories"@)
        &&& optional_spelled(self.category_members, members@, "categorymembers"@)
    }

    fn decode(json: &Json) -> (decoded: Result<Self, DecodeError>) {
        let members = match json {
            Json::Object(members) => members,
            _ => {
                return Err(DecodeError);
            },
        };
        let pages = optional::<Vec<pages::Data>>(members, "pages")?;
        let all_categories = optional::<Vec<all_categories::Data>>(members, "allcategories")?;
        let category_members = optional::<Vec<category_members::Data>>(
            members,
            "categorymembers",
        )?;
        Ok(QueryBlock { pages, all_categories, category_members })
    }
}

impl Decode for Warnings {
    open spec fn accepts(json: Json) -> bool {
        &&& json matches Json::Object(members)
        &&& required_accepts::<String>(members@, "warnings"@)
    }

    open spec fn spelled_by(&self, json: Json) -> bool {
        &&& json matches Json::Object(members)
        &&& required_spelled(self.warnings, members@, "warnings"@)
    }

    fn decode(json: &Json) -> (decoded: Result<Self, DecodeError>) {
        let members = match json {
            Json::Object(members) => members,
            _ => {
                return Err(DecodeError);
            },
        };
        let warnings = required::<String>(members, "warnings")?;
        Ok(Warnings { warnings })
    }
}

impl Decode for WarningBlock {
    /// Whichever of the six warnings are there are decoded: none is
    /// needed.
    open spec fn accepts(json: Json) -> bool {
        &&& json matches Json::Object(members)
        &&& optional_accepts::<Warnings>(members@, "allcategories"@)
        &&& optional_accepts::<Warnings>(members@, "categorymembers"@)
        &&& optional_accepts::<Warnings>(members@, "info"@)
        &&& optional_accepts::<Warnings>(members@, "pages"@)
        &&& optional_accepts::<Warnings>(members@, "description"@)
        &&& optional_accepts::<Warnings>(members@, "extracts"@)
    }

    open spec fn spelled_by(&self, json: Json) -> bool {
        &&& json matches Json::Object(members)
        &&& optional_spelled(self.all_categories, members@, "allcategories"@)
        &&& optional_spelled(self.category_members, members@, "categorymembers"@)
        &&& optional_spelled(self.info, members@, "info"@)
        &&& optional_spelled(self.pages, members@, "pages"@)
        &&& optional_spelled(self.description, members@, "description"@)
        &&& optional_spelled(self.extracts, members@, "extracts"@)
    }

    fn decode(json: &Json) -> (decoded: Result<Self, DecodeError>) {
        let members = match json {
            Json::Object(members) => members,
            _ => {
                return Err(DecodeError);
            },
        };
        let all_categories = optional::<Warnings>(members, "allcategories")?;
        let category_members = optional::<Warnings>(members, "categorymembers")?;
        let info = optional::<Warnings>(members, "info")?;
        let pages = optional::<Warnings>(members, "pages")?;
        let description = optional::<Warnings>(members, "description")?;
        let extracts = optional::<Warnings>(members, "extracts")?;
        Ok(WarningBlock { all_categories, category_members, info, pages, description, extracts })
    }
}

impl Decode for Query {
    open spec fn accepts(json: Json) -> bool {
        &&& json matches Json::Object(members)
        &&& required_accepts::<bool>(members@, "batchcomplete"@)
        &&& required_accepts::<QueryBlock>(members@, "query"@)
        &&& optional_accepts::<ContinueBlock>(members@, "continue"@)
        &&& optional_accepts::<WarningBlock>(members@, "warnings"@)
    }

    open spec fn spelled_by(&self, json: Json) -> bool {
        &&& json matches Json::Object(members)
        &&& required_spelled(self.batch_complete, members@, "batchcomplete"@)
        &&& required_spelled(self.query, members@, "query"@)
        &&& optional_spelled(self.continue_block, members@, "continue"@)
        &&& optional_spelled(self.warnings, members@, "warnings"@)
    }

    fn decode(json: &Json) -> (decoded: Result<Self, DecodeError>) {
        let members = match json {
            Json::Object(members) => members,
            _ => {
                return Err(DecodeError);
            },
        };
        let batch_complete = required::<bool>(members, "batchcomplete")?;
        let query = required::<QueryBlock>(members, "query")?;
        let continue_block = optional::<ContinueBlock>(members, "continue")?;
        let warnings = optional::<WarningBlock>(members, "warnings")?;
        Ok(Query { batch_complete, query, continue_block, warnings })
    }
}

} // verus!
