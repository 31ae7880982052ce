//! What a query for pages holds.

pub mod info;

use crate::decode::{
    optional, optional_accepts, optional_spelled, required, required_accepts, required_spelled,
    Decode, DecodeError, Members,
};
use crate::json::{member, Field, Json};
use crate::responses::pages::info::{Actions, Protection};
use vstd::prelude::*;

verus! {

/// One page. The namespace, the title and the page id are always there;
/// what a property adds is there only where the property was asked for.
#[derive(Debug)]
pub struct Data {
    pub ns: u32,
    pub title: String,
    pub missing: Option<bool>,
    pub page_id: u64,
    /// From the `description` property.
    pub description: Option<String>,
    pub description_source: Option<String>,
    /// From the `extracts` property.
    pub extract: Option<String>,
    /// From the `info` property.
    pub content_model: Option<String>,
    pub page_language: Option<String>,
    pub page_language_html_code: Option<String>,
    pub page_language_dir: Option<String>,
    pub touched: Option<String>,
    pub last_rev_id: Option<u32>,
    pub length: Option<u32>,
    pub protection: Option<Vec<Protection>>,
    pub restriction_types: Option<Vec<String>>,
    pub full_url: Option<String>,
    pub edit_url: Option<String>,
    pub canonical_url: Option<String>,
    pub display_title: Option<String>,
    /// The outcome of each tested action, under the name of the action:
    /// a plain yes or no, or the reason for which the action is refused.
    pub actions: Option<Members<Actions>>,
}

impl Data {
    /// Whether `json` is an object that holds what every page has: the
    /// namespace, the title and the page id, and the flag of a missing
    /// page or none.
    pub open spec fn core_accepts(json: Json) -> bool {
        &&& json matches Json::Object(members)
        &&& required_accepts::<u32>(members@, "ns"@)
        &&& required_accepts::<String>(members@, "title"@)
        &&& optional_accepts::<bool>(members@, "missing"@)
        &&& required_accepts::<u64>(members@, "pageid"@)
    }

    /// Whether `json` is an object without a member of any property.
    pub open spec fn names_no_property(json: Json) -> bool {
        &&& json matches Json::Object(members)
        &&& member(members@, "description"@) is Absent
        &&& member(members@, "descriptionsource"@) is Absent
        &&& member(members@, "extract"@) is Absent
        &&& member(members@, "contentmodel"@) is Absent
        &&& member(members@, "pagelanguage"@) is Absent
        &&& member(members@, "pagelanguagehtmlcode"@) is Absent
        &&& member(members@, "pagelanguagedir"@) is Absent
        &&& member(members@, "touched"@) is Absent
        &&& member(members@, "lastrevid"@) is Absent
        &&& member(members@, "length"@) is Absent
        &&& member(members@, "protection"@) is Absent
        &&& member(members@, "restrictiontypes"@) is Absent
        &&& member(members@, "fullurl"@) is Absent
        &&& member(members@, "editurl"@) is Absent
        &&& member(members@, "canonicalurl"@) is Absent
        &&& member(members@, "displaytitle"@) is Absent
        &&& member(members@, "actions"@) is Absent
    }

    /// Whether this page holds nothing of any property.
    pub open spec fn holds_no_property(&self) -> bool {
        &&& self.description is None
        &&& self.description_source is None
        &&& self.extract is None
        &&& self.content_model is None
        &&& self.page_language is None
        &&& self.page_language_html_code is None
        &&& self.page_language_dir is None
        &&& self.touched is None
        &&& self.last_rev_id is None
        &&& self.length is None
        &&& self.protection is None
        &&& self.restriction_types is None
        &&& self.full_url is None
        &&& self.edit_url is None
        &&& self.canonical_url is None
        &&& self.display_title is None
        &&& self.actions is None
    }
}

impl Decode for Data {
    open spec fn accepts(json: Json) -> bool {
        &&& json matches Json::Object(members)
        &&& required_accepts::<u32>(members@, "ns"@)
        &&& required_accepts::<String>(members@, "title"@)
        &&& optional_accepts::<bool>(members@, "missing"@)
        &&& required_accepts::<u64>(members@, "pageid"@)
        &&& optional_accepts::<String>(members@, "description"@)
        &&& optional_accepts::<String>(members@, "descriptionsource"@)
        &&& optional_accepts::<String>(members@, "extract"@)
        &&& optional_accepts::<String>(members@, "contentmodel"@)
        &&& optional_accepts::<String>(members@, "pagelanguage"@)
        &&& optional_accepts::<String>(members@, "pagelanguagehtmlcode"@)
        &&& optional_accepts::<String>(members@, "pagelanguagedir"@)
        &&& optional_accepts::<String>(members@, "touched"@)
        &&& optional_accepts::<u32>(members@, "lastrevid"@)
        &&& optional_accepts::<u32>(members@, "length"@)
        &&& optional_accepts::<Vec<Protection>>(members@, "protection"@)
        &&& optional_accepts::<Vec<String>>(members@, "restrictiontypes"@)
        &&& optional_accepts::<String>(members@, "fullurl"@)
        &&& optional_accepts::<String>(members@, "editurl"@)
        &&& optional_accepts::<String>(members@, "canonicalurl"@)
        &&& optional_accepts::<String>(members@, "displaytitle"@)
        &&& optional_accepts::<Members<Actions>>(members@, "actions"@)
    }

    open spec fn spelled_by(&self, json: Json) -> bool {
        &&& json matches Json::Object(members)
        &&& required_spelled(self.ns, members@, "ns"@)
        &&& required_spelled(self.title, members@, "title"@)
        &&& optional_spelled(self.missing, members@, "missing"@)
        &&& required_spelled(self.page_id, members@, "pageid"@)
        &&& optional_spelled(self.description, members@, "description"@)
        &&& optional_spelled(self.description_source, members@, "descriptionsource"@)
        &&& optional_spelled(self.extract, members@, "extract"@)
        &&& optional_spelled(self.content_model, members@, "contentmodel"@)
        &&& optional_spelled(self.page_language, members@, "pagelanguage"@)
        &&& optional_spelled(self.page_language_html_code, members@, "pagelanguagehtmlcode"@)
        &&& optional_spelled(self.page_language_dir, members@, "pagelanguagedir"@)
        &&& optional_spelled(self.touched, members@, "touched"@)
        &&& optional_spelled(self.last_rev_id, members@, "lastrevid"@)
        &&& optional_spelled(self.length, members@, "length"@)
        &&& optional_spelled(self.protection, members@, "protection"@)
        &&& optional_spelled(self.restriction_types, members@, "restrictiontypes"@)
        &&& optional_spelled(self.full_url, members@, "fullurl"@)
        &&& optional_spelled(self.edit_url, members@, "editurl"@)
        &&& optional_spelled(self.canonical_url, members@, "canonicalurl"@)
        &&& optional_spelled(self.display_title, members@, "displaytitle"@)
        &&& optional_spelled(self.actions, members@, "actions"@)
    }

    /// Nothing of any property is needed: without a member of a property
    /// the object spells a page as soon as it holds what every page has,
    /// and that page holds nothing of any property.
    fn decode(json: &Json) -> (decoded: Result<Self, DecodeError>)
        ensures
            Self::names_no_property(*json) ==> decoded.is_ok() == Self::core_accepts(*json),
            Self::names_no_property(*json) && decoded is Ok ==> decoded->Ok_0.holds_no_property(),
    {
        let members = match json {
            Json::Object(members) => members,
            _ => {
                return Err(DecodeError);
            },
        };
        let ns = required::<u32>(members, "ns")?;
        let title = required::<String>(members, "title")?;
        let missing = optional::<bool>(members, "missing")?;
        let page_id = required::<u64>(members, "pageid")?;
        let description = optional::<String>(members, "description")?;
        let description_source = optional::<String>(members, "descriptionsource")?;
        let extract = optional::<String>(members, "extract")?;
        let content_model = optional::<String>(members, "contentmodel")?;
        let page_language = optional::<String>(members, "pagelanguage")?;
        let page_language_html_code = optional::<String>(members, "pagelanguagehtmlcode")?;
        let page_language_dir = optional::<String>(members, "pagelanguagedir")?;
        let touched = optional::<String>(members, "touched")?;
        let last_rev_id = optional::<u32>(members, "lastrevid")?;
        let length = optional::<u32>(members, "length")?;
        let protection = optional::<Vec<Protection>>(members, "protection")?;
        let restriction_types = optional::<Vec<String>>(members, "restrictiontypes")?;
        let full_url = optional::<String>(members, "fullurl")?;
        let edit_url = optional::<String>(members, "editurl")?;
        let canonical_url = optional::<String>(members, "canonicalurl")?;
        let display_title = optional::<String>(members, "displaytitle")?;
        let actions = optional::<Members<Actions>>(members, "actions")?;
        Ok(
            Data {
                ns,
                title,
                missing,
                page_id,
                description,
                description_source,
                extract,
                content_model,
                page_language,
                page_language_html_code,
                page_language_dir,
                touched,
                last_rev_id,
                length,
                protection,
                restriction_types,
                full_url,
                edit_url,
                canonical_url,
                display_title,
                actions,
            },
        )
    }
}

/// A page that is reported missing needs nothing of what the properties
/// add. An object that holds the namespace, the title, the page id and
/// the flag, and no member of any property, spells a page; that page is
/// reported missing and holds nothing of any property.
pub proof fn lemma_missing_page_needs_no_property(json: Json, page: Data)
    requires
        Data::core_accepts(json),
        Data::names_no_property(json),
        member(json->Object_0@, "missing"@) == Field::Once(Json::Bool(true)),
    ensures
        Data::accepts(json),
        page.spelled_by(json) ==> page.missing == Some(true) && page.holds_no_property(),
{
}

} // verus!
