//! The sub-query that lists the members of a category.

use crate::requests::params::Params;
use vstd::prelude::*;

verus! {

/// A *categorymembers* list query. It writes into the table of the query
/// that it belongs to; a value given twice for one parameter is joined to
/// the first by a pipe.
///
/// Each method hands back the sub-query that it was called on, so that
/// calls can follow each other. Its contract says what the table holds
/// after the call, and that the sub-query handed back ends in the table
/// that the one called on was to end in.
pub struct CategoryMembersQuery<'a, 'b> {
    pub params: &'b mut Params<'a>,
}

impl<'a, 'b> CategoryMembersQuery<'a, 'b> {
    /// Starts the sub-query: `categorymembers` joins the lists of the request.
    pub fn new(params: &'b mut Params<'a>) -> (sub: CategoryMembersQuery<'a, 'b>)
        ensures
            sub.params.extends(old(params), "list"@, "categorymembers"@),
            *final(params) == *final(sub.params),
    {
        params.append("list", "categorymembers");
        CategoryMembersQuery { params }
    }

    /// The category to list, by its title.
    pub fn cm_title(&mut self, value: &str) -> (sub: &mut Self)
        ensures
            sub.params.extends(old(self).params, "cmtitle"@, value@),
            *final(sub.params) == *final(old(self).params),
            *final(self) == *final(sub),
    {
        self.params.append("cmtitle", value);
        self
    }

    /// The category to list, by its page id.
    pub fn cm_page_id(&mut self, value: &str) -> (sub: &mut Self)
        ensures
            sub.params.extends(old(self).params, "cmpageid"@, value@),
            *final(sub.params) == *final(old(self).params),
            *final(self) == *final(sub),
    {
        self.params.append("cmpageid", value);
        self
    }

    /// A property to get of each member.
    pub fn cm_prop(&mut self, value: &str) -> (sub: &mut Self)
        ensures
            sub.params.extends(old(self).params, "cmprop"@, value@),
            *final(sub.params) == *final(old(self).params),
            *final(self) == *final(sub),
    {
        self.params.append("cmprop", value);
        self
    }

    /// A type of member to list.
    pub fn cm_type(&mut self, value: &str) -> (sub: &mut Self)
        ensures
            sub.params.extends(old(self).params, "cmtype"@, value@),
            *final(sub.params) == *final(old(self).params),
            *final(self) == *final(sub),
    {
        self.params.append("cmtype", value);
        self
    }

    /// How many members to return.
    pub fn cm_limit(&mut self, value: &str) -> (sub: &mut Self)
        ensures
            sub.params.extends(old(self).params, "cmlimit"@, value@),
            *final(sub.params) == *final(old(self).params),
            *final(self) == *final(sub),
    {
        self.params.append("cmlimit", value);
        self
    }

    /// The property to sort by.
    pub fn cm_sort(&mut self, value: &str) -> (sub: &mut Self)
        ensures
            sub.params.extends(old(self).params, "cmsort"@, value@),
            *final(sub.params) == *final(old(self).params),
            *final(self) == *final(sub),
    {
        self.params.append("cmsort", value);
        self
    }

    /// The direction to sort in.
    pub fn cm_dir(&mut self, value: &str) -> (sub: &mut Self)
        ensures
            sub.params.extends(old(self).params, "cmdir"@, value@),
            *final(sub.params) == *final(old(self).params),
            *final(self) == *final(sub),
    {
        self.params.append("cmdir", value);
        self
    }

    /// The timestamp to start listing from.
    pub fn cm_start(&mut self, value: &str) -> (sub: &mut Self)
        ensures
            sub.params.extends(old(self).params, "cmstart"@, value@),
            *final(sub.params) == *final(old(self).params),
            *final(self) == *final(sub),
    {
        self.params.append("cmstart", value);
        self
    }

    /// The timestamp to end listing at.
    pub fn cm_end(&mut self, value: &str) -> (sub: &mut Self)
        ensures
            sub.params.extends(old(self).params, "cmend"@, value@),
            *final(sub.params) == *final(old(self).params),
            *final(self) == *final(sub),
    {
        self.params.append("cmend", value);
        self
    }

    /// The sort key to start listing from, in hexadecimal.
    pub fn cm_start_hex_sort_key(&mut self, value: &str) -> (sub: &mut Self)
        ensures
            sub.params.extends(old(self).params, "cmstarthexsortkey"@, value@),
            *final(sub.params) == *final(old(self).params),
            *final(self) == *final(sub),
    {
        self.params.append("cmstarthexsortkey", value);
        self
    }

    /// The sort key to end listing at, in hexadecimal.
    pub fn cm_end_hex_sort_key(&mut self, value: &str) -> (sub: &mut Self)
        ensures
            sub.params.extends(old(self).params, "cmendhexsortkey"@, value@),
            *final(sub.params) == *final(old(self).params),
            *final(self) == *final(sub),
    {
        self.params.append("cmendhexsortkey", value);
        self
    }

    /// The sort key prefix to start listing from.
    pub fn cm_start_sort_key_prefix(&mut self, value: &str) -> (sub: &mut Self)
        ensures
            sub.params.extends(old(self).params, "cmstartsortkeyprefix"@, value@),
            *final(sub.params) == *final(old(self).params),
            *final(self) == *final(sub),
    {
        self.params.append("cmstartsortkeyprefix", value);
        self
    }

    /// The sort key prefix to end listing before.
    pub fn cm_end_sort_key_prefix(&mut self, value: &str) -> (sub: &mut Self)
        ensures
            sub.params.extends(old(self).params, "cmendsortkeyprefix"@, value@),
            *final(sub.params) == *final(old(self).params),
            *final(self) == *final(sub),
    {
        self.params.append("cmendsortkeyprefix", value);
        self
    }

    /// The token with which an earlier list is continued.
    pub fn cm_continue(&mut self, value: &str) -> (sub: &mut Self)
        ensures
            sub.params.extends(old(self).params, "cmcontinue"@, value@),
            *final(sub.params) == *final(old(self).params),
            *final(self) == *final(sub),
    {
        self.params.append("cmcontinue", value);
        self
    }
}

} // verus!
