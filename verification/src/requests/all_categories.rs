//! The sub-query that lists categories.

use crate::requests::params::Params;
use vstd::prelude::*;

verus! {

/// An *allcategories* list query. It writes into the table of the query
/// that it belongs to; a value given twice for one parameter is joined to
/// the first by a pipe.
///
/// Each method hands back the sub-query that it was called on, so that
/// calls can follow each other. Its contract says what the table holds
/// after the call, and that the sub-query handed back ends in the table
/// that the one called on was to end in.
pub struct AllCategoriesQuery<'a, 'b> {
    pub params: &'b mut Params<'a>,
}

impl<'a, 'b> AllCategoriesQuery<'a, 'b> {
    /// Starts the sub-query: `allcategories` joins the lists of the request.
    pub fn new(params: &'b mut Params<'a>) -> (sub: AllCategoriesQuery<'a, 'b>)
        ensures
            sub.params.extends(old(params), "list"@, "allcategories"@),
            *final(params) == *final(sub.params),
    {
        params.append("list", "allcategories");
        AllCategoriesQuery { params }
    }

    /// The category to start listing from.
    pub fn ac_from(&mut self, value: &str) -> (sub: &mut Self)
        ensures
            sub.params.extends(old(self).params, "acfrom"@, value@),
            *final(sub.params) == *final(old(self).params),
            *final(self) == *final(sub),
    {
        self.params.append("acfrom", value);
        self
    }

    /// The category to stop listing at.
    pub fn ac_to(&mut self, value: &str) -> (sub: &mut Self)
        ensures
            sub.params.extends(old(self).params, "acto"@, value@),
            *final(sub.params) == *final(old(self).params),
            *final(self) == *final(sub),
    {
        self.params.append("acto", value);
        self
    }

    /// A property to get of each category.
    pub fn ac_prop(&mut self, value: &str) -> (sub: &mut Self)
        ensures
            sub.params.extends(old(self).params, "acprop"@, value@),
            *final(sub.params) == *final(old(self).params),
            *final(self) == *final(sub),
    {
        self.params.append("acprop", value);
        self
    }

    /// The least number of members of a listed category.
    pub fn ac_min(&mut self, value: &str) -> (sub: &mut Self)
        ensures
            sub.params.extends(old(self).params, "acmin"@, value@),
            *final(sub.params) == *final(old(self).params),
            *final(self) == *final(sub),
    {
        self.params.append("acmin", value);
        self
    }

    /// The greatest number of members of a listed category.
    pub fn ac_max(&mut self, value: &str) -> (sub: &mut Self)
        ensures
            sub.params.extends(old(self).params, "acmax"@, value@),
            *final(sub.params) == *final(old(self).params),
            *final(self) == *final(sub),
    {
        self.params.append("acmax", value);
        self
    }

    /// How many categories to return.
    pub fn ac_limit(&mut self, value: &str) -> (sub: &mut Self)
        ensures
            sub.params.extends(old(self).params, "aclimit"@, value@),
            *final(sub.params) == *final(old(self).params),
            *final(self) == *final(sub),
    {
        self.params.append("aclimit", value);
        self
    }

    /// The prefix with which the titles of the listed categories begin.
    pub fn ac_prefix(&mut self, value: &str) -> (sub: &mut Self)
        ensures
            sub.params.extends(old(self).params, "acprefix"@, value@),
            *final(sub.params) == *final(old(self).params),
            *final(self) == *final(sub),
    {
        self.params.append("acprefix", value);
        self
    }

    /// The direction to sort in.
    pub fn ac_dir(&mut self, value: &str) -> (sub: &mut Self)
        ensures
            sub.params.extends(old(self).params, "acdir"@, value@),
            *final(sub.params) == *final(old(self).params),
            *final(self) == *final(sub),
    {
        self.params.append("acdir", value);
        self
    }

    /// The token with which an earlier list is continued.
    pub fn ac_continue(&mut self, value: &str) -> (sub: &mut Self)
        ensures
            sub.params.extends(old(self).params, "accontinue"@, value@),
            *final(sub.params) == *final(old(self).params),
            *final(self) == *final(sub),
    {
        self.params.append("accontinue", value);
        self
    }
}

} // verus!
