//! The sub-query that gets properties of pages.

use crate::requests::params::Params;
use vstd::prelude::*;

verus! {

/// A query for pages: the titles of the pages, then the properties to
/// get of them (`info`, `description`, `extracts`), each with parameters
/// of its own. It writes into the table of the query that it belongs to;
/// a value given twice for one parameter is joined to the first by a pipe.
///
/// Each method hands back the sub-query that it was called on, so that
/// calls can follow each other. Its contract says what the table holds
/// after the call, and that the sub-query handed back ends in the table
/// that the one called on was to end in.
pub struct PagesQuery<'a, 'b> {
    pub params: &'b mut Params<'a>,
}

impl<'a, 'b> PagesQuery<'a, 'b> {
    /// Starts the sub-query. Nothing is written until a title or a
    /// property is given.
    pub fn new(params: &'b mut Params<'a>) -> (sub: PagesQuery<'a, 'b>)
        ensures
            *sub.params == *old(params),
            *final(params) == *final(sub.params),
    {
        PagesQuery { params }
    }

    /// A title of a page to work on.
    pub fn titles(&mut self, value: &str) -> (sub: &mut Self)
        ensures
            sub.params.extends(old(self).params, "titles"@, value@),
            *final(sub.params) == *final(old(self).params),
            *final(self) == *final(sub),
    {
        self.params.append("titles", value);
        self
    }

    /// Asks for the `info` property.
    pub fn info(&mut self) -> (sub: &mut Self)
        ensures
            sub.params.extends(old(self).params, "prop"@, "info"@),
            *final(sub.params) == *final(old(self).params),
            *final(self) == *final(sub),
    {
        self.params.append("prop", "info");
        self
    }

    /// A further piece of information to get of each page.
    pub fn in_prop(&mut self, value: &str) -> (sub: &mut Self)
        ensures
            sub.params.extends(old(self).params, "inprop"@, value@),
            *final(sub.params) == *final(old(self).params),
            *final(self) == *final(sub),
    {
        self.params.append("inprop", value);
        self
    }

    /// An action to test on each page.
    pub fn in_test_actions(&mut self, value: &str) -> (sub: &mut Self)
        ensures
            sub.params.extends(old(self).params, "intestactions"@, value@),
            *final(sub.params) == *final(old(self).params),
            *final(self) == *final(sub),
    {
        self.params.append("intestactions", value);
        self
    }

    /// How much to say of each tested action.
    pub fn in_test_actions_detail(&mut self, value: &str) -> (sub: &mut Self)
        ensures
            sub.params.extends(old(self).params, "intestactionsdetail"@, value@),
            *final(sub.params) == *final(old(self).params),
            *final(self) == *final(sub),
    {
        self.params.append("intestactionsdetail", value);
        self
    }

    /// The token with which earlier `info` results are continued.
    pub fn in_continue(&mut self, value: &str) -> (sub: &mut Self)
        ensures
            sub.params.extends(old(self).params, "incontinue"@, value@),
            *final(sub.params) == *final(old(self).params),
            *final(self) == *final(sub),
    {
        self.params.append("incontinue", value);
        self
    }

    /// Asks for the `description` property.
    pub fn description(&mut self) -> (sub: &mut Self)
        ensures
            sub.params.extends(old(self).params, "prop"@, "description"@),
            *final(sub.params) == *final(old(self).params),
            *final(self) == *final(sub),
    {
        self.params.append("prop", "description");
        self
    }

    /// The token with which earlier `description` results are continued.
    pub fn desc_continue(&mut self, value: &str) -> (sub: &mut Self)
        ensures
            sub.params.extends(old(self).params, "desccontinue"@, value@),
            *final(sub.params) == *final(old(self).params),
            *final(self) == *final(sub),
    {
        self.params.append("desccontinue", value);
        self
    }

    /// The source of descriptions to prefer.
    pub fn desc_prefer_source(&mut self, value: &str) -> (sub: &mut Self)
        ensures
            sub.params.extends(old(self).params, "descprefersource"@, value@),
            *final(sub.params) == *final(old(self).params),
            *final(self) == *final(sub),
    {
        self.params.append("descprefersource", value);
        self
    }

    /// Asks for the `extracts` property.
    pub fn extracts(&mut self) -> (sub: &mut Self)
        ensures
            sub.params.extends(old(self).params, "prop"@, "extracts"@),
            *final(sub.params) == *final(old(self).params),
            *final(self) == *final(sub),
    {
        self.params.append("prop", "extracts");
        self
    }

    /// How many characters to return.
    pub fn ex_chars(&mut self, value: &str) -> (sub: &mut Self)
        ensures
            sub.params.extends(old(self).params, "exchars"@, value@),
            *final(sub.params) == *final(old(self).params),
            *final(self) == *final(sub),
    {
        self.params.append("exchars", value);
        self
    }

    /// How many sentences to return.
    pub fn ex_sentences(&mut self, value: &str) -> (sub: &mut Self)
        ensures
            sub.params.extends(old(self).params, "exsentences"@, value@),
            *final(sub.params) == *final(old(self).params),
            *final(self) == *final(sub),
    {
        self.params.append("exsentences", value);
        self
    }

    /// How many extracts to return.
    pub fn ex_limit(&mut self, value: &str) -> (sub: &mut Self)
        ensures
            sub.params.extends(old(self).params, "exlimit"@, value@),
            *final(sub.params) == *final(old(self).params),
            *final(self) == *final(sub),
    {
        self.params.append("exlimit", value);
        self
    }

    /// Asks for what stands before the first section only.
    pub fn ex_intro(&mut self) -> (sub: &mut Self)
        ensures
            sub.params.extends(old(self).params, "exintro"@, "true"@),
            *final(sub.params) == *final(old(self).params),
            *final(self) == *final(sub),
    {
        self.params.append("exintro", "true");
        self
    }

    /// Asks for plain text in place of HTML.
    pub fn ex_plain_text(&mut self) -> (sub: &mut Self)
        ensures
            sub.params.extends(old(self).params, "explaintext"@, "true"@),
            *final(sub.params) == *final(old(self).params),
            *final(self) == *final(sub),
    {
        self.params.append("explaintext", "true");
        self
    }

    /// How to mark sections in plain text.
    pub fn ex_section_format(&mut self, value: &str) -> (sub: &mut Self)
        ensures
            sub.params.extends(old(self).params, "exsectionformat"@, value@),
            *final(sub.params) == *final(old(self).params),
            *final(self) == *final(sub),
    {
        self.params.append("exsectionformat", value);
        self
    }

    /// The token with which earlier `extracts` results are continued.
    pub fn ex_continue(&mut self, value: &str) -> (sub: &mut Self)
        ensures
            sub.params.extends(old(self).params, "excontinue"@, value@),
            *final(sub.params) == *final(old(self).params),
            *final(self) == *final(sub),
    {
        self.params.append("excontinue", value);
        self
    }
}

} // verus!
