//! Requests: the parameter table, the sub-queries that write into it, and
//! the builder that turns the table into a request.

pub mod all_categories;
pub mod category_members;
pub mod laws;
pub mod pages;
pub mod params;

use crate::requests::all_categories::AllCategoriesQuery;
use crate::requests::category_members::CategoryMembersQuery;
use crate::requests::pages::PagesQuery;
use crate::requests::laws::{lemma_continued, lemma_finalized, lemma_target_asks_for_query};
pub use crate::requests::params::Params;
use crate::requests::params::{defaulted, held, listed, pairs_text};
use crate::responses::ContinueBlock;
use crate::text::occurs_in;
use http::{Request, Uri};
use vstd::prelude::*;
use vstd::string::StringExecFns;

verus! {

/// `http::Uri`, carried through as it is: of what one holds only its
/// text has a name, [`uri_text`].
#[verifier::external_type_specification]
#[verifier::external_body]
pub struct ExUri(Uri);

/// `http::Request`, carried through as it is: of what one holds only the
/// method and the URI have names, [`request_method`] and [`request_uri`].
#[verifier::external_type_specification]
#[verifier::external_body]
#[verifier::reject_recursive_types(T)]
pub struct ExRequest<T>(Request<T>);

/// `http::Error`, carried through as it is.
#[verifier::external_type_specification]
#[verifier::external_body]
pub struct ExHttpError(http::Error);

/// The text of a URI, as `http` writes it (`Uri` as `Display`).
pub uninterp spec fn uri_text(uri: Uri) -> Seq<char>;

/// Whether `http::uri::Builder` makes a URI of a scheme, an authority and
/// a path with its query.
pub uninterp spec fn uri_accepted(
    scheme: Seq<char>,
    authority: Seq<char>,
    path_and_query: Seq<char>,
) -> bool;

/// The text of the URI that `http::uri::Builder` makes of a scheme, an
/// authority and a path with its query, where it makes one.
pub uninterp spec fn uri_written(
    scheme: Seq<char>,
    authority: Seq<char>,
    path_and_query: Seq<char>,
) -> Seq<char>;

/// `http::uri::Builder`, with its `scheme`, `authority`, `path_and_query`
/// and `build`. Believed, not proved: whether a URI comes back, and the
/// text of the URI that comes back, depend on the three texts alone.
/// Nothing is claimed of which texts are taken, nor of what the text of
/// the URI is.
#[verifier::external_body]
fn assemble_uri(scheme: &str, authority: &str, path_and_query: &str) -> (uri: Result<
    Uri,
    http::Error,
>)
    ensures
        uri.is_ok() == uri_accepted(scheme@, authority@, path_and_query@),
        uri is Ok ==> uri_text(uri->Ok_0) == uri_written(scheme@, authority@, path_and_query@),
{
    Uri::builder().scheme(scheme).authority(authority).path_and_query(path_and_query).build()
}

/// The method that a request holds, as text (`Request::method`).
pub uninterp spec fn request_method(request: Request<()>) -> Seq<char>;

/// The text of the URI that a request holds (`Request::uri`).
pub uninterp spec fn request_uri(request: Request<()>) -> Seq<char>;

/// `http::request::Builder`, with its `method`, `uri` and `body`.
/// Believed, not proved: a request for the method `GET` always comes
/// back and holds that method, since `http` knows it; and a request that
/// comes back holds the URI that was handed in, which `http` takes as it
/// is. Nothing is claimed of other methods, nor of what else the request
/// holds.
#[verifier::external_body]
fn assemble_request(method: &str, uri: Uri) -> (request: Result<Request<()>, http::Error>)
    ensures
        method@ == "GET"@ ==> request is Ok && request_method(request->Ok_0) == "GET"@,
        request is Ok ==> request_uri(request->Ok_0) == uri_text(uri),
{
    Request::builder().method(method).uri(uri).body(())
}

/// The request could not be assembled: `http` refused the target. The
/// source is what `http` said of it.
#[derive(Debug)]
pub struct BuildError {
    pub source: http::Error,
}

/// `table` as a request carries it: with the format `json` and the format
/// version `2` where the caller set none, and with the action `query`
/// whatever the caller set.
pub open spec fn finalized(table: Map<Seq<char>, Seq<char>>) -> Map<Seq<char>, Seq<char>> {
    defaulted(defaulted(table, "format"@, "json"@), "formatversion"@, "2"@).insert(
        "action"@,
        "query"@,
    )
}

/// The names of a table that was finalized.
pub open spec fn finalized_names(names: Seq<Seq<char>>) -> Seq<Seq<char>> {
    listed(listed(listed(names, "format"@), "formatversion"@), "action"@)
}

/// The request target: the path of the endpoint, a question mark and the
/// pairs.
pub open spec fn target_text(names: Seq<Seq<char>>, table: Map<Seq<char>, Seq<char>>) -> Seq<
    char,
> {
    "/w/api.php?"@ + pairs_text(names, table)
}

/// `table` with `token` under `name` where there is a token.
pub open spec fn with_token(
    table: Map<Seq<char>, Seq<char>>,
    name: Seq<char>,
    token: Option<String>,
) -> Map<Seq<char>, Seq<char>> {
    match token {
        Some(text) => table.insert(name, text@),
        None => table,
    }
}

/// What a token leaves under its name: the token where there is one,
/// else what was there.
pub open spec fn token_or(token: Option<String>, earlier: Option<Seq<char>>) -> Option<Seq<char>> {
    match token {
        Some(text) => Some(text@),
        None => earlier,
    }
}

/// `names` once a token, where there is one, was written under `name`.
pub open spec fn with_token_name(
    names: Seq<Seq<char>>,
    name: Seq<char>,
    token: Option<String>,
) -> Seq<Seq<char>> {
    match token {
        Some(_) => listed(names, name),
        None => names,
    }
}

/// `table` after the tokens of `block` were merged into it: unchanged
/// where there is no block, else with the marker and with each token that
/// is present, each in place of any earlier value.
pub open spec fn continued(table: Map<Seq<char>, Seq<char>>, block: Option<ContinueBlock>) -> Map<
    Seq<char>,
    Seq<char>,
> {
    match block {
        None => table,
        Some(tokens) => {
            let marked = table.insert("continue"@, tokens.continuation@);
            let with_ac = with_token(marked, "accontinue"@, tokens.ac_continue);
            let with_cm = with_token(with_ac, "cmcontinue"@, tokens.cm_continue);
            let with_in = with_token(with_cm, "incontinue"@, tokens.in_continue);
            let with_desc = with_token(with_in, "desccontinue"@, tokens.desc_continue);
            with_token(with_desc, "excontinue"@, tokens.ex_continue)
        },
    }
}

/// The names of a table after the tokens of `block` were merged into it.
pub open spec fn continued_names(names: Seq<Seq<char>>, block: Option<ContinueBlock>) -> Seq<
    Seq<char>,
> {
    match block {
        None => names,
        Some(tokens) => {
            let marked = listed(names, "continue"@);
            let with_ac = with_token_name(marked, "accontinue"@, tokens.ac_continue);
            let with_cm = with_token_name(with_ac, "cmcontinue"@, tokens.cm_continue);
            let with_in = with_token_name(with_cm, "incontinue"@, tokens.in_continue);
            let with_desc = with_token_name(with_in, "desccontinue"@, tokens.desc_continue);
            with_token_name(with_desc, "excontinue"@, tokens.ex_continue)
        },
    }
}

/// A builder of queries.
#[derive(Debug)]
pub struct Query<'a> {
    pub params: Params<'a>,
}

impl<'a> Query<'a> {
    /// A query without parameters.
    pub fn new() -> (query: Query<'a>)
        ensures
            query.params@ == Map::<Seq<char>, Seq<char>>::empty(),
            query.params.names() == Seq::<Seq<char>>::empty(),
            query.params.well_formed(),
    {
        Query { params: Params::new() }
    }

    /// Adds a sub-query that lists categories.
    pub fn all_categories<'b>(&'b mut self) -> (sub: AllCategoriesQuery<'a, 'b>)
        ensures
            sub.params.extends(&old(self).params, "list"@, "allcategories"@),
            final(self).params == *final(sub.params),
    {
        AllCategoriesQuery::new(&mut self.params)
    }

    /// Adds a sub-query that lists the members of a category.
    pub fn category_members<'b>(&'b mut self) -> (sub: CategoryMembersQuery<'a, 'b>)
        ensures
            sub.params.extends(&old(self).params, "list"@, "categorymembers"@),
            final(self).params == *final(sub.params),
    {
        CategoryMembersQuery::new(&mut self.params)
    }

    /// Adds a sub-query that gets properties of pages.
    pub fn pages<'b>(&'b mut self) -> (sub: PagesQuery<'a, 'b>)
        ensures
            *sub.params == old(self).params,
            final(self).params == *final(sub.params),
    {
        PagesQuery::new(&mut self.params)
    }

    /// Sets the format of the response, in place of any format set before.
    pub fn format(&mut self, format: &str) -> (query: &mut Self)
        ensures
            query.params.replaces(&old(self).params, "format"@, format@),
            *final(self) == *final(query),
    {
        self.params.set("format", format);
        self
    }

    /// Finalizes the table and gives the request target that it spells.
    ///
    /// The format and the format version that the caller set are kept as
    /// they are, and the target always asks for a query. No value is
    /// escaped: the caller passes values that are encoded already.
    pub fn build_request_target(&mut self) -> (target: String)
        ensures
            final(self).params@ == finalized(old(self).params@),
            final(self).params.names() == finalized_names(old(self).params.names()),
            final(self).params.well_formed(),
            target@ == target_text(final(self).params.names(), final(self).params@),
            occurs_in("&action=query"@, target@),
            held(final(self).params@, "action"@) == Some("query"@),
            held(final(self).params@, "format"@) == Some(
                match held(old(self).params@, "format"@) {
                    Some(format) => format,
                    None => "json"@,
                },
            ),
            held(final(self).params@, "formatversion"@) == Some(
                match held(old(self).params@, "formatversion"@) {
                    Some(version) => version,
                    None => "2"@,
                },
            ),
    {
        self.params.set_default("format", "json");
        self.params.set_default("formatversion", "2");
        self.params.set("action", "query");
        let pairs = self.params.to_pairs_text();
        let mut target = "/w/api.php?".to_owned();
        target.append(pairs.as_str());
        proof {
            lemma_target_asks_for_query(old(self).params.names(), old(self).params@);
            lemma_finalized(old(self).params@);
        }
        target
    }

    /// Finalizes the table and makes the URI of the request: the URI
    /// that `http` makes of the scheme `https`, the host
    /// `en.wikipedia.org` and the target.
    pub fn uri(&mut self) -> (uri: Result<Uri, BuildError>)
        ensures
            final(self).params@ == finalized(old(self).params@),
            final(self).params.names() == finalized_names(old(self).params.names()),
            final(self).params.well_formed(),
            uri.is_ok() == uri_accepted(
                "https"@,
                "en.wikipedia.org"@,
                target_text(final(self).params.names(), final(self).params@),
            ),
            uri is Ok ==> uri_text(uri->Ok_0) == uri_written(
                "https"@,
                "en.wikipedia.org"@,
                target_text(final(self).params.names(), final(self).params@),
            ),
    {
        let target = self.build_request_target();
        match assemble_uri("https", "en.wikipedia.org", target.as_str()) {
            Ok(uri) => Ok(uri),
            Err(source) => Err(BuildError { source }),
        }
    }

    /// The request for a URI: a `GET` of that URI, without a body. One is
    /// always made.
    pub fn request_for(uri: Uri) -> (request: Result<Request<()>, BuildError>)
        ensures
            request is Ok,
            request_method(request->Ok_0) == "GET"@,
            request_uri(request->Ok_0) == uri_text(uri),
    {
        match assemble_request("GET", uri) {
            Ok(request) => Ok(request),
            Err(source) => Err(BuildError { source }),
        }
    }

    /// Finalizes the table and makes the request: a `GET` of the URI.
    pub fn build(&mut self) -> (request: Result<Request<()>, BuildError>)
        ensures
            final(self).params@ == finalized(old(self).params@),
            final(self).params.names() == finalized_names(old(self).params.names()),
            final(self).params.well_formed(),
            request.is_ok() == uri_accepted(
                "https"@,
                "en.wikipedia.org"@,
                target_text(final(self).params.names(), final(self).params@),
            ),
            request is Ok ==> request_method(request->Ok_0) == "GET"@,
            request is Ok ==> request_uri(request->Ok_0) == uri_written(
                "https"@,
                "en.wikipedia.org"@,
                target_text(final(self).params.names(), final(self).params@),
            ),
    {
        match self.uri() {
            Ok(uri) => Self::request_for(uri),
            Err(error) => Err(error),
        }
    }

    /// Merges the continuation tokens of a response into the table, for
    /// the request that fetches what follows. The marker and each token
    /// that the block holds take the place of what was there; the name of
    /// a token that the block lacks keeps what it had. Without a block
    /// nothing changes: the result was complete.
    pub fn continue_query(&mut self, continue_block: &Option<ContinueBlock>) -> (query: &Self)
        ensures
            final(self).params@ == continued(old(self).params@, *continue_block),
            final(self).params.names() == continued_names(
                old(self).params.names(),
                *continue_block,
            ),
            *continue_block is None ==> final(self).params@ == old(self).params@
                && final(self).params.names() == old(self).params.names(),
            *continue_block matches Some(tokens) ==> {
                &&& held(final(self).params@, "continue"@) == Some(tokens.continuation@)
                &&& held(final(self).params@, "accontinue"@) == token_or(
                    tokens.ac_continue,
                    held(old(self).params@, "accontinue"@),
                )
                &&& held(final(self).params@, "cmcontinue"@) == token_or(
                    tokens.cm_continue,
                    held(old(self).params@, "cmcontinue"@),
                )
                &&& held(final(self).params@, "incontinue"@) == token_or(
                    tokens.in_continue,
                    held(old(self).params@, "incontinue"@),
                )
                &&& held(final(self).params@, "desccontinue"@) == token_or(
                    tokens.desc_continue,
                    held(old(self).params@, "desccontinue"@),
                )
                &&& held(final(self).params@, "excontinue"@) == token_or(
                    tokens.ex_continue,
                    held(old(self).params@, "excontinue"@),
                )
            },
            *query == *final(self),
    {
        proof {
            if continue_block is Some {
                lemma_continued(old(self).params@, continue_block->Some_0);
            }
        }
        if let Some(block) = continue_block {
            self.params.set("continue", block.continuation.as_str());
            if let Some(token) = &block.ac_continue {
                self.params.set("accontinue", token.as_str());
            }
            if let Some(token) = &block.cm_continue {
                self.params.set("cmcontinue", token.as_str());
            }
            if let Some(token) = &block.in_continue {
                self.params.set("incontinue", token.as_str());
            }
            if let Some(token) = &block.desc_continue {
                self.params.set("desccontinue", token.as_str());
            }
            if let Some(token) = &block.ex_continue {
                self.params.set("excontinue", token.as_str());
            }
        }
        self
    }
}

} // verus!
