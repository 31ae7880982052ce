//! What holds of every request: how the lists of sub-queries combine,
//! what finalizing does to a table, what the target holds, and what a
//! merge of continuation tokens leaves.

use crate::requests::params::{
    appended, held, joined, lemma_pair_occurs, listed, pair_text, pairs_text,
};
use crate::requests::{continued, finalized, finalized_names, target_text, token_or};
use crate::responses::ContinueBlock;
use crate::text::{lemma_occurs_behind, lemma_occurs_between, occurs_in};
use vstd::prelude::*;

verus! {

/// The three names that finalizing writes differ from each other.
pub proof fn lemma_final_names_differ()
    ensures
        "format"@ != "formatversion"@,
        "format"@ != "action"@,
        "formatversion"@ != "action"@,
{
    reveal_strlit("format");
    reveal_strlit("formatversion");
    reveal_strlit("action");
    assert("format"@.len() == 6 && "formatversion"@.len() == 13 && "action"@.len() == 6);
    assert("format"@[0] == 'f' && "action"@[0] == 'a');
}

/// A finalized table asks for a query, whatever action the caller had
/// set. It has the format and the format version that the caller set,
/// letter for letter, and `json` and `2` only where the caller set none.
/// No other parameter has changed.
pub proof fn lemma_finalized(table: Map<Seq<char>, Seq<char>>)
    ensures
        held(finalized(table), "action"@) == Some("query"@),
        held(finalized(table), "format"@) == Some(
            match held(table, "format"@) {
                Some(format) => format,
                None => "json"@,
            },
        ),
        held(finalized(table), "formatversion"@) == Some(
            match held(table, "formatversion"@) {
                Some(version) => version,
                None => "2"@,
            },
        ),
        forall|name: Seq<char>|
            name != "action"@ && name != "format"@ && name != "formatversion"@ ==> held(
                finalized(table),
                name,
            ) == held(table, name),
{
    lemma_final_names_differ();
}

/// The target holds each parameter of its table: an ampersand, the name,
/// an equals sign and the value, letter for letter.
pub proof fn lemma_target_holds_each(
    names: Seq<Seq<char>>,
    table: Map<Seq<char>, Seq<char>>,
    i: int,
)
    requires
        0 <= i < names.len(),
    ensures
        occurs_in(pair_text(names[i], table[names[i]]), target_text(names, table)),
{
    lemma_pair_occurs(names, table, i);
    lemma_occurs_behind(
        pair_text(names[i], table[names[i]]),
        pairs_text(names, table),
        "/w/api.php?"@,
    );
}

/// The target of a finalized table holds `action=query`, whatever the
/// table held.
pub proof fn lemma_target_asks_for_query(names: Seq<Seq<char>>, table: Map<Seq<char>, Seq<char>>)
    ensures
        occurs_in("&action=query"@, target_text(finalized_names(names), finalized(table))),
{
    let all = finalized_names(names);
    assert(all.contains("action"@)) by {
        let before = listed(listed(names, "format"@), "formatversion"@);
        if !before.contains("action"@) {
            assert(all[before.len() as int] == "action"@);
        }
    }
    let i = all.index_of("action"@);
    lemma_target_holds_each(all, finalized(table), i);
    lemma_action_pair();
}

/// The pair of the action, letter for letter.
proof fn lemma_action_pair()
    ensures
        pair_text("action"@, "query"@) == "&action=query"@,
{
    reveal_strlit("&");
    reveal_strlit("action");
    reveal_strlit("=");
    reveal_strlit("query");
    reveal_strlit("&action=query");
}

/// Two sub-queries that each join the lists of one request leave one
/// value under `list`: what was there, then the one identity, then the
/// other, with pipes between them. Both identities occur in it.
pub proof fn lemma_lists_combine(
    table: Map<Seq<char>, Seq<char>>,
    first: Seq<char>,
    second: Seq<char>,
)
    ensures
        held(appended(appended(table, "list"@, first), "list"@, second), "list"@) == Some(
            joined(held(table, "list"@), first) + "|"@ + second,
        ),
        occurs_in(first, joined(held(table, "list"@), first) + "|"@ + second),
        occurs_in(second, joined(held(table, "list"@), first) + "|"@ + second),
        forall|name: Seq<char>|
            name != "list"@ ==> held(
                appended(appended(table, "list"@, first), "list"@, second),
                name,
            ) == held(table, name),
{
    let one = joined(held(table, "list"@), first);
    let both = one + "|"@ + second;
    lemma_occurs_between(one + "|"@, second, Seq::empty());
    match held(table, "list"@) {
        Some(text) => {
            lemma_occurs_between(text + "|"@, first, "|"@ + second);
            assert(text + "|"@ + first + ("|"@ + second) =~= both);
        },
        None => {
            lemma_occurs_between(Seq::empty(), first, "|"@ + second);
            assert(Seq::<char>::empty() + first + ("|"@ + second) =~= both);
        },
    }
}

/// A request that lists categories and the members of a category, in a
/// table that had no list, asks for `allcategories|categorymembers`.
pub proof fn lemma_both_lists(table: Map<Seq<char>, Seq<char>>)
    requires
        !table.contains_key("list"@),
    ensures
        held(
            appended(appended(table, "list"@, "allcategories"@), "list"@, "categorymembers"@),
            "list"@,
        ) == Some("allcategories|categorymembers"@),
{
    assert("allcategories"@ + "|"@ + "categorymembers"@ =~= "allcategories|categorymembers"@) by {
        reveal_strlit("allcategories");
        reveal_strlit("|");
        reveal_strlit("categorymembers");
        reveal_strlit("allcategories|categorymembers");
    }
}

/// The six names under which tokens are merged differ from each other.
pub proof fn lemma_token_names_differ()
    ensures
        "continue"@ != "accontinue"@,
        "continue"@ != "cmcontinue"@,
        "continue"@ != "incontinue"@,
        "continue"@ != "desccontinue"@,
        "continue"@ != "excontinue"@,
        "accontinue"@ != "cmcontinue"@,
        "accontinue"@ != "incontinue"@,
        "accontinue"@ != "desccontinue"@,
        "accontinue"@ != "excontinue"@,
        "cmcontinue"@ != "incontinue"@,
        "cmcontinue"@ != "desccontinue"@,
        "cmcontinue"@ != "excontinue"@,
        "incontinue"@ != "desccontinue"@,
        "incontinue"@ != "excontinue"@,
        "desccontinue"@ != "excontinue"@,
{
    reveal_strlit("continue");
    reveal_strlit("accontinue");
    reveal_strlit("cmcontinue");
    reveal_strlit("incontinue");
    reveal_strlit("desccontinue");
    reveal_strlit("excontinue");
    assert("continue"@.len() == 8 && "desccontinue"@.len() == 12);
    assert("accontinue"@.len() == 10 && "accontinue"@[0] == 'a');
    assert("cmcontinue"@.len() == 10 && "cmcontinue"@[0] == 'c');
    assert("incontinue"@.len() == 10 && "incontinue"@[0] == 'i');
    assert("excontinue"@.len() == 10 && "excontinue"@[0] == 'e');
}

/// Merging a block sets the marker and exactly the tokens that the block
/// holds, each in place of what was there. The name of a token that the
/// block lacks keeps what it had, and has nothing if it had nothing; so
/// does every other name.
pub proof fn lemma_continued(table: Map<Seq<char>, Seq<char>>, block: ContinueBlock)
    ensures
        held(continued(table, Some(block)), "continue"@) == Some(block.continuation@),
        held(continued(table, Some(block)), "accontinue"@) == token_or(
            block.ac_continue,
            held(table, "accontinue"@),
        ),
        held(continued(table, Some(block)), "cmcontinue"@) == token_or(
            block.cm_continue,
            held(table, "cmcontinue"@),
        ),
        held(continued(table, Some(block)), "incontinue"@) == token_or(
            block.in_continue,
            held(table, "incontinue"@),
        ),
        held(continued(table, Some(block)), "desccontinue"@) == token_or(
            block.desc_continue,
            held(table, "desccontinue"@),
        ),
        held(continued(table, Some(block)), "excontinue"@) == token_or(
            block.ex_continue,
            held(table, "excontinue"@),
        ),
        forall|name: Seq<char>|
            name != "continue"@ && name != "accontinue"@ && name != "cmcontinue"@ && name
                != "incontinue"@ && name != "desccontinue"@ && name != "excontinue"@ ==> held(
                continued(table, Some(block)),
                name,
            ) == held(table, name),
{
    lemma_token_names_differ();
}

} // verus!
