use wikiquery::requests::all_categories::AllCategoriesQuery;
use wikiquery::requests::category_members::CategoryMembersQuery;
use wikiquery::requests::pages::PagesQuery;
use wikiquery::requests::{Params, Query};
use wikiquery::responses::ContinueBlock;

fn assert_query_contains(query: &mut Query, contains: &[&'static str]) {
    let request = query.build().unwrap();
    let (parts, _body) = request.into_parts();
    let query_str = parts.uri.query().unwrap();

    for c in contains {
        assert!(query_str.contains(c));
    }
}

#[test]
fn test_combined_requests() {
    let mut query = Query::new();

    {
        query.all_categories().ac_min("1").ac_from("Lists_of_colors");
    }

    {
        query.category_members().cm_title("Lists_of_colors").cm_type("page");
    }

    let contains = [
        "list=allcategories|categorymembers",
        "acfrom=Lists_of_colors",
        "acmin=1",
        "cmtype=page",
        "action=query",
        "format=json",
    ];

    assert_query_contains(&mut query, &contains);
}

#[test]
fn test_all_fields_continue_query() {
    let mut query = Query::new();

    let continue_block = ContinueBlock {
        continuation: "-||".to_string(),
        ac_continue: Some("a".to_string()),
        cm_continue: Some("b".to_string()),
        in_continue: Some("c".to_string()),
        desc_continue: None,
        ex_continue: None,
    };

    query.continue_query(&Some(continue_block));

    let contains = ["continue=-||", "accontinue=a", "cmcontinue=b", "incontinue=c"];

    assert_query_contains(&mut query, &contains);
}

#[test]
fn test_all_fields_all_categories() {
    let mut query = Query::new();

    query
        .all_categories()
        .ac_from("1")
        .ac_to("2")
        .ac_prop("3")
        .ac_min("4")
        .ac_max("5")
        .ac_limit("6")
        .ac_prefix("7")
        .ac_dir("8")
        .ac_continue("9");

    let contains = [
        "acfrom=1",
        "acto=2",
        "acprop=3",
        "acmin=4",
        "acmax=5",
        "aclimit=6",
        "acprefix=7",
        "acdir=8",
        "accontinue=9",
    ];

    assert_query_contains(&mut query, &contains);
}

#[test]
fn all_fields() {
    let mut query = Query::new();

    query
        .category_members()
        .cm_title("1")
        .cm_page_id("2")
        .cm_prop("3")
        .cm_type("4")
        .cm_limit("5")
        .cm_sort("6")
        .cm_dir("7")
        .cm_start("8")
        .cm_end("9")
        .cm_start_hex_sort_key("10")
        .cm_end_hex_sort_key("11")
        .cm_start_sort_key_prefix("12")
        .cm_end_sort_key_prefix("13")
        .cm_continue("14");

    let contains = [
        "cmtitle=1",
        "cmpageid=2",
        "cmprop=3",
        "cmtype=4",
        "cmlimit=5",
        "cmsort=6",
        "cmdir=7",
        "cmstart=8",
        "cmend=9",
        "cmstarthexsortkey=10",
        "cmendhexsortkey=11",
        "cmstartsortkeyprefix=12",
        "cmendsortkeyprefix=13",
        "cmcontinue=14",
    ];

    assert_query_contains(&mut query, &contains);
}

#[test]
fn info_all_fields() {
    let mut query = Query::new();

    query.pages().titles("1").info().in_prop("2").in_test_actions_detail("3").in_continue("4");

    let contains =
        ["titles=1", "prop=info", "inprop=2", "intestactionsdetail=3", "incontinue=4"];

    assert_query_contains(&mut query, &contains);
}

#[test]
fn description_all_fields() {
    let mut query = Query::new();

    query.pages().titles("1").description().desc_prefer_source("1").desc_continue("2");

    let contains = ["titles=1", "prop=description", "descprefersource=1", "desccontinue=2"];

    assert_query_contains(&mut query, &contains);
}

#[test]
fn extracts_all_fields() {
    let mut query = Query::new();

    query
        .pages()
        .titles("1")
        .extracts()
        .ex_chars("2")
        .ex_sentences("3")
        .ex_limit("4")
        .ex_intro()
        .ex_plain_text()
        .ex_section_format("7")
        .ex_continue("8");

    let contains = [
        "titles=1",
        "prop=extracts",
        "exchars=2",
        "exsentences=3",
        "exlimit=4",
        "exintro=true",
        "explaintext=true",
        "exsectionformat=7",
        "excontinue=8",
    ];

    assert_query_contains(&mut query, &contains);
}

#[test]
fn category_listing_example() {
    let mut query = Query::new();

    query.all_categories().ac_from("Lists_of_colors").ac_min("1").ac_limit("5");

    let contains = [
        "list=allcategories",
        "acfrom=Lists_of_colors",
        "acmin=1",
        "aclimit=5",
        "action=query",
        "format=json",
    ];

    assert_query_contains(&mut query, &contains);
}

#[test]
fn continuation_example() {
    let mut query = Query::new();

    let continue_block = ContinueBlock {
        continuation: "-||".to_string(),
        ac_continue: Some("Archives".to_string()),
        cm_continue: None,
        in_continue: None,
        desc_continue: None,
        ex_continue: None,
    };

    query.continue_query(&Some(continue_block));

    assert_query_contains(&mut query, &["continue=-||", "accontinue=Archives"]);
    let target = query.build_request_target();
    assert!(!target.contains("cmcontinue"));
    assert_eq!(query.params.get("cmcontinue"), None);
    assert_eq!(query.params.get("incontinue"), None);
    assert_eq!(query.params.get("desccontinue"), None);
    assert_eq!(query.params.get("excontinue"), None);
}

#[test]
fn target_is_spelled_in_the_order_of_writing() {
    let mut query = Query::new();
    query.all_categories().ac_from("x");
    assert_eq!(
        query.build_request_target(),
        "/w/api.php?&list=allcategories&acfrom=x&format=json&formatversion=2&action=query"
    );
}

#[test]
fn target_of_an_empty_query_holds_the_defaults() {
    let mut query = Query::new();
    assert_eq!(query.build_request_target(), "/w/api.php?&format=json&formatversion=2&action=query");
    assert_eq!(query.params.len(), 3);
}

#[test]
fn finalizing_twice_changes_nothing_more() {
    let mut query = Query::new();
    query.pages().titles("A");
    let first = query.build_request_target();
    let second = query.build_request_target();
    assert_eq!(first, second);
}

#[test]
fn appends_are_joined_by_pipes_in_call_order() {
    let mut query = Query::new();
    query.category_members().cm_prop("ids").cm_prop("size").cm_prop("type").cm_prop("timestamp");
    assert_eq!(query.params.get("cmprop"), Some("ids|size|type|timestamp"));
    assert_eq!(query.params.get("list"), Some("categorymembers"));
}

#[test]
fn append_never_overwrites() {
    let mut query = Query::new();
    query.params.set("acprop", "size");
    query.all_categories().ac_prop("hidden");
    assert_eq!(query.params.get("acprop"), Some("size|hidden"));
}

#[test]
fn two_sub_queries_share_the_list() {
    let mut query = Query::new();
    query.all_categories();
    query.category_members();
    assert_eq!(query.params.get("list"), Some("allcategories|categorymembers"));
    assert_eq!(query.params.len(), 1);

    let mut other = Query::new();
    other.category_members();
    other.all_categories();
    assert_eq!(other.params.get("list"), Some("categorymembers|allcategories"));
}

#[test]
fn properties_of_pages_share_the_prop() {
    let mut query = Query::new();
    query.pages().titles("A").info().in_prop("url").description().extracts().ex_chars("10");
    assert_eq!(query.params.get("prop"), Some("info|description|extracts"));
    assert_eq!(query.params.get("inprop"), Some("url"));
    assert_eq!(query.params.get("exchars"), Some("10"));
    assert_eq!(query.params.get("list"), None);
}

#[test]
fn titles_are_joined_like_any_other_value() {
    let mut query = Query::new();
    query.pages().titles("A").titles("B");
    assert_eq!(query.params.get("titles"), Some("A|B"));
}

#[test]
fn pages_alone_writes_nothing() {
    let mut query = Query::new();
    query.pages();
    assert_eq!(query.params.len(), 0);
}

#[test]
fn action_is_always_query() {
    let mut query = Query::new();
    query.params.set("action", "edit");
    let target = query.build_request_target();
    assert!(target.contains("&action=query"));
    assert!(!target.contains("action=edit"));
    assert_eq!(query.params.get("action"), Some("query"));
    assert_eq!(target, "/w/api.php?&action=query&format=json&formatversion=2");
}

#[test]
fn format_of_the_caller_is_kept() {
    let mut query = Query::new();
    query.format("xml");
    query.params.set("formatversion", "1");
    let target = query.build_request_target();
    assert_eq!(target, "/w/api.php?&format=xml&formatversion=1&action=query");
    assert_eq!(query.params.get("format"), Some("xml"));
    assert_eq!(query.params.get("formatversion"), Some("1"));
}

#[test]
fn format_set_twice_keeps_the_last() {
    let mut query = Query::new();
    query.format("xml").format("php");
    assert_eq!(query.params.get("format"), Some("php"));
    assert_eq!(query.params.len(), 1);
}

#[test]
fn defaults_come_only_where_nothing_was_set() {
    let mut query = Query::new();
    query.format("xml");
    query.build_request_target();
    assert_eq!(query.params.get("format"), Some("xml"));
    assert_eq!(query.params.get("formatversion"), Some("2"));
}

#[test]
fn merging_no_block_changes_nothing() {
    let mut query = Query::new();
    query.all_categories().ac_continue("Archives");
    query.continue_query(&None);
    assert_eq!(query.params.len(), 2);
    assert_eq!(query.params.get("accontinue"), Some("Archives"));
    assert_eq!(query.params.get("continue"), None);
}

#[test]
fn merging_overwrites_an_earlier_token() {
    let mut query = Query::new();
    query.all_categories().ac_continue("Archives");
    let block = ContinueBlock {
        continuation: "-||".to_string(),
        ac_continue: Some("Books".to_string()),
        cm_continue: None,
        in_continue: None,
        desc_continue: None,
        ex_continue: None,
    };
    query.continue_query(&Some(block));
    assert_eq!(query.params.get("accontinue"), Some("Books"));
    assert_eq!(query.params.get("continue"), Some("-||"));
    assert_eq!(query.params.get("cmcontinue"), None);
}

#[test]
fn merging_writes_every_token_that_is_there() {
    let mut query = Query::new();
    let block = ContinueBlock {
        continuation: "||".to_string(),
        ac_continue: None,
        cm_continue: None,
        in_continue: None,
        desc_continue: Some("4".to_string()),
        ex_continue: Some("5".to_string()),
    };
    let merged = query.continue_query(&Some(block));
    assert_eq!(merged.params.get("desccontinue"), Some("4"));
    assert_eq!(merged.params.get("excontinue"), Some("5"));
    assert_eq!(merged.params.get("accontinue"), None);
    assert_eq!(merged.params.get("cmcontinue"), None);
    assert_eq!(merged.params.get("incontinue"), None);
    assert_eq!(merged.params.len(), 3);
}

#[test]
fn merging_a_block_without_tokens_sets_the_marker_alone() {
    let mut query = Query::new();
    let block = ContinueBlock {
        continuation: "-||".to_string(),
        ac_continue: None,
        cm_continue: None,
        in_continue: None,
        desc_continue: None,
        ex_continue: None,
    };
    query.continue_query(&Some(block));
    assert_eq!(query.params.len(), 1);
    assert_eq!(query.params.get("continue"), Some("-||"));
}

#[test]
fn uri_has_the_fixed_scheme_host_and_path() {
    let mut query = Query::new();
    query.all_categories().ac_from("Lists_of_colors");
    let uri = query.uri().unwrap();
    assert_eq!(uri.scheme_str(), Some("https"));
    assert_eq!(uri.host(), Some("en.wikipedia.org"));
    assert_eq!(uri.path(), "/w/api.php");
    assert_eq!(
        uri.query(),
        Some("&list=allcategories&acfrom=Lists_of_colors&format=json&formatversion=2&action=query")
    );
}

#[test]
fn request_is_a_get_of_the_uri() {
    let mut query = Query::new();
    query.pages().titles("United%20States").extracts().ex_plain_text();
    let request = query.build().unwrap();
    assert_eq!(request.method().as_str(), "GET");
    assert_eq!(
        request.uri().to_string(),
        "https://en.wikipedia.org/w/api.php?&titles=United%20States&prop=extracts&explaintext=true&format=json&formatversion=2&action=query"
    );
}

#[test]
fn values_are_not_escaped() {
    let mut query = Query::new();
    query.pages().titles("a&b=c");
    assert_eq!(
        query.build_request_target(),
        "/w/api.php?&titles=a&b=c&format=json&formatversion=2&action=query"
    );
}

#[test]
fn a_value_that_no_uri_can_hold_fails_the_build() {
    let mut query = Query::new();
    query.pages().titles("United States");
    assert!(query.uri().is_err());

    let mut other = Query::new();
    other.pages().titles("United States");
    assert!(other.build().is_err());
}

#[test]
fn a_failed_build_leaves_the_table_finalized() {
    let mut query = Query::new();
    query.pages().titles("a b");
    assert!(query.build().is_err());
    assert_eq!(query.params.get("action"), Some("query"));
    assert_eq!(query.params.get("format"), Some("json"));
}

#[test]
fn table_get_set_and_defaults() {
    let mut query = Query::new();
    assert_eq!(query.params.len(), 0);
    assert_eq!(query.params.get("a"), None);
    query.params.set("a", "1");
    query.params.set_default("a", "2");
    query.params.set_default("b", "3");
    assert_eq!(query.params.get("a"), Some("1"));
    assert_eq!(query.params.get("b"), Some("3"));
    query.params.set("a", "4");
    assert_eq!(query.params.get("a"), Some("4"));
    query.params.append("b", "5");
    query.params.append("c", "6");
    assert_eq!(query.params.get("b"), Some("3|5"));
    assert_eq!(query.params.get("c"), Some("6"));
    assert_eq!(query.params.to_pairs_text(), "&a=4&b=3|5&c=6");
    assert_eq!(query.params.len(), 3);
}

#[test]
fn names_that_share_a_prefix_are_different_names() {
    let mut query = Query::new();
    query.params.set("format", "xml");
    query.params.set("formatversion", "1");
    query.params.set("form", "x");
    assert_eq!(query.params.get("format"), Some("xml"));
    assert_eq!(query.params.get("formatversion"), Some("1"));
    assert_eq!(query.params.get("form"), Some("x"));
    assert_eq!(query.params.get("formats"), None);
}

#[test]
fn request_for_a_uri_is_a_get() {
    let mut query = Query::new();
    let uri = query.uri().unwrap();
    let text = uri.to_string();
    let request = Query::request_for(uri).unwrap();
    assert_eq!(request.method().as_str(), "GET");
    assert_eq!(request.uri().to_string(), text);
    assert_eq!(text, "https://en.wikipedia.org/w/api.php?&format=json&formatversion=2&action=query");
    assert_eq!(request.uri().query(), Some("&format=json&formatversion=2&action=query"));
}

#[test]
fn request_for_any_uri_holds_that_uri() {
    let uri: http::Uri = "/w/index.php?title=Main%20page".parse().unwrap();
    let request = Query::request_for(uri).unwrap();
    assert_eq!(request.method().as_str(), "GET");
    assert_eq!(request.uri().to_string(), "/w/index.php?title=Main%20page");
}

#[test]
fn sub_queries_write_into_the_table_they_are_given() {
    let mut params = Params::new();
    AllCategoriesQuery::new(&mut params).ac_limit("5");
    CategoryMembersQuery::new(&mut params).cm_limit("7");
    PagesQuery::new(&mut params).titles("A").info();
    assert_eq!(
        params.to_pairs_text(),
        "&list=allcategories|categorymembers&aclimit=5&cmlimit=7&titles=A&prop=info"
    );
    assert_eq!(params.len(), 5);
}

#[test]
fn a_flag_given_twice_is_joined_like_any_other_value() {
    let mut query = Query::new();
    query.pages().extracts().ex_intro().ex_intro();
    assert_eq!(query.params.get("exintro"), Some("true|true"));
}

#[test]
fn an_empty_value_is_a_value() {
    let mut query = Query::new();
    query.all_categories().ac_prefix("").ac_prefix("");
    assert_eq!(query.params.get("acprefix"), Some("|"));
    assert_eq!(
        query.build_request_target(),
        "/w/api.php?&list=allcategories&acprefix=|&format=json&formatversion=2&action=query"
    );
}

#[test]
fn category_listing_with_two_properties() {
    let mut query = Query::new();

    query
        .all_categories()
        .ac_from("War")
        .ac_to("Writing")
        .ac_limit("5")
        .ac_min("1")
        .ac_max("50")
        .ac_prop("size")
        .ac_prop("hidden");

    let uri = query.uri().unwrap();
    assert_eq!(
        uri.query(),
        Some("&list=allcategories&acfrom=War&acto=Writing&aclimit=5&acmin=1&acmax=50&acprop=size|hidden&format=json&formatversion=2&action=query")
    );
}

#[test]
fn member_listing_with_six_properties() {
    let mut query = Query::new();

    query
        .category_members()
        .cm_title("Category:War")
        .cm_prop("ids")
        .cm_prop("title")
        .cm_prop("sortkey")
        .cm_prop("sortkeyprefix")
        .cm_prop("type")
        .cm_prop("timestamp")
        .cm_limit("5")
        .cm_start_hex_sort_key("55454b3f2f0455294b04393939011101e0c1e0c3dcdcdc")
        .cm_dir("desc");

    let uri = query.uri().unwrap();
    assert_eq!(
        uri.query(),
        Some("&list=categorymembers&cmtitle=Category:War&cmprop=ids|title|sortkey|sortkeyprefix|type|timestamp&cmlimit=5&cmstarthexsortkey=55454b3f2f0455294b04393939011101e0c1e0c3dcdcdc&cmdir=desc&format=json&formatversion=2&action=query")
    );
}

#[test]
fn page_info_with_tested_actions() {
    let mut query = Query::new();

    query
        .pages()
        .titles("Main%20page")
        .info()
        .in_prop("protection")
        .in_prop("url")
        .in_prop("displaytitle")
        .in_test_actions("read")
        .in_test_actions("url")
        .in_test_actions_detail("quick");

    assert_eq!(query.params.get("inprop"), Some("protection|url|displaytitle"));
    assert_eq!(query.params.get("intestactions"), Some("read|url"));
    assert_eq!(query.params.get("intestactionsdetail"), Some("quick"));
    assert_eq!(
        query.build_request_target(),
        "/w/api.php?&titles=Main%20page&prop=info&inprop=protection|url|displaytitle&intestactions=read|url&intestactionsdetail=quick&format=json&formatversion=2&action=query"
    );
}
