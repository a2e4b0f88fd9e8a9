use ethanol::naming::{
    builder_name, client_method_name, client_trait_name, operation_union_name, queries_name,
    title_case, variant_name, with_head,
};
use ethanol::operators::Operator;
use ethanol::text::ascii_lowercase;

#[test]
fn title_case_uppercases_first_letter() {
    assert_eq!(title_case("id"), "Id");
    assert_eq!(title_case("money"), "Money");
    assert_eq!(title_case("verified"), "Verified");
}

#[test]
fn title_case_keeps_the_rest() {
    assert_eq!(title_case("hasPrefix"), "HasPrefix");
    assert_eq!(title_case("Name"), "Name");
    assert_eq!(title_case("x"), "X");
    assert_eq!(title_case("_id"), "_id");
}

#[test]
fn title_case_of_empty_is_empty() {
    assert_eq!(title_case(""), "");
}

#[test]
fn title_case_follows_unicode_mappings() {
    assert_eq!(title_case("éa"), "Éa");
    assert_eq!(title_case("ßa"), "SSa");
}

#[test]
fn with_head_replaces_first_character() {
    assert_eq!(with_head("SS", "ßa"), "SSa");
    assert_eq!(with_head("", "abc"), "bc");
    assert_eq!(with_head("X", ""), "");
}

#[test]
fn ascii_lowercase_maps_capitals_only() {
    assert_eq!(ascii_lowercase("Account"), "account");
    assert_eq!(ascii_lowercase("HTTPServer2"), "httpserver2");
    assert_eq!(ascii_lowercase("ÉCOLE_Z"), "École_z");
    assert_eq!(ascii_lowercase(""), "");
}

#[test]
fn names_of_generated_items() {
    assert_eq!(operation_union_name("Account"), "AccountOperation");
    assert_eq!(queries_name("Account"), "AccountQueries");
    assert_eq!(client_trait_name("Account"), "AccountClient");
    assert_eq!(client_method_name("Account"), "account");
    assert_eq!(builder_name("Account", "id"), "AccountIdField");
    assert_eq!(builder_name("Tenant", "owner"), "TenantOwnerField");
}

#[test]
fn variant_names_join_field_and_operator() {
    assert_eq!(variant_name("id", Operator::Equals), "id_equals");
    assert_eq!(variant_name("name", Operator::HasPrefix), "name_hasPrefix");
    assert_eq!(variant_name("money", Operator::Gte), "money_gte");
    assert_eq!(variant_name("owner", Operator::SomeOf), "owner_some");
    assert_eq!(variant_name("owner", Operator::EveryOf), "owner_every");
}

#[test]
fn variant_names_of_fields_with_underscores_stay_apart() {
    // `a` with `lt` against `a_lt` with any operator
    let short = variant_name("a", Operator::Lt);
    assert_eq!(short, "a_lt");
    for operator in [Operator::Equals, Operator::Lte, Operator::Lt, Operator::Gt, Operator::Gte] {
        assert_ne!(variant_name("a_lt", operator), short);
    }
}

#[test]
fn ascii_lowercase_agrees_with_the_standard_library() {
    let all: String = (0u32..0x250).filter_map(char::from_u32).collect();
    assert_eq!(ascii_lowercase(&all), all.to_ascii_lowercase());
    for text in ["Tenant", "ACCOUNT", "mixedCase_42", "ŻÓŁW", "İstanbul"] {
        assert_eq!(ascii_lowercase(text), text.to_ascii_lowercase());
    }
}

#[test]
fn title_case_agrees_with_the_standard_library() {
    for first in (0u32..0x250).filter_map(char::from_u32) {
        let text = format!("{first}rest");
        let expected: String = first.to_uppercase().chain("rest".chars()).collect();
        assert_eq!(title_case(&text), expected);
    }
}
