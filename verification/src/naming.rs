//! Names of generated items.
//!
//! The names of models and fields are taken as they are given: they are
//! identifiers of the language that the surface is generated in. Every
//! other name is formed from them.

use vstd::prelude::*;
use vstd::string::*;
use crate::operators::{lemma_operator_names, Operator};
use crate::text::{
    ascii_lowercase, lemma_underscore_join_injective, spec_ascii_lowercase, uppercase,
    uppercase_of,
};

verus! {

/// A name with its first character replaced by that character's uppercase mapping.
pub open spec fn spec_title_case(s: Seq<char>) -> Seq<char> {
    if s.len() == 0 {
        Seq::empty()
    } else {
        uppercase_of(s[0]) + s.skip(1)
    }
}

/// Puts `head` in place of the first character of `s`; an empty `s` stays empty.
pub fn with_head(head: &str, s: &str) -> (r: String)
    ensures
        s@.len() == 0 ==> r@ == Seq::<char>::empty(),
        s@.len() > 0 ==> r@ == head@ + s@.skip(1),
{
    let n: usize = s.unicode_len();
    if n == 0 {
        String::new()
    } else {
        let rest = s.substring_char(1, n);
        let mut out = String::from_str(head);
        out.append(rest);
        out
    }
}

/// Uppercases the first character of `s` and keeps the rest.
pub fn title_case(s: &str) -> (r: String)
    ensures
        r@ == spec_title_case(s@),
{
    let n: usize = s.unicode_len();
    if n == 0 {
        String::new()
    } else {
        let head = uppercase(s.get_char(0));
        with_head(head.as_str(), s)
    }
}

/// The name of a model's operation union.
pub open spec fn spec_operation_union_name(model: Seq<char>) -> Seq<char> {
    model + "Operation"@
}

/// The name of a model's query surface.
pub open spec fn spec_queries_name(model: Seq<char>) -> Seq<char> {
    model + "Queries"@
}

/// The name of the trait that binds the shared client to a model.
pub open spec fn spec_client_trait_name(model: Seq<char>) -> Seq<char> {
    model + "Client"@
}

/// The name of the method by which the shared client hands out a model's
/// query surface: the model's name with its ASCII capitals lowercased.
pub open spec fn spec_client_method_name(model: Seq<char>) -> Seq<char> {
    spec_ascii_lowercase(model)
}

/// The name of the builder type of a field.
pub open spec fn spec_builder_name(model: Seq<char>, field: Seq<char>) -> Seq<char> {
    model + spec_title_case(field) + "Field"@
}

/// The name of the union variant of a field and an operator.
pub open spec fn spec_variant_name(field: Seq<char>, operator: Operator) -> Seq<char> {
    field + "_"@ + operator.spec_name()
}

/// A name followed by a fixed suffix.
pub fn suffixed(name: &str, suffix: &str) -> (r: String)
    ensures
        r@ == name@ + suffix@,
{
    let mut out = String::from_str(name);
    out.append(suffix);
    out
}

/// The name of a model's operation union.
pub fn operation_union_name(model: &str) -> (r: String)
    ensures
        r@ == spec_operation_union_name(model@),
{
    suffixed(model, "Operation")
}

/// The name of a model's query surface.
pub fn queries_name(model: &str) -> (r: String)
    ensures
        r@ == spec_queries_name(model@),
{
    suffixed(model, "Queries")
}

/// The name of the trait that binds the shared client to a model.
pub fn client_trait_name(model: &str) -> (r: String)
    ensures
        r@ == spec_client_trait_name(model@),
{
    suffixed(model, "Client")
}

/// The name of the method by which the shared client hands out a model's
/// query surface.
pub fn client_method_name(model: &str) -> (r: String)
    ensures
        r@ == spec_client_method_name(model@),
{
    ascii_lowercase(model)
}

/// The name of the builder type of a field.
pub fn builder_name(model: &str, field: &str) -> (r: String)
    ensures
        r@ == spec_builder_name(model@, field@),
{
    let mut out = String::from_str(model);
    let title = title_case(field);
    out.append(title.as_str());
    out.append("Field");
    out
}

/// The name of the union variant of a field and an operator.
pub fn variant_name(field: &str, operator: Operator) -> (r: String)
    ensures
        r@ == spec_variant_name(field@, operator),
{
    let mut out = String::from_str(field);
    out.append("_");
    out.append(operator.name());
    out
}

/// The name of a variant tells both its field and its operator: two
/// variants bear the same name only if they agree in both. Fields that admit
/// the same operator therefore never collide.
pub proof fn lemma_variant_names_injective(
    field1: Seq<char>,
    operator1: Operator,
    field2: Seq<char>,
    operator2: Operator,
)
    requires
        spec_variant_name(field1, operator1) == spec_variant_name(field2, operator2),
    ensures
        field1 == field2,
        operator1 == operator2,
{
    reveal_strlit("_");
    assert("_"@ =~= seq!['_']);
    lemma_operator_names(operator1, operator2);
    lemma_operator_names(operator2, operator1);
    lemma_underscore_join_injective(
        field1,
        operator1.spec_name(),
        field2,
        operator2.spec_name(),
    );
}

/// Names that differ only before a common suffix differ: the operation
/// unions, query surfaces and client traits of two models bear the same name
/// only if the models do.
pub proof fn lemma_suffixed_names_injective(a: Seq<char>, b: Seq<char>, suffix: Seq<char>)
    requires
        a + suffix == b + suffix,
    ensures
        a == b,
{
    assert((a + suffix).len() == a.len() + suffix.len());
    assert((b + suffix).len() == b.len() + suffix.len());
    assert(a =~= b) by {
        assert forall|i: int| 0 <= i < a.len() implies a[i] == b[i] by {
            assert((a + suffix)[i] == a[i]);
            assert((b + suffix)[i] == b[i]);
        }
    }
}

/// The builder types of two fields of one model bear the same name only
/// if the fields' names are the same once their first characters are
/// uppercased.
pub proof fn lemma_builder_names(model: Seq<char>, field1: Seq<char>, field2: Seq<char>)
    requires
        spec_builder_name(model, field1) == spec_builder_name(model, field2),
    ensures
        spec_title_case(field1) == spec_title_case(field2),
{
    let t1 = spec_title_case(field1);
    let t2 = spec_title_case(field2);
    lemma_suffixed_names_injective(model + t1, model + t2, "Field"@);
    assert((model + t1).len() == model.len() + t1.len());
    assert((model + t2).len() == model.len() + t2.len());
    assert(t1 =~= t2) by {
        assert forall|i: int| 0 <= i < t1.len() implies t1[i] == t2[i] by {
            assert((model + t1)[model.len() + i] == t1[i]);
            assert((model + t2)[model.len() + i] == t2[i]);
        }
    }
}

} // verus!
