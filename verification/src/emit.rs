//! The source text of a generated surface.

use vstd::prelude::*;
use vstd::string::*;
use crate::generate::{
    payload_of, spec_payload, FieldSurface, FieldSurfaceView, GeneratedModel, GeneratedModelView,
    PayloadType, PayloadTypeView, VariantSpec, VariantView,
};
use crate::naming::{spec_variant_name, variant_name};
use crate::operators::Operator;

verus! {

/// The type that a variant carries, as source text.
pub open spec fn spec_payload_text(payload: PayloadTypeView) -> Seq<char> {
    match payload {
        PayloadTypeView::Scalar(kind) => kind.spec_host_name(),
        PayloadTypeView::Operations(union) => "Vec<"@ + union + ">"@,
    }
}

/// One variant of the union, on a line of its own.
pub open spec fn spec_variant_text(variant: VariantView) -> Seq<char> {
    "    "@ + variant.name + "("@ + spec_payload_text(variant.payload) + "),\n"@
}

/// The first `n` variants, line after line.
pub open spec fn spec_variants_text(variants: Seq<VariantView>, n: int) -> Seq<char>
    decreases n,
{
    if n <= 0 {
        Seq::empty()
    } else {
        spec_variants_text(variants, n - 1) + spec_variant_text(variants[n - 1])
    }
}

/// The operation union: a tagged union whose inspection form is derived.
pub open spec fn spec_union_text(generated: GeneratedModelView) -> Seq<char> {
    "#[derive(Debug)]\npub enum "@ + generated.operation_union + " {\n"@ + spec_variants_text(
        generated.variants,
        generated.variants.len() as int,
    ) + "}\n"@
}

/// The declaration of a field's builder type, which holds nothing.
pub open spec fn spec_builder_text(field: FieldSurfaceView) -> Seq<char> {
    "pub struct "@ + field.builder + " {}\n"@
}

/// The declarations of the builder types of the first `n` fields.
pub open spec fn spec_builders_text(fields: Seq<FieldSurfaceView>, n: int) -> Seq<char>
    decreases n,
{
    if n <= 0 {
        Seq::empty()
    } else {
        spec_builders_text(fields, n - 1) + spec_builder_text(fields[n - 1])
    }
}

/// The method of a builder for one operator: it takes the payload and
/// returns the variant of the field and the operator.
pub open spec fn spec_method_text(
    union: Seq<char>,
    field: FieldSurfaceView,
    operator: Operator,
) -> Seq<char> {
    "    pub fn "@ + operator.spec_name() + "(&self, v: "@ + spec_payload_text(
        spec_payload(field.ty),
    ) + ") -> "@ + union + " {\n        "@ + union + "::"@ + spec_variant_name(
        field.accessor,
        operator,
    ) + "(v)\n    }\n"@
}

/// The methods for the first `n` operators of a field.
pub open spec fn spec_methods_text(union: Seq<char>, field: FieldSurfaceView, n: int) -> Seq<char>
    decreases n,
{
    if n <= 0 {
        Seq::empty()
    } else {
        spec_methods_text(union, field, n - 1) + spec_method_text(
            union,
            field,
            field.operators[n - 1].operator,
        )
    }
}

/// The methods of a field's builder type.
pub open spec fn spec_builder_impl_text(union: Seq<char>, field: FieldSurfaceView) -> Seq<char> {
    "impl "@ + field.builder + " {\n"@ + spec_methods_text(
        union,
        field,
        field.operators.len() as int,
    ) + "}\n"@
}

/// The methods of the builder types of the first `n` fields.
pub open spec fn spec_builder_impls_text(
    union: Seq<char>,
    fields: Seq<FieldSurfaceView>,
    n: int,
) -> Seq<char>
    decreases n,
{
    if n <= 0 {
        Seq::empty()
    } else {
        spec_builder_impls_text(union, fields, n - 1) + spec_builder_impl_text(
            union,
            fields[n - 1],
        )
    }
}

/// The accessor of a field: it takes nothing and returns a fresh builder.
pub open spec fn spec_accessor_text(field: FieldSurfaceView) -> Seq<char> {
    "    pub fn "@ + field.accessor + "() -> "@ + field.builder + " {\n        "@ + field.builder
        + " {}\n    }\n"@
}

/// The accessors of the first `n` fields.
pub open spec fn spec_accessors_text(fields: Seq<FieldSurfaceView>, n: int) -> Seq<char>
    decreases n,
{
    if n <= 0 {
        Seq::empty()
    } else {
        spec_accessors_text(fields, n - 1) + spec_accessor_text(fields[n - 1])
    }
}

/// The accessors, in the model's own namespace.
pub open spec fn spec_model_impl_text(generated: GeneratedModelView) -> Seq<char> {
    "impl "@ + generated.model + " {\n"@ + spec_accessors_text(
        generated.fields,
        generated.fields.len() as int,
    ) + "}\n"@
}

/// One entry point of the query surface. It takes the operations, returns
/// `found` or `failure`, and fails with `failed`.
pub open spec fn spec_entry_text(
    name: Seq<char>,
    union: Seq<char>,
    found: Seq<char>,
    failure: Seq<char>,
    failed: Seq<char>,
) -> Seq<char> {
    "    fn "@ + name + "(&self, operations: Vec<"@ + union + ">) -> Result<"@ + found + ", "@
        + failure + "> {\n        Err("@ + failed + ")\n    }\n"@
}

/// The query surface with its three entry points.
pub open spec fn spec_queries_text(generated: GeneratedModelView) -> Seq<char> {
    "pub struct "@ + generated.queries + " {}\nimpl "@ + generated.queries + " {\n"@
        + spec_entry_text(
        "find_one"@,
        generated.operation_union,
        generated.model,
        "NotFound"@,
        "NotFound"@,
    ) + spec_entry_text(
        "find_many"@,
        generated.operation_union,
        "Vec<"@ + generated.model + ">"@,
        "QueryError"@,
        "QueryError::NotImplemented"@,
    ) + spec_entry_text(
        "find_unique"@,
        generated.operation_union,
        generated.model,
        "AmbiguousOrNotFound"@,
        "AmbiguousOrNotFound"@,
    ) + "}\n"@
}

/// The trait that binds the shared client to the model's accessor method,
/// and its implementation for the client.
pub open spec fn spec_client_text(generated: GeneratedModelView) -> Seq<char> {
    "trait "@ + generated.client_trait + " {\n    fn "@ + generated.client_method
        + "(&self) -> "@ + generated.queries + ";\n}\nimpl "@ + generated.client_trait
        + " for Client {\n    fn "@ + generated.client_method + "(&self) -> "@ + generated.queries
        + " {\n        "@ + generated.queries + " {}\n    }\n}\n"@
}

/// The whole source text that is generated for a model.
pub open spec fn spec_render(generated: GeneratedModelView) -> Seq<char> {
    spec_union_text(generated) + spec_builders_text(
        generated.fields,
        generated.fields.len() as int,
    ) + spec_builder_impls_text(
        generated.operation_union,
        generated.fields,
        generated.fields.len() as int,
    ) + spec_model_impl_text(generated) + spec_queries_text(generated) + spec_client_text(
        generated,
    )
}

/// Renders the type that a variant carries.
pub fn payload_text(payload: &PayloadType) -> (r: String)
    ensures
        r@ == spec_payload_text(payload@),
{
    match payload {
        PayloadType::Scalar(kind) => String::from_str(kind.host_name()),
        PayloadType::Operations(union) => {
            let mut out = String::from_str("Vec<");
            out.append(union.as_str());
            out.append(">");
            out
        },
    }
}

/// Renders one variant of the union.
pub fn variant_text(variant: &VariantSpec) -> (r: String)
    ensures
        r@ == spec_variant_text(variant@),
{
    let payload = payload_text(&variant.payload);
    let mut out = String::from_str("    ");
    out.append(variant.name.as_str());
    out.append("(");
    out.append(payload.as_str());
    out.append("),\n");
    out
}

/// Renders the operation union.
pub fn union_text(generated: &GeneratedModel) -> (r: String)
    ensures
        r@ == spec_union_text(generated@),
{
    let mut cases = String::new();
    let mut i: usize = 0;
    while i < generated.variants.len()
        invariant
            i <= generated.variants.len(),
            cases@ == spec_variants_text(generated@.variants, i as int),
        decreases generated.variants.len() - i,
    {
        let case = variant_text(&generated.variants[i]);
        cases.append(case.as_str());
        i = i + 1;
    }
    let mut out = String::from_str("#[derive(Debug)]\npub enum ");
    out.append(generated.operation_union.as_str());
    out.append(" {\n");
    out.append(cases.as_str());
    out.append("}\n");
    out
}

/// Renders the declarations of the builder types.
pub fn builders_text(fields: &Vec<FieldSurface>) -> (r: String)
    ensures
        r@ == spec_builders_text(fields.deep_view(), fields.len() as int),
{
    let mut out = String::new();
    let mut i: usize = 0;
    while i < fields.len()
        invariant
            i <= fields.len(),
            out@ == spec_builders_text(fields.deep_view(), i as int),
        decreases fields.len() - i,
    {
        let mut line = String::from_str("pub struct ");
        line.append(fields[i].builder.as_str());
        line.append(" {}\n");
        out.append(line.as_str());
        i = i + 1;
    }
    out
}

/// Renders the method of a builder for one operator.
pub fn method_text(union: &str, field: &FieldSurface, operator: Operator) -> (r: String)
    ensures
        r@ == spec_method_text(union@, field@, operator),
{
    let payload = payload_text(&payload_of(&field.ty));
    let variant = variant_name(field.accessor.as_str(), operator);
    let mut out = String::from_str("    pub fn ");
    out.append(operator.name());
    out.append("(&self, v: ");
    out.append(payload.as_str());
    out.append(") -> ");
    out.append(union);
    out.append(" {\n        ");
    out.append(union);
    out.append("::");
    out.append(variant.as_str());
    out.append("(v)\n    }\n");
    out
}

/// Renders the methods of one builder type.
pub fn builder_impl_text(union: &str, field: &FieldSurface) -> (r: String)
    ensures
        r@ == spec_builder_impl_text(union@, field@),
{
    let mut methods = String::new();
    let mut i: usize = 0;
    while i < field.operators.len()
        invariant
            i <= field.operators.len(),
            methods@ == spec_methods_text(union@, field@, i as int),
        decreases field.operators.len() - i,
    {
        let method = method_text(union, field, field.operators[i].operator);
        methods.append(method.as_str());
        i = i + 1;
    }
    let mut out = String::from_str("impl ");
    out.append(field.builder.as_str());
    out.append(" {\n");
    out.append(methods.as_str());
    out.append("}\n");
    out
}

/// Renders the methods of all the builder types.
pub fn builder_impls_text(union: &str, fields: &Vec<FieldSurface>) -> (r: String)
    ensures
        r@ == spec_builder_impls_text(union@, fields.deep_view(), fields.len() as int),
{
    let mut out = String::new();
    let mut i: usize = 0;
    while i < fields.len()
        invariant
            i <= fields.len(),
            out@ == spec_builder_impls_text(union@, fields.deep_view(), i as int),
        decreases fields.len() - i,
    {
        let item = builder_impl_text(union, &fields[i]);
        out.append(item.as_str());
        i = i + 1;
    }
    out
}

/// Renders the accessors.
pub fn model_impl_text(generated: &GeneratedModel) -> (r: String)
    ensures
        r@ == spec_model_impl_text(generated@),
{
    let mut accessors = String::new();
    let mut i: usize = 0;
    while i < generated.fields.len()
        invariant
            i <= generated.fields.len(),
            accessors@ == spec_accessors_text(generated@.fields, i as int),
        decreases generated.fields.len() - i,
    {
        let field = &generated.fields[i];
        let mut item = String::from_str("    pub fn ");
        item.append(field.accessor.as_str());
        item.append("() -> ");
        item.append(field.builder.as_str());
        item.append(" {\n        ");
        item.append(field.builder.as_str());
        item.append(" {}\n    }\n");
        accessors.append(item.as_str());
        i = i + 1;
    }
    let mut out = String::from_str("impl ");
    out.append(generated.model.as_str());
    out.append(" {\n");
    out.append(accessors.as_str());
    out.append("}\n");
    out
}

/// Renders one entry point of the query surface.
pub fn entry_text(name: &str, union: &str, found: &str, failure: &str, failed: &str) -> (r: String)
    ensures
        r@ == spec_entry_text(name@, union@, found@, failure@, failed@),
{
    let mut out = String::from_str("    fn ");
    out.append(name);
    out.append("(&self, operations: Vec<");
    out.append(union);
    out.append(">) -> Result<");
    out.append(found);
    out.append(", ");
    out.append(failure);
    out.append("> {\n        Err(");
    out.append(failed);
    out.append(")\n    }\n");
    out
}

/// Renders the query surface.
pub fn queries_text(generated: &GeneratedModel) -> (r: String)
    ensures
        r@ == spec_queries_text(generated@),
{
    let union = generated.operation_union.as_str();
    let model = generated.model.as_str();
    let mut many = String::from_str("Vec<");
    many.append(model);
    many.append(">");
    let one = entry_text("find_one", union, model, "NotFound", "NotFound");
    let all = entry_text(
        "find_many",
        union,
        many.as_str(),
        "QueryError",
        "QueryError::NotImplemented",
    );
    let unique = entry_text(
        "find_unique",
        union,
        model,
        "AmbiguousOrNotFound",
        "AmbiguousOrNotFound",
    );
    let mut out = String::from_str("pub struct ");
    out.append(generated.queries.as_str());
    out.append(" {}\nimpl ");
    out.append(generated.queries.as_str());
    out.append(" {\n");
    out.append(one.as_str());
    out.append(all.as_str());
    out.append(unique.as_str());
    out.append("}\n");
    out
}

/// Renders the binding of the shared client to the model.
pub fn client_text(generated: &GeneratedModel) -> (r: String)
    ensures
        r@ == spec_client_text(generated@),
{
    let mut out = String::from_str("trait ");
    out.append(generated.client_trait.as_str());
    out.append(" {\n    fn ");
    out.append(generated.client_method.as_str());
    out.append("(&self) -> ");
    out.append(generated.queries.as_str());
    out.append(";\n}\nimpl ");
    out.append(generated.client_trait.as_str());
    out.append(" for Client {\n    fn ");
    out.append(generated.client_method.as_str());
    out.append("(&self) -> ");
    out.append(generated.queries.as_str());
    out.append(" {\n        ");
    out.append(generated.queries.as_str());
    out.append(" {}\n    }\n}\n");
    out
}

/// Renders the source text of a generated surface.
pub fn render(generated: &GeneratedModel) -> (r: String)
    ensures
        r@ == spec_render(generated@),
{
    let mut out = union_text(generated);
    let builders = builders_text(&generated.fields);
    out.append(builders.as_str());
    let impls = builder_impls_text(generated.operation_union.as_str(), &generated.fields);
    out.append(impls.as_str());
    let accessors = model_impl_text(generated);
    out.append(accessors.as_str());
    let queries = queries_text(generated);
    out.append(queries.as_str());
    let client = client_text(generated);
    out.append(client.as_str());
    out
}

} // verus!
