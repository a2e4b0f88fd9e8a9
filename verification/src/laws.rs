//! What holds of every generated surface.

use vstd::prelude::*;
use crate::generate::{
    declared_names, field_fault, first_fault, first_model_fault, repeats_field_name,
    spec_field_ty, spec_field_variants, spec_generate_model, spec_generate_schema,
    spec_generated_models, spec_variant, spec_variants, FieldSurface,
    GeneratedModel, GeneratedModelView, PayloadTypeView, VariantView,
};
use crate::naming::{
    lemma_builder_names, lemma_suffixed_names_injective, lemma_variant_names_injective,
    spec_operation_union_name, spec_title_case, spec_variant_name,
};
use crate::operation::spec_accessor_position;
use crate::operators::{
    lemma_operator_names, lemma_operator_rows_distinct, spec_scalar_kind, Operator, ScalarKind,
};
use crate::resolve::{spec_operators, spec_resolve, TypeRefView};
use crate::schema::{
    first_repeated_model, names_before, repeats_model_name, FieldView, GenerationErrorView,
    ModelView,
};

verus! {

/// The number of operators that the first `n` fields admit, all together.
pub open spec fn operator_count(fields: Seq<FieldView>, declared: Set<Seq<char>>, n: int) -> int
    decreases n,
{
    if n <= 0 {
        0
    } else {
        operator_count(fields, declared, n - 1) + spec_operators(
            spec_field_ty(fields, declared, n - 1),
        ).len()
    }
}

/// Whether the variant stems from the field at position `k` and the
/// operator at position `m` of that field's operators.
pub open spec fn stems_from(
    variant: VariantView,
    fields: Seq<FieldView>,
    declared: Set<Seq<char>>,
    k: int,
    m: int,
) -> bool {
    let ty = spec_field_ty(fields, declared, k);
    &&& 0 <= k < fields.len()
    &&& 0 <= m < spec_operators(ty).len()
    &&& variant == spec_variant(fields[k].name, ty, spec_operators(ty)[m])
}

/// Whether the variant stems from one of the fields and one of that
/// field's operators.
pub open spec fn stems_from_field(
    variant: VariantView,
    fields: Seq<FieldView>,
    declared: Set<Seq<char>>,
) -> bool {
    exists|k: int, m: int| stems_from(variant, fields, declared, k, m)
}

/// Whether none of the first `n` fields has a fault.
pub open spec fn no_fault_before(model: ModelView, declared: Set<Seq<char>>, n: int) -> bool {
    forall|i: int| 0 <= i < n ==> (#[trigger] field_fault(model, declared, i)) is None
}

/// No operator occurs twice among the operators of a type.
pub proof fn lemma_operators_distinct(ty: TypeRefView)
    ensures
        spec_operators(ty).no_duplicates(),
        spec_operators(ty).len() > 0,
{
    match ty {
        TypeRefView::Scalar(kind) => {
            lemma_operator_rows_distinct(kind);
        },
        TypeRefView::Relation(_) => {
            lemma_operator_rows_distinct(ScalarKind::Text);
        },
    }
}

/// A model without a fault among its first `n` fields has no field among
/// them that repeats a name, and none whose type does not resolve.
pub proof fn lemma_faultless_fields(model: ModelView, declared: Set<Seq<char>>, n: int)
    requires
        first_fault(model, declared, n) is None,
    ensures
        forall|j: int| 0 <= j < n ==> !(#[trigger] repeats_field_name(model.fields, j)),
        forall|j: int|
            0 <= j < n ==> (#[trigger] spec_resolve(model.fields[j].ty, declared)) is Some,
    decreases n,
{
    if n > 0 {
        lemma_faultless_fields(model, declared, n - 1);
        assert(field_fault(model, declared, n - 1) is None);
    }
}

/// The fault that generation reports for a model is that of the first
/// faulty field: no field before it has a fault. Where no fault is
/// reported, no field has one.
pub proof fn lemma_first_fault_is_least(model: ModelView, declared: Set<Seq<char>>, n: int)
    ensures
        match first_fault(model, declared, n) {
            Some(e) => exists|j: int|
                0 <= j < n && #[trigger] field_fault(model, declared, j) == Some(e)
                    && no_fault_before(model, declared, j),
            None => no_fault_before(model, declared, n),
        },
    decreases n,
{
    if n > 0 {
        lemma_first_fault_is_least(model, declared, n - 1);
        match first_fault(model, declared, n - 1) {
            Some(e) => {
                let j = choose|j: int|
                    0 <= j < n - 1 && #[trigger] field_fault(model, declared, j) == Some(e)
                        && no_fault_before(model, declared, j);
                assert(0 <= j < n && field_fault(model, declared, j) == Some(e));
            },
            None => {
                if field_fault(model, declared, n - 1) is Some {
                    assert(no_fault_before(model, declared, n - 1));
                }
            },
        }
    }
}

/// An operation union has exactly as many variants as its fields admit
/// operators.
pub proof fn lemma_union_size(fields: Seq<FieldView>, declared: Set<Seq<char>>, n: int)
    requires
        0 <= n <= fields.len(),
    ensures
        spec_variants(fields, declared, n).len() == operator_count(fields, declared, n),
    decreases n,
{
    if n > 0 {
        lemma_union_size(fields, declared, n - 1);
    }
}

/// Every variant of an operation union stems from one field of the model
/// itself and from one of that field's operators.
pub proof fn lemma_variant_origin(
    fields: Seq<FieldView>,
    declared: Set<Seq<char>>,
    n: int,
    i: int,
) -> (origin: (int, int))
    requires
        0 <= n <= fields.len(),
        0 <= i < spec_variants(fields, declared, n).len(),
    ensures
        origin.0 < n,
        stems_from(spec_variants(fields, declared, n)[i], fields, declared, origin.0, origin.1),
    decreases n,
{
    let earlier = spec_variants(fields, declared, n - 1);
    if i < earlier.len() {
        lemma_variant_origin(fields, declared, n - 1, i)
    } else {
        (n - 1, i - earlier.len())
    }
}

/// Every pair of a field and one of its operators has its variant in the
/// union: it stands after the variants of the earlier fields, at the
/// operator's position among those of its own field.
pub proof fn lemma_variant_present(
    fields: Seq<FieldView>,
    declared: Set<Seq<char>>,
    n: int,
    k: int,
    m: int,
)
    requires
        0 <= k < n <= fields.len(),
        0 <= m < spec_operators(spec_field_ty(fields, declared, k)).len(),
    ensures
        0 <= operator_count(fields, declared, k) + m < spec_variants(fields, declared, n).len(),
        stems_from(
            spec_variants(fields, declared, n)[operator_count(fields, declared, k) + m],
            fields,
            declared,
            k,
            m,
        ),
    decreases n,
{
    lemma_union_size(fields, declared, k);
    lemma_union_size(fields, declared, n - 1);
    lemma_operator_count_nonnegative(fields, declared, k);
    if k < n - 1 {
        lemma_variant_present(fields, declared, n - 1, k, m);
    }
}

/// A count of operators is not negative.
pub proof fn lemma_operator_count_nonnegative(
    fields: Seq<FieldView>,
    declared: Set<Seq<char>>,
    n: int,
)
    ensures
        operator_count(fields, declared, n) >= 0,
    decreases n,
{
    if n > 0 {
        lemma_operator_count_nonnegative(fields, declared, n - 1);
    }
}

/// The variants of an operation union are named apart, as long as the
/// fields are: no two variants bear the same name, not even those of two
/// fields that admit the same operator.
pub proof fn lemma_union_names_unique(fields: Seq<FieldView>, declared: Set<Seq<char>>, n: int)
    requires
        0 <= n <= fields.len(),
        forall|j: int| 0 <= j < n ==> !repeats_field_name(fields, j),
    ensures
        forall|i: int, j: int|
            0 <= i < j < spec_variants(fields, declared, n).len() ==> (#[trigger] spec_variants(
                fields,
                declared,
                n,
            )[i]).name != (#[trigger] spec_variants(fields, declared, n)[j]).name,
    decreases n,
{
    if n > 0 {
        lemma_union_names_unique(fields, declared, n - 1);
        let earlier = spec_variants(fields, declared, n - 1);
        let ty = spec_field_ty(fields, declared, n - 1);
        let field = fields[n - 1].name;
        let own = spec_field_variants(field, ty);
        let all = spec_variants(fields, declared, n);
        lemma_operators_distinct(ty);
        assert forall|i: int, j: int| 0 <= i < j < all.len() implies (#[trigger] all[i]).name != (
        #[trigger] all[j]).name by {
            if j < earlier.len() {
                assert(all[i] == earlier[i]);
                assert(all[j] == earlier[j]);
            } else if i >= earlier.len() {
                let a = i - earlier.len();
                let b = j - earlier.len();
                assert(all[i] == own[a]);
                assert(all[j] == own[b]);
                if all[i].name == all[j].name {
                    lemma_variant_names_injective(
                        field,
                        spec_operators(ty)[a],
                        field,
                        spec_operators(ty)[b],
                    );
                    assert(false);
                }
            } else {
                let b = j - earlier.len();
                assert(all[i] == earlier[i]);
                assert(all[j] == own[b]);
                let origin = lemma_variant_origin(fields, declared, n - 1, i);
                let k = origin.0;
                if all[i].name == all[j].name {
                    lemma_variant_names_injective(
                        fields[k].name,
                        spec_operators(spec_field_ty(fields, declared, k))[origin.1],
                        field,
                        spec_operators(ty)[b],
                    );
                    assert(fields[k].name == fields[n - 1].name);
                    assert(repeats_field_name(fields, n - 1));
                    assert(false);
                }
            }
        }
    }
}

/// Of the operation union that is generated for a model: it has one variant
/// for each pair of a field and one of the field's operators, and no more;
/// each variant stems from a field of the model itself; and the variants are
/// named apart.
pub proof fn lemma_operation_union(model: ModelView, declared: Set<Seq<char>>)
    requires
        spec_generate_model(model, declared) is Ok,
    ensures
        ({
            let union = spec_generate_model(model, declared)->Ok_0.variants;
            &&& union.len() == operator_count(model.fields, declared, model.fields.len() as int)
            &&& forall|i: int, j: int|
                0 <= i < j < union.len() ==> (#[trigger] union[i]).name != (#[trigger] union[j]).name
            &&& forall|i: int|
                0 <= i < union.len() ==> stems_from_field(
                    #[trigger] union[i],
                    model.fields,
                    declared,
                )
        }),
{
    let n = model.fields.len() as int;
    let union = spec_generate_model(model, declared)->Ok_0.variants;
    assert(union == spec_variants(model.fields, declared, n));
    lemma_faultless_fields(model, declared, n);
    lemma_union_size(model.fields, declared, n);
    lemma_union_names_unique(model.fields, declared, n);
    assert forall|i: int| 0 <= i < union.len() implies stems_from_field(
        #[trigger] union[i],
        model.fields,
        declared,
    ) by {
        let origin = lemma_variant_origin(model.fields, declared, n, i);
        assert(stems_from(union[i], model.fields, declared, origin.0, origin.1));
    }
}

/// A variant of a relation field carries a list of the operation union of
/// the model that the field refers to, and holds of that union its name
/// only; the field has the two variants `some` and `every`, whatever the
/// referred model's own union holds.
pub proof fn lemma_relation_variants(field: Seq<char>, referred: Seq<char>)
    ensures
        ({
            let variants = spec_field_variants(field, TypeRefView::Relation(referred));
            &&& variants.len() == 2
            &&& variants[0] == (VariantView {
                name: spec_variant_name(field, Operator::SomeOf),
                field,
                operator: Operator::SomeOf,
                payload: PayloadTypeView::Operations(spec_operation_union_name(referred)),
            })
            &&& variants[1] == (VariantView {
                name: spec_variant_name(field, Operator::EveryOf),
                field,
                operator: Operator::EveryOf,
                payload: PayloadTypeView::Operations(spec_operation_union_name(referred)),
            })
        }),
{
}

/// In a generated union, every variant that stems from a relation field
/// carries the referred model's union by name.
pub proof fn lemma_relation_payload(
    model: ModelView,
    declared: Set<Seq<char>>,
    i: int,
    k: int,
    m: int,
)
    requires
        spec_generate_model(model, declared) is Ok,
        0 <= i < spec_generate_model(model, declared)->Ok_0.variants.len(),
        stems_from(
            spec_generate_model(model, declared)->Ok_0.variants[i],
            model.fields,
            declared,
            k,
            m,
        ),
        spec_scalar_kind(model.fields[k].ty) is None,
    ensures
        declared.contains(model.fields[k].ty),
        spec_generate_model(model, declared)->Ok_0.variants[i].payload
            == PayloadTypeView::Operations(spec_operation_union_name(model.fields[k].ty)),
        spec_generate_model(model, declared)->Ok_0.variants[i].operator == Operator::SomeOf
            || spec_generate_model(model, declared)->Ok_0.variants[i].operator
            == Operator::EveryOf,
{
    lemma_faultless_fields(model, declared, model.fields.len() as int);
    assert(spec_resolve(model.fields[k].ty, declared) is Some);
}

/// Among the first `n` models none repeats a name exactly if no repeated
/// name is found among them.
pub proof fn lemma_no_repeated_model(models: Seq<ModelView>, n: int)
    ensures
        first_repeated_model(models, n) is None <==> forall|j: int|
            0 <= j < n ==> !(#[trigger] repeats_model_name(models, j)),
    decreases n,
{
    if n > 0 {
        lemma_no_repeated_model(models, n - 1);
        if first_repeated_model(models, n) is None {
            assert forall|j: int| 0 <= j < n implies !(#[trigger] repeats_model_name(
                models,
                j,
            )) by {
                if j < n - 1 {
                    assert(first_repeated_model(models, n - 1) is None);
                }
            }
        }
    }
}

/// Among the first `n` models none has a fault exactly if each of them
/// generates.
pub proof fn lemma_no_model_fault(models: Seq<ModelView>, declared: Set<Seq<char>>, n: int)
    ensures
        first_model_fault(models, declared, n) is None <==> forall|j: int|
            0 <= j < n ==> (#[trigger] spec_generate_model(models[j], declared)) is Ok,
    decreases n,
{
    if n > 0 {
        lemma_no_model_fault(models, declared, n - 1);
        if first_model_fault(models, declared, n) is None {
            assert forall|j: int| 0 <= j < n implies (#[trigger] spec_generate_model(
                models[j],
                declared,
            )) is Ok by {
                if j < n - 1 {
                    assert(first_model_fault(models, declared, n - 1) is None);
                }
            }
        }
    }
}

/// A schema generates exactly if no model repeats a name and every model
/// generates against the names of all of them. Then one surface is generated
/// for each model, in the schema's order, and the operation unions are named
/// apart. How the relations run plays no part: a field may refer to a later
/// model, to its own, or to one that refers back to it.
pub proof fn lemma_schema_generates(models: Seq<ModelView>)
    ensures
        spec_generate_schema(models) is Ok <==> (forall|j: int|
            0 <= j < models.len() ==> !(#[trigger] repeats_model_name(models, j))) && (forall|
            j: int,
        |
            0 <= j < models.len() ==> (#[trigger] spec_generate_model(
                models[j],
                declared_names(models),
            )) is Ok),
        spec_generate_schema(models) is Ok ==> ({
            let generated = spec_generate_schema(models)->Ok_0;
            &&& generated.len() == models.len()
            &&& forall|k: int|
                0 <= k < models.len() ==> Ok::<GeneratedModelView, GenerationErrorView>(
                    #[trigger] generated[k],
                ) == spec_generate_model(models[k], declared_names(models))
            &&& forall|i: int, j: int|
                0 <= i < j < models.len() ==> (#[trigger] generated[i]).operation_union != (
                #[trigger] generated[j]).operation_union
        }),
{
    let n = models.len() as int;
    let declared = declared_names(models);
    lemma_no_repeated_model(models, n);
    lemma_no_model_fault(models, declared, n);
    if spec_generate_schema(models) is Ok {
        let generated = spec_generate_schema(models)->Ok_0;
        assert(generated == spec_generated_models(models, n));
        assert forall|i: int, j: int| 0 <= i < j < models.len() implies (#[trigger] generated[i]).operation_union
            != (#[trigger] generated[j]).operation_union by {
            assert(spec_generate_model(models[i], declared) is Ok);
            assert(spec_generate_model(models[j], declared) is Ok);
            if generated[i].operation_union == generated[j].operation_union {
                lemma_suffixed_names_injective(models[i].name, models[j].name, "Operation"@);
                assert(names_before(models, j).contains(models[j].name));
                assert(repeats_model_name(models, j));
            }
        }
        assert forall|k: int| 0 <= k < models.len() implies Ok::<
            GeneratedModelView,
            GenerationErrorView,
        >(#[trigger] generated[k]) == spec_generate_model(models[k], declared) by {
            assert(spec_generate_model(models[k], declared) is Ok);
        }
    }
}

/// Two models that refer to each other generate: each union holds the two
/// variants of its relation field, which carry the other model's union by
/// name.
pub proof fn lemma_mutual_relations_generate(
    a: Seq<char>,
    field_of_a: Seq<char>,
    b: Seq<char>,
    field_of_b: Seq<char>,
)
    requires
        a != b,
        spec_scalar_kind(a) is None,
        spec_scalar_kind(b) is None,
    ensures
        ({
            let models = seq![
                ModelView { name: a, fields: seq![FieldView { name: field_of_a, ty: b }] },
                ModelView { name: b, fields: seq![FieldView { name: field_of_b, ty: a }] },
            ];
            &&& spec_generate_schema(models) is Ok
            &&& spec_generate_schema(models)->Ok_0.len() == 2
            &&& spec_generate_schema(models)->Ok_0[0].variants == spec_field_variants(
                field_of_a,
                TypeRefView::Relation(b),
            )
            &&& spec_generate_schema(models)->Ok_0[1].variants == spec_field_variants(
                field_of_b,
                TypeRefView::Relation(a),
            )
        }),
{
    let first = ModelView { name: a, fields: seq![FieldView { name: field_of_a, ty: b }] };
    let second = ModelView { name: b, fields: seq![FieldView { name: field_of_b, ty: a }] };
    let models = seq![first, second];
    let declared = declared_names(models);
    assert(models[0] == first);
    assert(models[1] == second);
    assert(declared.contains(a)) by {
        assert(models[0].name == a);
    }
    assert(declared.contains(b)) by {
        assert(models[1].name == b);
    }
    assert(!repeats_model_name(models, 0));
    assert(!repeats_model_name(models, 1));
    lemma_single_relation_generates(first, declared);
    lemma_single_relation_generates(second, declared);
    lemma_schema_generates(models);
    assert(spec_generate_schema(models) is Ok) by {
        assert forall|j: int| 0 <= j < models.len() implies (#[trigger] spec_generate_model(
            models[j],
            declared,
        )) is Ok by {
            assert(j == 0 || j == 1);
        }
    }
    let generated = spec_generate_schema(models)->Ok_0;
    assert(Ok::<GeneratedModelView, GenerationErrorView>(generated[0]) == spec_generate_model(
        models[0],
        declared,
    ));
    assert(Ok::<GeneratedModelView, GenerationErrorView>(generated[1]) == spec_generate_model(
        models[1],
        declared,
    ));
}

/// A model whose one field refers to a declared model generates, and its
/// union holds the variants of that field.
pub proof fn lemma_single_relation_generates(model: ModelView, declared: Set<Seq<char>>)
    requires
        model.fields.len() == 1,
        spec_scalar_kind(model.fields[0].ty) is None,
        declared.contains(model.fields[0].ty),
    ensures
        spec_generate_model(model, declared) is Ok,
        spec_generate_model(model, declared)->Ok_0.variants == spec_field_variants(
            model.fields[0].name,
            TypeRefView::Relation(model.fields[0].ty),
        ),
{
    assert(!repeats_field_name(model.fields, 0));
    assert(field_fault(model, declared, 0) is None);
    assert(first_fault(model, declared, 0) is None);
    assert(first_fault(model, declared, 1) is None);
    assert(spec_variants(model.fields, declared, 0) =~= Seq::empty());
    assert(spec_variants(model.fields, declared, 1) =~= spec_field_variants(
        model.fields[0].name,
        TypeRefView::Relation(model.fields[0].ty),
    ));
}

/// Of the selector surface that is generated for a model: each field has
/// its accessor, which bears the field's name, so that no two accessors bear
/// the same name; the methods of a builder are named apart; and the builder
/// types of two fields bear the same name only if the fields' names are the
/// same once their first characters are uppercased.
pub proof fn lemma_selector_names(model: ModelView, declared: Set<Seq<char>>)
    requires
        spec_generate_model(model, declared) is Ok,
    ensures
        ({
            let fields = spec_generate_model(model, declared)->Ok_0.fields;
            &&& fields.len() == model.fields.len()
            &&& forall|k: int|
                0 <= k < fields.len() ==> (#[trigger] fields[k]).accessor == model.fields[k].name
            &&& forall|i: int, j: int|
                0 <= i < j < fields.len() ==> (#[trigger] fields[i]).accessor != (
                #[trigger] fields[j]).accessor
            &&& forall|k: int, a: int, b: int|
                0 <= k < fields.len() && 0 <= a < b < fields[k].operators.len() ==> (
                #[trigger] fields[k].operators[a]).operator.spec_name() != (
                #[trigger] fields[k].operators[b]).operator.spec_name()
            &&& forall|i: int, j: int|
                0 <= i < fields.len() && 0 <= j < fields.len() && (#[trigger] fields[i]).builder
                    == (#[trigger] fields[j]).builder ==> spec_title_case(model.fields[i].name)
                    == spec_title_case(model.fields[j].name)
        }),
{
    let n = model.fields.len() as int;
    let fields = spec_generate_model(model, declared)->Ok_0.fields;
    lemma_faultless_fields(model, declared, n);
    assert forall|i: int, j: int| 0 <= i < j < fields.len() implies (#[trigger] fields[i]).accessor
        != (#[trigger] fields[j]).accessor by {
        if fields[i].accessor == fields[j].accessor {
            assert(model.fields[i].name == model.fields[j].name);
            assert(repeats_field_name(model.fields, j));
        }
    }
    assert forall|k: int, a: int, b: int|
        0 <= k < fields.len() && 0 <= a < b < fields[k].operators.len() implies (
    #[trigger] fields[k].operators[a]).operator.spec_name() != (
    #[trigger] fields[k].operators[b]).operator.spec_name() by {
        let ty = spec_field_ty(model.fields, declared, k);
        lemma_operators_distinct(ty);
        let operators = spec_operators(ty);
        assert(fields[k].operators[a].operator == operators[a]);
        assert(fields[k].operators[b].operator == operators[b]);
        lemma_operator_names(operators[a], operators[b]);
    }
    assert forall|i: int, j: int|
        0 <= i < fields.len() && 0 <= j < fields.len() && (#[trigger] fields[i]).builder == (
        #[trigger] fields[j]).builder implies spec_title_case(model.fields[i].name)
        == spec_title_case(model.fields[j].name) by {
        lemma_builder_names(model.name, model.fields[i].name, model.fields[j].name);
    }
}

/// Among surfaces whose accessors are named apart, the position that is
/// found for the accessor of the surface at position `k` is `k`.
pub proof fn lemma_accessor_position(fields: Seq<FieldSurface>, n: int, k: int)
    requires
        0 <= k < n <= fields.len(),
        forall|i: int, j: int|
            0 <= i < j < fields.len() ==> (#[trigger] fields[i]).accessor@ != (
            #[trigger] fields[j]).accessor@,
    ensures
        spec_accessor_position(fields, fields[k].accessor@, n) == Some(k),
    decreases n,
{
    if k < n - 1 {
        lemma_accessor_position(fields, n - 1, k);
    } else {
        lemma_accessor_absent(fields, k, k);
    }
}

/// Among surfaces whose accessors are named apart, the accessor of the
/// surface at position `k` is not found before `k`.
pub proof fn lemma_accessor_absent(fields: Seq<FieldSurface>, n: int, k: int)
    requires
        0 <= n <= k < fields.len(),
        forall|i: int, j: int|
            0 <= i < j < fields.len() ==> (#[trigger] fields[i]).accessor@ != (
            #[trigger] fields[j]).accessor@,
    ensures
        spec_accessor_position(fields, fields[k].accessor@, n) is None,
    decreases n,
{
    if n > 0 {
        lemma_accessor_absent(fields, n - 1, k);
        assert(fields[n - 1].accessor@ != fields[k].accessor@);
    }
}

/// Each field of a generated model is reached by the accessor that bears
/// its name: the selector that the accessor returns stands for that field of
/// that model, with the field's resolved type.
pub proof fn lemma_accessors_reach_fields(
    generated: GeneratedModel,
    model: ModelView,
    declared: Set<Seq<char>>,
    k: int,
)
    requires
        spec_generate_model(model, declared) == Ok::<GeneratedModelView, GenerationErrorView>(
            generated@,
        ),
        0 <= k < model.fields.len(),
    ensures
        generated.spec_field(model.fields[k].name) is Some,
        generated.spec_field(model.fields[k].name)->Some_0.model@ == model.name,
        generated.spec_field(model.fields[k].name)->Some_0.field@ == model.fields[k].name,
        generated.spec_field(model.fields[k].name)->Some_0.ty@ == spec_field_ty(
            model.fields,
            declared,
            k,
        ),
{
    lemma_selector_names(model, declared);
    let fields = generated.fields@;
    let views = generated@.fields;
    assert(views.len() == fields.len());
    assert forall|i: int, j: int| 0 <= i < j < fields.len() implies (#[trigger] fields[i]).accessor@
        != (#[trigger] fields[j]).accessor@ by {
        assert(views[i].accessor == fields[i].accessor@);
        assert(views[j].accessor == fields[j].accessor@);
    }
    assert(views[k].accessor == fields[k].accessor@);
    assert(views[k].ty == fields[k].ty@);
    lemma_accessor_position(fields, fields.len() as int, k);
}

/// Every operation that a selector of a generated model can build is a
/// value of one variant of the model's union: the union holds a variant that
/// bears the operation's tag and carries the payload type of the field.
pub proof fn lemma_operations_have_variants(
    model: ModelView,
    declared: Set<Seq<char>>,
    k: int,
    operator: Operator,
)
    requires
        spec_generate_model(model, declared) is Ok,
        0 <= k < model.fields.len(),
        spec_operators(spec_field_ty(model.fields, declared, k)).contains(operator),
    ensures
        exists|i: int|
            0 <= i < spec_generate_model(model, declared)->Ok_0.variants.len() && (
            #[trigger] spec_generate_model(model, declared)->Ok_0.variants[i]) == spec_variant(
                model.fields[k].name,
                spec_field_ty(model.fields, declared, k),
                operator,
            ),
{
    let n = model.fields.len() as int;
    let ty = spec_field_ty(model.fields, declared, k);
    let operators = spec_operators(ty);
    let m = choose|m: int| 0 <= m < operators.len() && operators[m] == operator;
    lemma_variant_present(model.fields, declared, n, k, m);
    let i = operator_count(model.fields, declared, k) + m;
    assert(spec_generate_model(model, declared)->Ok_0.variants[i] == spec_variant(
        model.fields[k].name,
        ty,
        operator,
    ));
}

} // verus!
