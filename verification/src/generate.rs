//! Generation of a model's query surface: the selector of each field and
//! the union of the model's filter operations.

use vstd::prelude::*;
use vstd::string::*;
use crate::naming::{
    builder_name, client_method_name, client_trait_name, operation_union_name, queries_name,
    spec_builder_name, spec_client_method_name, spec_client_trait_name,
    spec_operation_union_name, spec_queries_name, spec_variant_name, variant_name,
};
use crate::operators::{relation_operators, scalar_operators, Operator, OperatorSpec, ScalarKind};
use crate::resolve::{
    resolve, spec_operator_specs, spec_operators, spec_resolve, TypeRef, TypeRefView,
};
use crate::schema::{
    first_repeated_model, names_before, FieldDescriptor, FieldView, GenerationError,
    GenerationErrorView, ModelDescriptor, ModelNames, ModelView,
};

verus! {

/// What a variant of an operation union carries: a value of a scalar type,
/// or a list of operations of another model's union, which is referred to by
/// name.
#[derive(Clone, Debug, PartialEq, Eq)]
pub enum PayloadType {
    Scalar(ScalarKind),
    Operations(String),
}

/// A payload type with its texts as sequences of characters.
pub enum PayloadTypeView {
    Scalar(ScalarKind),
    Operations(Seq<char>),
}

impl View for PayloadType {
    type V = PayloadTypeView;

    open spec fn view(&self) -> PayloadTypeView {
        match self {
            PayloadType::Scalar(kind) => PayloadTypeView::Scalar(*kind),
            PayloadType::Operations(union) => PayloadTypeView::Operations(union@),
        }
    }
}

/// One variant of a model's operation union: a field paired with one of
/// its operators.
#[derive(Clone, Debug, PartialEq, Eq)]
pub struct VariantSpec {
    pub name: String,
    pub field: String,
    pub operator: Operator,
    pub payload: PayloadType,
}

/// A variant with its texts as sequences of characters.
pub struct VariantView {
    pub name: Seq<char>,
    pub field: Seq<char>,
    pub operator: Operator,
    pub payload: PayloadTypeView,
}

impl View for VariantSpec {
    type V = VariantView;

    open spec fn view(&self) -> VariantView {
        VariantView {
            name: self.name@,
            field: self.field@,
            operator: self.operator,
            payload: self.payload@,
        }
    }
}

impl DeepView for VariantSpec {
    type V = VariantView;

    open spec fn deep_view(&self) -> VariantView {
        self@
    }
}

/// The selector surface of one field: the accessor that reaches it from the
/// model, the builder type that the accessor returns, and one method of the
/// builder for each operator.
#[derive(Clone, Debug, PartialEq, Eq)]
pub struct FieldSurface {
    pub accessor: String,
    pub builder: String,
    pub ty: TypeRef,
    pub operators: Vec<OperatorSpec>,
}

/// A field surface with its texts as sequences of characters.
pub struct FieldSurfaceView {
    pub accessor: Seq<char>,
    pub builder: Seq<char>,
    pub ty: TypeRefView,
    pub operators: Seq<OperatorSpec>,
}

impl View for FieldSurface {
    type V = FieldSurfaceView;

    open spec fn view(&self) -> FieldSurfaceView {
        FieldSurfaceView {
            accessor: self.accessor@,
            builder: self.builder@,
            ty: self.ty@,
            operators: self.operators@,
        }
    }
}

impl DeepView for FieldSurface {
    type V = FieldSurfaceView;

    open spec fn deep_view(&self) -> FieldSurfaceView {
        self@
    }
}

/// All that is generated for one model.
#[derive(Clone, Debug, PartialEq, Eq)]
pub struct GeneratedModel {
    pub model: String,
    pub operation_union: String,
    pub queries: String,
    pub client_trait: String,
    pub client_method: String,
    pub fields: Vec<FieldSurface>,
    pub variants: Vec<VariantSpec>,
}

/// A generated model with its texts as sequences of characters.
pub struct GeneratedModelView {
    pub model: Seq<char>,
    pub operation_union: Seq<char>,
    pub queries: Seq<char>,
    pub client_trait: Seq<char>,
    pub client_method: Seq<char>,
    pub fields: Seq<FieldSurfaceView>,
    pub variants: Seq<VariantView>,
}

impl View for GeneratedModel {
    type V = GeneratedModelView;

    open spec fn view(&self) -> GeneratedModelView {
        GeneratedModelView {
            model: self.model@,
            operation_union: self.operation_union@,
            queries: self.queries@,
            client_trait: self.client_trait@,
            client_method: self.client_method@,
            fields: self.fields.deep_view(),
            variants: self.variants.deep_view(),
        }
    }
}

impl DeepView for GeneratedModel {
    type V = GeneratedModelView;

    open spec fn deep_view(&self) -> GeneratedModelView {
        self@
    }
}

/// A scalar field's variants carry its scalar type; a relation field's carry
/// a list of the referred model's operation union, by that union's name.
pub open spec fn spec_payload(ty: TypeRefView) -> PayloadTypeView {
    match ty {
        TypeRefView::Scalar(kind) => PayloadTypeView::Scalar(kind),
        TypeRefView::Relation(model) => PayloadTypeView::Operations(
            spec_operation_union_name(model),
        ),
    }
}

/// The variant of a field and one operator.
pub open spec fn spec_variant(field: Seq<char>, ty: TypeRefView, operator: Operator) -> VariantView {
    VariantView {
        name: spec_variant_name(field, operator),
        field,
        operator,
        payload: spec_payload(ty),
    }
}

/// The variants of one field: one for each of its operators, in their order.
pub open spec fn spec_field_variants(field: Seq<char>, ty: TypeRefView) -> Seq<VariantView> {
    spec_operators(ty).map_values(|o: Operator| spec_variant(field, ty, o))
}

/// The resolved type of the field at position `k`.
pub open spec fn spec_field_ty(fields: Seq<FieldView>, declared: Set<Seq<char>>, k: int) -> TypeRefView {
    spec_resolve(fields[k].ty, declared)->Some_0
}

/// The variants of the first `n` fields, field after field.
pub open spec fn spec_variants(fields: Seq<FieldView>, declared: Set<Seq<char>>, n: int) -> Seq<
    VariantView,
>
    decreases n,
{
    if n <= 0 {
        Seq::empty()
    } else {
        spec_variants(fields, declared, n - 1) + spec_field_variants(
            fields[n - 1].name,
            spec_field_ty(fields, declared, n - 1),
        )
    }
}

/// The selector surface of a field of a model.
pub open spec fn spec_field_surface(model: Seq<char>, field: FieldView, ty: TypeRefView) -> FieldSurfaceView {
    FieldSurfaceView {
        accessor: field.name,
        builder: spec_builder_name(model, field.name),
        ty,
        operators: spec_operator_specs(ty),
    }
}

/// The selector surfaces of the first `n` fields of a model.
pub open spec fn spec_surfaces(model: ModelView, declared: Set<Seq<char>>, n: int) -> Seq<
    FieldSurfaceView,
> {
    Seq::new(
        n as nat,
        |k: int| spec_field_surface(model.name, model.fields[k], spec_field_ty(model.fields, declared, k)),
    )
}

/// Whether the field at position `j` bears the name of an earlier field.
pub open spec fn repeats_field_name(fields: Seq<FieldView>, j: int) -> bool {
    exists|i: int| 0 <= i < j && (#[trigger] fields[i]).name == fields[j].name
}

/// What is wrong with the field at position `j`, if anything. A repeated
/// name is found before an unsupported type.
pub open spec fn field_fault(model: ModelView, declared: Set<Seq<char>>, j: int) -> Option<
    GenerationErrorView,
> {
    let field = model.fields[j];
    if repeats_field_name(model.fields, j) {
        Some(GenerationErrorView::DuplicateFieldName { model: model.name, field: field.name })
    } else if spec_resolve(field.ty, declared) is None {
        Some(
            GenerationErrorView::UnsupportedFieldType {
                model: model.name,
                field: field.name,
                ty: field.ty,
            },
        )
    } else {
        None
    }
}

/// The fault of the first faulty field among the first `n`, if there is one.
pub open spec fn first_fault(model: ModelView, declared: Set<Seq<char>>, n: int) -> Option<
    GenerationErrorView,
>
    decreases n,
{
    if n <= 0 {
        None
    } else {
        match first_fault(model, declared, n - 1) {
            Some(e) => Some(e),
            None => field_fault(model, declared, n - 1),
        }
    }
}

/// What is generated for a model without a faulty field.
pub open spec fn spec_generated(model: ModelView, declared: Set<Seq<char>>) -> GeneratedModelView {
    GeneratedModelView {
        model: model.name,
        operation_union: spec_operation_union_name(model.name),
        queries: spec_queries_name(model.name),
        client_trait: spec_client_trait_name(model.name),
        client_method: spec_client_method_name(model.name),
        fields: spec_surfaces(model, declared, model.fields.len() as int),
        variants: spec_variants(model.fields, declared, model.fields.len() as int),
    }
}

/// Generation for one model: the fault of its first faulty field, or else
/// its whole surface. Nothing is generated for a model with a fault.
pub open spec fn spec_generate_model(model: ModelView, declared: Set<Seq<char>>) -> Result<
    GeneratedModelView,
    GenerationErrorView,
> {
    match first_fault(model, declared, model.fields.len() as int) {
        Some(e) => Err(e),
        None => Ok(spec_generated(model, declared)),
    }
}

/// The operators of a resolved type, in order.
pub fn operators_of(ty: &TypeRef) -> (r: Vec<Operator>)
    ensures
        r@ == spec_operators(ty@),
{
    match ty {
        TypeRef::Scalar(kind) => scalar_operators(*kind),
        TypeRef::Relation(_) => relation_operators(),
    }
}

/// What the variants of a field of the given type carry.
pub fn payload_of(ty: &TypeRef) -> (r: PayloadType)
    ensures
        r@ == spec_payload(ty@),
{
    match ty {
        TypeRef::Scalar(kind) => PayloadType::Scalar(*kind),
        TypeRef::Relation(model) => PayloadType::Operations(operation_union_name(model.as_str())),
    }
}

/// Appends the variants of one field to a union under construction.
pub fn push_field_variants(variants: &mut Vec<VariantSpec>, field: &str, ty: &TypeRef)
    ensures
        final(variants).deep_view() == old(variants).deep_view() + spec_field_variants(
            field@,
            ty@,
        ),
{
    let ops = operators_of(ty);
    let ghost before = variants.deep_view();
    let ghost target = spec_field_variants(field@, ty@);
    let mut k: usize = 0;
    while k < ops.len()
        invariant
            k <= ops.len(),
            ops@ == spec_operators(ty@),
            target == spec_field_variants(field@, ty@),
            variants.deep_view() == before + target.take(k as int),
        decreases ops.len() - k,
    {
        let variant = VariantSpec {
            name: variant_name(field, ops[k]),
            field: String::from_str(field),
            operator: ops[k],
            payload: payload_of(ty),
        };
        let ghost earlier = variants.deep_view();
        variants.push(variant);
        k = k + 1;
        proof {
            assert(variants.deep_view() =~= earlier.push(target[k - 1]));
        }
    }
}

/// Whether the field at position `j` bears the name of an earlier field.
pub fn repeats_earlier_field(fields: &Vec<FieldDescriptor>, j: usize) -> (r: bool)
    requires
        j < fields.len(),
    ensures
        r == repeats_field_name(fields.deep_view(), j as int),
{
    let mut i: usize = 0;
    while i < j
        invariant
            i <= j,
            j < fields.len(),
            forall|k: int| 0 <= k < i ==> (#[trigger] fields.deep_view()[k]).name != fields.deep_view()[j as int].name,
        decreases j - i,
    {
        if fields[i].name.as_str().eq(fields[j].name.as_str()) {
            assert(fields.deep_view()[i as int].name == fields.deep_view()[j as int].name);
            return true;
        }
        i = i + 1;
    }
    false
}

/// A fault found among the first `n` fields is the first fault of every
/// longer run of fields.
pub proof fn lemma_first_fault_stable(model: ModelView, declared: Set<Seq<char>>, n: int, m: int)
    requires
        n <= m,
        first_fault(model, declared, n) is Some,
    ensures
        first_fault(model, declared, m) == first_fault(model, declared, n),
    decreases m - n,
{
    if n < m {
        lemma_first_fault_stable(model, declared, n, m - 1);
    }
}

/// Generates the surface of one model against the declared model names: the
/// second pass of generation.
pub fn generate_model(model: &ModelDescriptor, models: &ModelNames) -> (r: Result<
    GeneratedModel,
    GenerationError,
>)
    ensures
        match spec_generate_model(model@, models@) {
            Ok(g) => r is Ok && r->Ok_0@ == g,
            Err(e) => r is Err && r->Err_0@ == e,
        },
{
    let mut fields: Vec<FieldSurface> = Vec::new();
    let mut variants: Vec<VariantSpec> = Vec::new();
    let mut i: usize = 0;
    let ghost total = model.fields.len() as int;
    assert(fields.deep_view() =~= spec_surfaces(model@, models@, 0));
    assert(variants.deep_view() =~= spec_variants(model@.fields, models@, 0));
    while i < model.fields.len()
        invariant
            i <= model.fields.len(),
            total == model.fields.len(),
            first_fault(model@, models@, i as int) is None,
            fields.deep_view() == spec_surfaces(model@, models@, i as int),
            variants.deep_view() == spec_variants(model@.fields, models@, i as int),
        decreases model.fields.len() - i,
    {
        let field = &model.fields[i];
        assert(model@.fields[i as int] == field@);
        if repeats_earlier_field(&model.fields, i) {
            proof {
                assert(first_fault(model@, models@, i + 1) == field_fault(model@, models@, i as int));
                lemma_first_fault_stable(model@, models@, i + 1, total);
            }
            return Err(
                GenerationError::DuplicateFieldName {
                    model: model.name.clone(),
                    field: field.name.clone(),
                },
            );
        }
        match resolve(field.ty.as_str(), models) {
            Err(unsupported) => {
                proof {
                    assert(first_fault(model@, models@, i + 1) == field_fault(
                        model@,
                        models@,
                        i as int,
                    ));
                    lemma_first_fault_stable(model@, models@, i + 1, total);
                }
                return Err(
                    GenerationError::UnsupportedFieldType {
                        model: model.name.clone(),
                        field: field.name.clone(),
                        ty: unsupported.ty,
                    },
                );
            },
            Ok(resolution) => {
                push_field_variants(&mut variants, field.name.as_str(), &resolution.ty);
                let surface = FieldSurface {
                    accessor: field.name.clone(),
                    builder: builder_name(model.name.as_str(), field.name.as_str()),
                    ty: resolution.ty,
                    operators: resolution.operators,
                };
                let ghost earlier = fields.deep_view();
                fields.push(surface);
                proof {
                    assert(fields.deep_view() =~= earlier.push(surface@));
                    assert(fields.deep_view() =~= spec_surfaces(model@, models@, i + 1));
                }
            },
        }
        i = i + 1;
    }
    Ok(
        GeneratedModel {
            model: model.name.clone(),
            operation_union: operation_union_name(model.name.as_str()),
            queries: queries_name(model.name.as_str()),
            client_trait: client_trait_name(model.name.as_str()),
            client_method: client_method_name(model.name.as_str()),
            fields,
            variants,
        },
    )
}

/// The fault of the first faulty model among the first `n`, if there is one.
pub open spec fn first_model_fault(models: Seq<ModelView>, declared: Set<Seq<char>>, n: int) -> Option<
    GenerationErrorView,
>
    decreases n,
{
    if n <= 0 {
        None
    } else {
        match first_model_fault(models, declared, n - 1) {
            Some(e) => Some(e),
            None => match spec_generate_model(models[n - 1], declared) {
                Ok(_) => None,
                Err(e) => Some(e),
            },
        }
    }
}

/// The names that a schema declares.
pub open spec fn declared_names(models: Seq<ModelView>) -> Set<Seq<char>> {
    names_before(models, models.len() as int)
}

/// The surfaces of the first `n` models of a schema, in the schema's order.
pub open spec fn spec_generated_models(models: Seq<ModelView>, n: int) -> Seq<GeneratedModelView> {
    Seq::new(n as nat, |k: int| spec_generated(models[k], declared_names(models)))
}

/// Generation for a whole schema. The names are collected first, and a
/// repeated model name is the first fault looked for; then every model is
/// generated against all the names, in order, up to the first fault. A
/// schema with a fault yields that fault and nothing else.
pub open spec fn spec_generate_schema(models: Seq<ModelView>) -> Result<
    Seq<GeneratedModelView>,
    GenerationErrorView,
> {
    match first_repeated_model(models, models.len() as int) {
        Some(j) => Err(GenerationErrorView::DuplicateModelName { model: models[j].name }),
        None => match first_model_fault(models, declared_names(models), models.len() as int) {
            Some(e) => Err(e),
            None => Ok(spec_generated_models(models, models.len() as int)),
        },
    }
}

/// A fault found among the first `n` models is the first fault of every
/// longer run of models.
pub proof fn lemma_first_model_fault_stable(
    models: Seq<ModelView>,
    declared: Set<Seq<char>>,
    n: int,
    m: int,
)
    requires
        n <= m,
        first_model_fault(models, declared, n) is Some,
    ensures
        first_model_fault(models, declared, m) == first_model_fault(models, declared, n),
    decreases m - n,
{
    if n < m {
        lemma_first_model_fault_stable(models, declared, n, m - 1);
    }
}

/// Generates the surfaces of all the models of a schema, in two passes: the
/// model names are collected, then each model is generated against them, so
/// that a field may refer to a model that is declared later, to its own
/// model, or to one that refers back.
pub fn generate_schema(models: &Vec<ModelDescriptor>) -> (r: Result<
    Vec<GeneratedModel>,
    GenerationError,
>)
    ensures
        match spec_generate_schema(models.deep_view()) {
            Ok(g) => r is Ok && r->Ok_0.deep_view() == g,
            Err(e) => r is Err && r->Err_0@ == e,
        },
{
    let ghost views = models.deep_view();
    let names = match ModelNames::collect(models) {
        Ok(names) => names,
        Err(e) => {
            return Err(e);
        },
    };
    let mut out: Vec<GeneratedModel> = Vec::new();
    let mut i: usize = 0;
    assert(out.deep_view() =~= spec_generated_models(views, 0));
    while i < models.len()
        invariant
            i <= models.len(),
            views == models.deep_view(),
            names@ == declared_names(views),
            first_repeated_model(views, views.len() as int) is None,
            first_model_fault(views, names@, i as int) is None,
            out.deep_view() == spec_generated_models(views, i as int),
        decreases models.len() - i,
    {
        assert(views[i as int] == models[i as int]@);
        match generate_model(&models[i], &names) {
            Ok(generated) => {
                let ghost earlier = out.deep_view();
                out.push(generated);
                proof {
                    assert(out.deep_view() =~= earlier.push(generated@));
                    assert(out.deep_view() =~= spec_generated_models(views, i + 1));
                }
            },
            Err(e) => {
                proof {
                    assert(first_model_fault(views, names@, i + 1) == Some(e@));
                    lemma_first_model_fault_stable(views, names@, i + 1, views.len() as int);
                }
                return Err(e);
            },
        }
        i = i + 1;
    }
    Ok(out)
}

} // verus!
