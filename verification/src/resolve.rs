//! Resolution of a declared type: scalar or relation, and its operators.

use vstd::prelude::*;
use vstd::string::*;
use crate::operators::{
    relation_operators, scalar_kind, scalar_operators, spec_relation_operators, spec_scalar_kind,
    spec_scalar_operators, lemma_operator_rows_distinct, lemma_scalar_ty_names, Operator,
    OperatorShape, OperatorSpec, ScalarKind,
};
use crate::schema::ModelNames;

verus! {

/// A resolved type: a scalar of the table, or a reference to a declared
/// model by its name.
#[derive(Clone, Debug, PartialEq, Eq)]
pub enum TypeRef {
    Scalar(ScalarKind),
    Relation(String),
}

/// A resolved type with its text as a sequence of characters.
pub enum TypeRefView {
    Scalar(ScalarKind),
    Relation(Seq<char>),
}

impl View for TypeRef {
    type V = TypeRefView;

    open spec fn view(&self) -> TypeRefView {
        match self {
            TypeRef::Scalar(kind) => TypeRefView::Scalar(*kind),
            TypeRef::Relation(model) => TypeRefView::Relation(model@),
        }
    }
}

impl TypeRef {
    /// Whether the type refers to a model.
    pub fn is_relation(&self) -> (r: bool)
        ensures
            r == (self@ is Relation),
    {
        match self {
            TypeRef::Scalar(_) => false,
            TypeRef::Relation(_) => true,
        }
    }

    /// A copy of the type.
    pub fn duplicate(&self) -> (r: TypeRef)
        ensures
            r == *self,
    {
        match self {
            TypeRef::Scalar(kind) => TypeRef::Scalar(*kind),
            TypeRef::Relation(model) => TypeRef::Relation(model.clone()),
        }
    }
}

/// What resolution yields for a field: its resolved type and the operators
/// that the field admits, in order.
#[derive(Clone, Debug, PartialEq, Eq)]
pub struct Resolution {
    pub ty: TypeRef,
    pub operators: Vec<OperatorSpec>,
}

impl Resolution {
    /// Whether the field is a relation.
    pub fn is_relation(&self) -> (r: bool)
        ensures
            r == (self.ty@ is Relation),
    {
        self.ty.is_relation()
    }
}

/// The type named has no row in the operator table and is no declared model.
#[derive(Clone, Debug, PartialEq, Eq)]
pub struct UnsupportedFieldType {
    pub ty: String,
}

/// The table comes first: a type name with a row in it is that scalar, even
/// where a model bears the same name. Any other name is a relation if a
/// model of that name has been declared, and unsupported if none has.
pub open spec fn spec_resolve(ty: Seq<char>, declared: Set<Seq<char>>) -> Option<TypeRefView> {
    match spec_scalar_kind(ty) {
        Some(kind) => Some(TypeRefView::Scalar(kind)),
        None => if declared.contains(ty) {
            Some(TypeRefView::Relation(ty))
        } else {
            None
        },
    }
}

/// The operators of a resolved type without their shapes, in order.
pub open spec fn spec_operators(ty: TypeRefView) -> Seq<Operator> {
    match ty {
        TypeRefView::Scalar(kind) => spec_scalar_operators(kind),
        TypeRefView::Relation(_) => spec_relation_operators(),
    }
}

/// The operators of a resolved type, each with its shape, in order.
pub open spec fn spec_operator_specs(ty: TypeRefView) -> Seq<OperatorSpec> {
    spec_operators(ty).map_values(|o: Operator| o.spec_with_shape())
}

/// Gives each operator its shape.
pub fn with_shapes(ops: &Vec<Operator>) -> (r: Vec<OperatorSpec>)
    ensures
        r@ == ops@.map_values(|o: Operator| o.spec_with_shape()),
{
    let mut out: Vec<OperatorSpec> = Vec::new();
    let mut i: usize = 0;
    while i < ops.len()
        invariant
            i <= ops.len(),
            out@ == ops@.take(i as int).map_values(|o: Operator| o.spec_with_shape()),
        decreases ops.len() - i,
    {
        out.push(ops[i].with_shape());
        i = i + 1;
    }
    out
}

/// Resolves a declared type against the operator table and the declared models.
pub fn resolve(ty: &str, models: &ModelNames) -> (r: Result<Resolution, UnsupportedFieldType>)
    ensures
        match spec_resolve(ty@, models@) {
            Some(t) => r is Ok && r->Ok_0.ty@ == t && r->Ok_0.operators@ == spec_operator_specs(t),
            None => r is Err && r->Err_0.ty@ == ty@,
        },
{
    match scalar_kind(ty) {
        Some(kind) => {
            let ops = scalar_operators(kind);
            Ok(Resolution { ty: TypeRef::Scalar(kind), operators: with_shapes(&ops) })
        },
        None => {
            if models.contains(ty) {
                let ops = relation_operators();
                Ok(
                    Resolution {
                        ty: TypeRef::Relation(String::from_str(ty)),
                        operators: with_shapes(&ops),
                    },
                )
            } else {
                Err(UnsupportedFieldType { ty: String::from_str(ty) })
            }
        },
    }
}

/// Every scalar type of the table resolves to itself, whatever models are
/// declared, and to the operators of its row, of which there is at least one.
pub proof fn lemma_scalars_resolve(kind: ScalarKind, declared: Set<Seq<char>>)
    ensures
        spec_resolve(kind.spec_host_name(), declared) == Some(TypeRefView::Scalar(kind)),
        spec_operators(TypeRefView::Scalar(kind)) == spec_scalar_operators(kind),
        spec_operator_specs(TypeRefView::Scalar(kind)).len() > 0,
        forall|i: int|
            0 <= i < spec_scalar_operators(kind).len() ==> (#[trigger] spec_operator_specs(
                TypeRefView::Scalar(kind),
            )[i]) == (OperatorSpec {
                operator: spec_scalar_operators(kind)[i],
                shape: OperatorShape::Value,
            }),
{
    lemma_scalar_ty_names(kind);
    lemma_operator_rows_distinct(kind);
}

/// A relation field admits `some` and `every`, both over a list of
/// sub-operations, whatever model it refers to.
pub proof fn lemma_relations_resolve(model: Seq<char>, declared: Set<Seq<char>>)
    requires
        spec_scalar_kind(model) is None,
        declared.contains(model),
    ensures
        spec_resolve(model, declared) == Some(TypeRefView::Relation(model)),
        spec_operator_specs(TypeRefView::Relation(model)) == seq![
            OperatorSpec { operator: Operator::SomeOf, shape: OperatorShape::SubOperations },
            OperatorSpec { operator: Operator::EveryOf, shape: OperatorShape::SubOperations },
        ],
{
    assert(spec_operator_specs(TypeRefView::Relation(model)) =~= seq![
        OperatorSpec { operator: Operator::SomeOf, shape: OperatorShape::SubOperations },
        OperatorSpec { operator: Operator::EveryOf, shape: OperatorShape::SubOperations },
    ]);
}

} // verus!
