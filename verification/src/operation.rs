//! Filter operations: the values of a model's operation union, and the
//! field selectors that build them.

use vstd::prelude::*;
use crate::generate::{operators_of, FieldSurface, GeneratedModel};
use crate::naming::{lemma_variant_names_injective, spec_variant_name, variant_name};
use crate::operators::{Operator, ScalarKind};
use crate::resolve::{spec_operators, TypeRef};

verus! {

/// A value of one of the scalar types.
#[derive(Clone, Debug, PartialEq, Eq)]
pub enum Value {
    Text(String),
    Int32(i32),
    Int64(i64),
    Boolean(bool),
}

impl Value {
    /// The scalar type of the value.
    pub open spec fn spec_kind(&self) -> ScalarKind {
        match self {
            Value::Text(_) => ScalarKind::Text,
            Value::Int32(_) => ScalarKind::Int32,
            Value::Int64(_) => ScalarKind::Int64,
            Value::Boolean(_) => ScalarKind::Boolean,
        }
    }

    /// The scalar type of the value.
    pub fn kind(&self) -> (r: ScalarKind)
        ensures
            r == self.spec_kind(),
    {
        match self {
            Value::Text(_) => ScalarKind::Text,
            Value::Int32(_) => ScalarKind::Int32,
            Value::Int64(_) => ScalarKind::Int64,
            Value::Boolean(_) => ScalarKind::Boolean,
        }
    }
}

/// What an operation carries: a value, or a list of operations on the
/// referred model.
#[derive(Debug, PartialEq, Eq)]
pub enum Payload {
    Value(Value),
    Operations(Vec<OperationVariant>),
}

/// A filter operation on a field of a model: a value of the model's
/// operation union.
#[derive(Debug, PartialEq, Eq)]
pub struct OperationVariant {
    pub model: String,
    pub field: String,
    pub operator: Operator,
    pub payload: Payload,
}

impl OperationVariant {
    /// The name of the union variant that the operation is a value of.
    pub open spec fn spec_tag(&self) -> Seq<char> {
        spec_variant_name(self.field@, self.operator)
    }

    /// The name of the union variant that the operation is a value of.
    pub fn tag(&self) -> (r: String)
        ensures
            r@ == self.spec_tag(),
    {
        variant_name(self.field.as_str(), self.operator)
    }
}

/// The builder of the operations on one field. It holds no state beyond the
/// field that it stands for: any two selectors of a field are interchangeable.
#[derive(Clone, Debug, PartialEq, Eq)]
pub struct FieldSelector {
    pub model: String,
    pub field: String,
    pub ty: TypeRef,
}

/// Whether every operation of the list is one on `model`.
pub open spec fn all_on_model(operations: Seq<OperationVariant>, model: Seq<char>) -> bool {
    forall|i: int| 0 <= i < operations.len() ==> (#[trigger] operations[i]).model@ == model
}

/// Whether every operation of the list is one on `model`.
pub fn operations_on_model(operations: &Vec<OperationVariant>, model: &str) -> (r: bool)
    ensures
        r == all_on_model(operations@, model@),
{
    let mut i: usize = 0;
    while i < operations.len()
        invariant
            i <= operations.len(),
            forall|k: int| 0 <= k < i ==> (#[trigger] operations@[k]).model@ == model@,
        decreases operations.len() - i,
    {
        if !operations[i].model.as_str().eq(model) {
            return false;
        }
        i = i + 1;
    }
    true
}

/// Whether the operator occurs in the list.
pub fn has_operator(operators: &Vec<Operator>, operator: Operator) -> (r: bool)
    ensures
        r == operators@.contains(operator),
{
    let mut i: usize = 0;
    while i < operators.len()
        invariant
            i <= operators.len(),
            forall|k: int| 0 <= k < i ==> operators@[k] != operator,
        decreases operators.len() - i,
    {
        if operators[i] == operator {
            return true;
        }
        i = i + 1;
    }
    false
}

impl FieldSelector {
    /// Whether the field admits the operator with the payload: the operator
    /// is one of the field's, and the payload is a value of the field's scalar
    /// type, or, for a relation field, a list of operations on the referred
    /// model.
    pub open spec fn admits(&self, operator: Operator, payload: Payload) -> bool {
        &&& spec_operators(self.ty@).contains(operator)
        &&& match (self.ty, payload) {
            (TypeRef::Scalar(kind), Payload::Value(value)) => value.spec_kind() == kind,
            (TypeRef::Relation(model), Payload::Operations(operations)) => all_on_model(
                operations@,
                model@,
            ),
            _ => false,
        }
    }

    /// The operation on the field with the operator and the payload, where
    /// the field admits them.
    pub open spec fn spec_apply(&self, operator: Operator, payload: Payload) -> Option<
        OperationVariant,
    > {
        if self.admits(operator, payload) {
            Some(OperationVariant { model: self.model, field: self.field, operator, payload })
        } else {
            None
        }
    }

    /// Builds the operation on the field with the operator and the payload.
    pub fn apply(&self, operator: Operator, payload: Payload) -> (r: Option<OperationVariant>)
        ensures
            r == self.spec_apply(operator, payload),
    {
        let operators = operators_of(&self.ty);
        if !has_operator(&operators, operator) {
            return None;
        }
        let fits = match (&self.ty, &payload) {
            (TypeRef::Scalar(kind), Payload::Value(value)) => value.kind() == *kind,
            (TypeRef::Relation(model), Payload::Operations(operations)) => operations_on_model(
                operations,
                model.as_str(),
            ),
            _ => false,
        };
        if fits {
            Some(
                OperationVariant {
                    model: self.model.clone(),
                    field: self.field.clone(),
                    operator,
                    payload,
                },
            )
        } else {
            None
        }
    }

    /// The operation `equals` on the field.
    pub fn equals(&self, value: Value) -> (r: Option<OperationVariant>)
        ensures
            r == self.spec_apply(Operator::Equals, Payload::Value(value)),
    {
        self.apply(Operator::Equals, Payload::Value(value))
    }

    /// The operation `contains` on the field.
    pub fn contains(&self, value: Value) -> (r: Option<OperationVariant>)
        ensures
            r == self.spec_apply(Operator::Contains, Payload::Value(value)),
    {
        self.apply(Operator::Contains, Payload::Value(value))
    }

    /// The operation `hasPrefix` on the field.
    pub fn has_prefix(&self, value: Value) -> (r: Option<OperationVariant>)
        ensures
            r == self.spec_apply(Operator::HasPrefix, Payload::Value(value)),
    {
        self.apply(Operator::HasPrefix, Payload::Value(value))
    }

    /// The operation `hasSuffix` on the field.
    pub fn has_suffix(&self, value: Value) -> (r: Option<OperationVariant>)
        ensures
            r == self.spec_apply(Operator::HasSuffix, Payload::Value(value)),
    {
        self.apply(Operator::HasSuffix, Payload::Value(value))
    }

    /// The operation `lte` on the field.
    pub fn lte(&self, value: Value) -> (r: Option<OperationVariant>)
        ensures
            r == self.spec_apply(Operator::Lte, Payload::Value(value)),
    {
        self.apply(Operator::Lte, Payload::Value(value))
    }

    /// The operation `lt` on the field.
    pub fn lt(&self, value: Value) -> (r: Option<OperationVariant>)
        ensures
            r == self.spec_apply(Operator::Lt, Payload::Value(value)),
    {
        self.apply(Operator::Lt, Payload::Value(value))
    }

    /// The operation `gt` on the field.
    pub fn gt(&self, value: Value) -> (r: Option<OperationVariant>)
        ensures
            r == self.spec_apply(Operator::Gt, Payload::Value(value)),
    {
        self.apply(Operator::Gt, Payload::Value(value))
    }

    /// The operation `gte` on the field.
    pub fn gte(&self, value: Value) -> (r: Option<OperationVariant>)
        ensures
            r == self.spec_apply(Operator::Gte, Payload::Value(value)),
    {
        self.apply(Operator::Gte, Payload::Value(value))
    }

    /// The operation `some` on the field.
    pub fn some(&self, operations: Vec<OperationVariant>) -> (r: Option<OperationVariant>)
        ensures
            r == self.spec_apply(Operator::SomeOf, Payload::Operations(operations)),
    {
        self.apply(Operator::SomeOf, Payload::Operations(operations))
    }

    /// The operation `every` on the field.
    pub fn every(&self, operations: Vec<OperationVariant>) -> (r: Option<OperationVariant>)
        ensures
            r == self.spec_apply(Operator::EveryOf, Payload::Operations(operations)),
    {
        self.apply(Operator::EveryOf, Payload::Operations(operations))
    }
}

/// The position of the first field surface with the accessor among the
/// first `n`, if there is one.
pub open spec fn spec_accessor_position(fields: Seq<FieldSurface>, accessor: Seq<char>, n: int) -> Option<
    int,
>
    decreases n,
{
    if n <= 0 {
        None
    } else {
        match spec_accessor_position(fields, accessor, n - 1) {
            Some(k) => Some(k),
            None => if fields[n - 1].accessor@ == accessor {
                Some(n - 1)
            } else {
                None
            },
        }
    }
}

/// A position found among the first `n` surfaces is the one found in every
/// longer run.
pub proof fn lemma_accessor_position_stable(
    fields: Seq<FieldSurface>,
    accessor: Seq<char>,
    n: int,
    m: int,
)
    requires
        n <= m,
        spec_accessor_position(fields, accessor, n) is Some,
    ensures
        spec_accessor_position(fields, accessor, m) == spec_accessor_position(fields, accessor, n),
    decreases m - n,
{
    if n < m {
        lemma_accessor_position_stable(fields, accessor, n, m - 1);
    }
}

impl GeneratedModel {
    /// The selector that the accessor of the given name returns, if the
    /// model has such an accessor.
    pub open spec fn spec_field(&self, accessor: Seq<char>) -> Option<FieldSelector> {
        match spec_accessor_position(self.fields@, accessor, self.fields.len() as int) {
            Some(k) => Some(
                FieldSelector {
                    model: self.model,
                    field: self.fields[k].accessor,
                    ty: self.fields[k].ty,
                },
            ),
            None => None,
        }
    }

    /// Calls the accessor of the given name: a fresh selector of that field.
    pub fn field(&self, accessor: &str) -> (r: Option<FieldSelector>)
        ensures
            r == self.spec_field(accessor@),
    {
        let mut i: usize = 0;
        while i < self.fields.len()
            invariant
                i <= self.fields.len(),
                spec_accessor_position(self.fields@, accessor@, i as int) is None,
            decreases self.fields.len() - i,
        {
            if self.fields[i].accessor.as_str().eq(accessor) {
                proof {
                    lemma_accessor_position_stable(
                        self.fields@,
                        accessor@,
                        i + 1,
                        self.fields.len() as int,
                    );
                }
                return Some(
                    FieldSelector {
                        model: self.model.clone(),
                        field: self.fields[i].accessor.clone(),
                        ty: self.fields[i].ty.duplicate(),
                    },
                );
            }
            i = i + 1;
        }
        None
    }
}

/// An operation that a selector builds holds exactly what went into it: the
/// selector's model and field, the operator and the payload. Its tag is the
/// name of the variant of that field and operator, and no other field or
/// operator gives the same tag.
pub proof fn lemma_operation_round_trip(
    selector: FieldSelector,
    operator: Operator,
    payload: Payload,
    other_field: Seq<char>,
    other_operator: Operator,
)
    requires
        selector.admits(operator, payload),
    ensures
        selector.spec_apply(operator, payload) is Some,
        selector.spec_apply(operator, payload)->Some_0.model == selector.model,
        selector.spec_apply(operator, payload)->Some_0.field == selector.field,
        selector.spec_apply(operator, payload)->Some_0.operator == operator,
        selector.spec_apply(operator, payload)->Some_0.payload == payload,
        selector.spec_apply(operator, payload)->Some_0.spec_tag() == spec_variant_name(
            selector.field@,
            operator,
        ),
        selector.spec_apply(operator, payload)->Some_0.spec_tag() == spec_variant_name(
            other_field,
            other_operator,
        ) ==> other_field == selector.field@ && other_operator == operator,
{
    if spec_variant_name(selector.field@, operator) == spec_variant_name(
        other_field,
        other_operator,
    ) {
        lemma_variant_names_injective(selector.field@, operator, other_field, other_operator);
    }
}

} // verus!
