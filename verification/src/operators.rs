//! The table of filter operators: which operators a field admits, by its type.

use vstd::prelude::*;
use crate::text::underscore_free;

verus! {

/// The scalar types that have a row in the operator table.
#[derive(Clone, Copy, Debug, PartialEq, Eq, Structural)]
pub enum ScalarKind {
    Text,
    Int32,
    Int64,
    Boolean,
}

/// A filter operator.
#[derive(Clone, Copy, Debug, PartialEq, Eq, Structural)]
pub enum Operator {
    Equals,
    Contains,
    HasPrefix,
    HasSuffix,
    Lte,
    Lt,
    Gt,
    Gte,
    SomeOf,
    EveryOf,
}

/// What an operator is applied to: one value of the field's scalar type, or a
/// list of operations on the model that the field refers to.
#[derive(Clone, Copy, Debug, PartialEq, Eq, Structural)]
pub enum OperatorShape {
    Value,
    SubOperations,
}

/// An operator together with its shape.
#[derive(Clone, Copy, Debug, PartialEq, Eq, Structural)]
pub struct OperatorSpec {
    pub operator: Operator,
    pub shape: OperatorShape,
}

impl Operator {
    /// The operator's name, as it appears in generated items.
    pub open spec fn spec_name(self) -> Seq<char> {
        match self {
            Operator::Equals => "equals"@,
            Operator::Contains => "contains"@,
            Operator::HasPrefix => "hasPrefix"@,
            Operator::HasSuffix => "hasSuffix"@,
            Operator::Lte => "lte"@,
            Operator::Lt => "lt"@,
            Operator::Gt => "gt"@,
            Operator::Gte => "gte"@,
            Operator::SomeOf => "some"@,
            Operator::EveryOf => "every"@,
        }
    }

    /// The two relation operators take a list of sub-operations, all others a value.
    pub open spec fn spec_shape(self) -> OperatorShape {
        match self {
            Operator::SomeOf | Operator::EveryOf => OperatorShape::SubOperations,
            _ => OperatorShape::Value,
        }
    }

    /// The operator's name, as it appears in generated items.
    pub fn name(self) -> (r: &'static str)
        ensures
            r@ == self.spec_name(),
    {
        match self {
            Operator::Equals => "equals",
            Operator::Contains => "contains",
            Operator::HasPrefix => "hasPrefix",
            Operator::HasSuffix => "hasSuffix",
            Operator::Lte => "lte",
            Operator::Lt => "lt",
            Operator::Gt => "gt",
            Operator::Gte => "gte",
            Operator::SomeOf => "some",
            Operator::EveryOf => "every",
        }
    }

    /// What the operator is applied to.
    pub fn shape(self) -> (r: OperatorShape)
        ensures
            r == self.spec_shape(),
    {
        match self {
            Operator::SomeOf | Operator::EveryOf => OperatorShape::SubOperations,
            _ => OperatorShape::Value,
        }
    }

    /// The operator with its shape.
    pub open spec fn spec_with_shape(self) -> OperatorSpec {
        OperatorSpec { operator: self, shape: self.spec_shape() }
    }

    /// The operator with its shape.
    pub fn with_shape(self) -> (r: OperatorSpec)
        ensures
            r == self.spec_with_shape(),
    {
        OperatorSpec { operator: self, shape: self.shape() }
    }
}

impl OperatorSpec {
    /// The operator's name, as it appears in generated items.
    pub fn name(&self) -> (r: &'static str)
        ensures
            r@ == self.operator.spec_name(),
    {
        self.operator.name()
    }
}

/// The scalar type that a type name stands for, if the table has a row for it.
pub open spec fn spec_scalar_kind(ty_name: Seq<char>) -> Option<ScalarKind> {
    if ty_name == "String"@ {
        Some(ScalarKind::Text)
    } else if ty_name == "i32"@ {
        Some(ScalarKind::Int32)
    } else if ty_name == "i64"@ {
        Some(ScalarKind::Int64)
    } else if ty_name == "bool"@ {
        Some(ScalarKind::Boolean)
    } else {
        None
    }
}

/// The table itself: the operators of each scalar type, in order.
pub open spec fn spec_scalar_operators(kind: ScalarKind) -> Seq<Operator> {
    match kind {
        ScalarKind::Text => seq![
            Operator::Equals,
            Operator::Contains,
            Operator::HasPrefix,
            Operator::HasSuffix,
        ],
        ScalarKind::Int32 | ScalarKind::Int64 => seq![
            Operator::Equals,
            Operator::Lte,
            Operator::Lt,
            Operator::Gt,
            Operator::Gte,
        ],
        ScalarKind::Boolean => seq![Operator::Equals],
    }
}

/// The operators of every relation field, whatever model it refers to.
pub open spec fn spec_relation_operators() -> Seq<Operator> {
    seq![Operator::SomeOf, Operator::EveryOf]
}

/// The names of a sequence of operators, in the same order.
pub open spec fn operator_names(ops: Seq<Operator>) -> Seq<Seq<char>> {
    ops.map_values(|o: Operator| o.spec_name())
}

impl ScalarKind {
    /// The name of the type in generated items.
    pub open spec fn spec_host_name(self) -> Seq<char> {
        match self {
            ScalarKind::Text => "String"@,
            ScalarKind::Int32 => "i32"@,
            ScalarKind::Int64 => "i64"@,
            ScalarKind::Boolean => "bool"@,
        }
    }

    /// The name of the type in generated items.
    pub fn host_name(self) -> (r: &'static str)
        ensures
            r@ == self.spec_host_name(),
    {
        match self {
            ScalarKind::Text => "String",
            ScalarKind::Int32 => "i32",
            ScalarKind::Int64 => "i64",
            ScalarKind::Boolean => "bool",
        }
    }
}

/// Looks a type name up in the table.
pub fn scalar_kind(ty_name: &str) -> (r: Option<ScalarKind>)
    ensures
        r == spec_scalar_kind(ty_name@),
{
    if ty_name.eq("String") {
        Some(ScalarKind::Text)
    } else if ty_name.eq("i32") {
        Some(ScalarKind::Int32)
    } else if ty_name.eq("i64") {
        Some(ScalarKind::Int64)
    } else if ty_name.eq("bool") {
        Some(ScalarKind::Boolean)
    } else {
        None
    }
}

/// The operators of a scalar type, in table order.
pub fn scalar_operators(kind: ScalarKind) -> (r: Vec<Operator>)
    ensures
        r@ == spec_scalar_operators(kind),
{
    let ops = match kind {
        ScalarKind::Text => vec![
            Operator::Equals,
            Operator::Contains,
            Operator::HasPrefix,
            Operator::HasSuffix,
        ],
        ScalarKind::Int32 | ScalarKind::Int64 => vec![
            Operator::Equals,
            Operator::Lte,
            Operator::Lt,
            Operator::Gt,
            Operator::Gte,
        ],
        ScalarKind::Boolean => vec![Operator::Equals],
    };
    ops
}

/// The operators of a relation field.
pub fn relation_operators() -> (r: Vec<Operator>)
    ensures
        r@ == spec_relation_operators(),
{
    let ops = vec![Operator::SomeOf, Operator::EveryOf];
    ops
}

/// The names of the operators that a scalar type admits, in table order; an
/// error for a type name without a row in the table.
pub fn type_filters(type_string: &str) -> (r: Result<Vec<&'static str>, ()>)
    ensures
        match spec_scalar_kind(type_string@) {
            Some(kind) => r is Ok && r->Ok_0.deep_view() == operator_names(
                spec_scalar_operators(kind),
            ),
            None => r is Err,
        },
{
    match scalar_kind(type_string) {
        Some(kind) => {
            let ops = scalar_operators(kind);
            let mut names: Vec<&'static str> = Vec::new();
            let mut i: usize = 0;
            while i < ops.len()
                invariant
                    i <= ops.len(),
                    names.len() == i,
                    forall|j: int| 0 <= j < i ==> (#[trigger] names@[j])@ == ops@[j].spec_name(),
                decreases ops.len() - i,
            {
                names.push(ops[i].name());
                i = i + 1;
            }
            proof {
                assert(names.deep_view() =~= operator_names(ops@));
            }
            Ok(names)
        },
        None => Err(()),
    }
}

/// The type names of the table are pairwise distinct: each stands for its own kind.
pub proof fn lemma_scalar_ty_names(kind: ScalarKind)
    ensures
        spec_scalar_kind(kind.spec_host_name()) == Some(kind),
{
    reveal_strlit("String");
    reveal_strlit("i32");
    reveal_strlit("i64");
    reveal_strlit("bool");
    assert("String"@.len() == 6);
    assert("i32"@.len() == 3);
    assert("i64"@.len() == 3);
    assert("bool"@.len() == 4);
    assert("i32"@[2] == '2');
    assert("i64"@[2] == '4');
}

/// Operator names are not empty, hold no underscore, and tell the operators apart.
pub proof fn lemma_operator_names(a: Operator, b: Operator)
    ensures
        a.spec_name().len() > 0,
        underscore_free(a.spec_name()),
        a.spec_name() == b.spec_name() ==> a == b,
{
    reveal_strlit("equals");
    reveal_strlit("contains");
    reveal_strlit("hasPrefix");
    reveal_strlit("hasSuffix");
    reveal_strlit("lte");
    reveal_strlit("lt");
    reveal_strlit("gt");
    reveal_strlit("gte");
    reveal_strlit("some");
    reveal_strlit("every");
    if a != b && a.spec_name() == b.spec_name() {
        let n = a.spec_name();
        let m = b.spec_name();
        assert(n.len() == m.len());
        assert(n[0] == m[0]);
        assert(n[1] == m[1]);
        if n.len() > 3 {
            assert(n[3] == m[3]);
        }
    }
}

/// No operator occurs twice in a row of the table, nor among the relation operators.
pub proof fn lemma_operator_rows_distinct(kind: ScalarKind)
    ensures
        spec_scalar_operators(kind).no_duplicates(),
        spec_relation_operators().no_duplicates(),
        spec_scalar_operators(kind).len() > 0,
        spec_relation_operators().len() > 0,
{
}

} // verus!
