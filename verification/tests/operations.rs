use ethanol::generate::{generate_schema, GeneratedModel};
use ethanol::operation::{FieldSelector, OperationVariant, Payload, Value};
use ethanol::operators::{Operator, ScalarKind};
use ethanol::resolve::TypeRef;
use ethanol::schema::{FieldDescriptor, ModelDescriptor};

fn schema() -> Vec<GeneratedModel> {
    let account = ModelDescriptor::new(
        "Account",
        vec![
            FieldDescriptor::new("id", "String"),
            FieldDescriptor::new("name", "String"),
            FieldDescriptor::new("money", "i32"),
            FieldDescriptor::new("verified", "bool"),
        ],
    );
    let tenant = ModelDescriptor::new(
        "Tenant",
        vec![FieldDescriptor::new("id", "String"), FieldDescriptor::new("owner", "Account")],
    );
    generate_schema(&vec![account, tenant]).unwrap()
}

fn text(value: &str) -> Value {
    Value::Text(value.to_string())
}

#[test]
fn accessor_returns_the_selector_of_its_field() {
    let generated = schema();
    let id = generated[0].field("id").unwrap();
    assert_eq!(
        id,
        FieldSelector {
            model: "Account".to_string(),
            field: "id".to_string(),
            ty: TypeRef::Scalar(ScalarKind::Text),
        }
    );
    let owner = generated[1].field("owner").unwrap();
    assert_eq!(owner.model, "Tenant");
    assert_eq!(owner.ty, TypeRef::Relation("Account".to_string()));
    assert_eq!(generated[0].field("owner"), None);
    assert_eq!(generated[0].field(""), None);
    assert_eq!(generated[0].field("Id"), None);
}

#[test]
fn selectors_of_a_field_are_interchangeable() {
    let generated = schema();
    assert_eq!(generated[0].field("money"), generated[0].field("money"));
    let first = generated[0].field("money").unwrap().gte(Value::Int32(100));
    let second = generated[0].field("money").unwrap().gte(Value::Int32(100));
    assert_eq!(first, second);
}

#[test]
fn id_equals_carries_the_value() {
    let generated = schema();
    let operation = generated[0].field("id").unwrap().equals(text("Test")).unwrap();
    assert_eq!(operation.tag(), "id_equals");
    assert_eq!(operation.model, "Account");
    assert_eq!(operation.field, "id");
    assert_eq!(operation.operator, Operator::Equals);
    assert_eq!(operation.payload, Payload::Value(text("Test")));
}

#[test]
fn money_gte_carries_the_value() {
    let generated = schema();
    let operation = generated[0].field("money").unwrap().gte(Value::Int32(100)).unwrap();
    assert_eq!(operation.tag(), "money_gte");
    assert_eq!(operation.payload, Payload::Value(Value::Int32(100)));
    assert_eq!(
        operation,
        OperationVariant {
            model: "Account".to_string(),
            field: "money".to_string(),
            operator: Operator::Gte,
            payload: Payload::Value(Value::Int32(100)),
        }
    );
}

#[test]
fn owner_some_carries_the_account_operations() {
    let generated = schema();
    let inner = generated[0].field("id").unwrap().equals(text("Test")).unwrap();
    let operation = generated[1].field("owner").unwrap().some(vec![inner]).unwrap();
    assert_eq!(operation.tag(), "owner_some");
    assert_eq!(operation.model, "Tenant");
    match &operation.payload {
        Payload::Operations(operations) => {
            assert_eq!(operations.len(), 1);
            assert_eq!(operations[0].tag(), "id_equals");
            assert_eq!(operations[0].model, "Account");
            assert_eq!(operations[0].payload, Payload::Value(text("Test")));
        },
        other => panic!("a relation operation carrying {other:?}"),
    }
}

#[test]
fn every_operator_method_builds_its_own_variant() {
    let generated = schema();
    let name = generated[0].field("name").unwrap();
    assert_eq!(name.equals(text("a")).unwrap().tag(), "name_equals");
    assert_eq!(name.contains(text("a")).unwrap().tag(), "name_contains");
    assert_eq!(name.has_prefix(text("a")).unwrap().tag(), "name_hasPrefix");
    assert_eq!(name.has_suffix(text("a")).unwrap().tag(), "name_hasSuffix");
    let money = generated[0].field("money").unwrap();
    assert_eq!(money.equals(Value::Int32(1)).unwrap().tag(), "money_equals");
    assert_eq!(money.lte(Value::Int32(1)).unwrap().tag(), "money_lte");
    assert_eq!(money.lt(Value::Int32(1)).unwrap().tag(), "money_lt");
    assert_eq!(money.gt(Value::Int32(1)).unwrap().tag(), "money_gt");
    assert_eq!(money.gte(Value::Int32(1)).unwrap().tag(), "money_gte");
    let verified = generated[0].field("verified").unwrap();
    assert_eq!(verified.equals(Value::Boolean(true)).unwrap().tag(), "verified_equals");
    let owner = generated[1].field("owner").unwrap();
    assert_eq!(owner.some(vec![]).unwrap().tag(), "owner_some");
    assert_eq!(owner.every(vec![]).unwrap().tag(), "owner_every");
}

#[test]
fn every_built_operation_is_a_variant_of_the_union() {
    let generated = schema();
    for model in &generated {
        for surface in &model.fields {
            let selector = model.field(&surface.accessor).unwrap();
            for spec in &surface.operators {
                let payload = match &surface.ty {
                    TypeRef::Scalar(ScalarKind::Text) => Payload::Value(text("x")),
                    TypeRef::Scalar(ScalarKind::Int32) => Payload::Value(Value::Int32(1)),
                    TypeRef::Scalar(ScalarKind::Int64) => Payload::Value(Value::Int64(1)),
                    TypeRef::Scalar(ScalarKind::Boolean) => Payload::Value(Value::Boolean(true)),
                    TypeRef::Relation(_) => Payload::Operations(vec![]),
                };
                let operation = selector.apply(spec.operator, payload).unwrap();
                let tag = operation.tag();
                assert_eq!(model.variants.iter().filter(|v| v.name == tag).count(), 1);
            }
        }
    }
}

#[test]
fn an_operator_of_another_type_is_not_admitted() {
    let generated = schema();
    let money = generated[0].field("money").unwrap();
    assert_eq!(money.contains(Value::Int32(1)), None);
    assert_eq!(money.has_prefix(Value::Int32(1)), None);
    assert_eq!(money.some(vec![]), None);
    let name = generated[0].field("name").unwrap();
    assert_eq!(name.gte(text("a")), None);
    let verified = generated[0].field("verified").unwrap();
    assert_eq!(verified.lt(Value::Boolean(false)), None);
    let owner = generated[1].field("owner").unwrap();
    assert_eq!(owner.equals(text("a")), None);
    assert_eq!(owner.apply(Operator::Equals, Payload::Operations(vec![])), None);
}

#[test]
fn a_payload_of_another_type_is_not_admitted() {
    let generated = schema();
    let money = generated[0].field("money").unwrap();
    assert_eq!(money.gte(Value::Int64(100)), None);
    assert_eq!(money.gte(text("100")), None);
    assert_eq!(money.apply(Operator::Gte, Payload::Operations(vec![])), None);
    let owner = generated[1].field("owner").unwrap();
    assert_eq!(owner.apply(Operator::SomeOf, Payload::Value(text("a"))), None);
    // operations on the tenant itself are none on the account
    let own = generated[1].field("id").unwrap().equals(text("Test")).unwrap();
    assert_eq!(owner.some(vec![own]), None);
    let good = generated[0].field("id").unwrap().equals(text("a")).unwrap();
    let bad = generated[1].field("id").unwrap().equals(text("b")).unwrap();
    assert_eq!(owner.every(vec![good, bad]), None);
}

#[test]
fn values_know_their_kind() {
    assert_eq!(text("a").kind(), ScalarKind::Text);
    assert_eq!(Value::Int32(-1).kind(), ScalarKind::Int32);
    assert_eq!(Value::Int64(i64::MAX).kind(), ScalarKind::Int64);
    assert_eq!(Value::Boolean(false).kind(), ScalarKind::Boolean);
}

#[test]
fn operations_can_be_inspected() {
    let generated = schema();
    let operation = generated[0].field("id").unwrap().equals(text("Test")).unwrap();
    let shown = format!("{operation:?}");
    assert!(shown.contains("Equals"));
    assert!(shown.contains("\"Test\""));
    assert!(shown.contains("\"id\""));
}
