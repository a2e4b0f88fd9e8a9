use ethanol::generate::{generate_model, generate_schema, GeneratedModel, PayloadType};
use ethanol::operators::{Operator, ScalarKind};
use ethanol::resolve::TypeRef;
use ethanol::schema::{FieldDescriptor, GenerationError, ModelDescriptor, ModelNames};

fn account() -> ModelDescriptor {
    ModelDescriptor::new(
        "Account",
        vec![
            FieldDescriptor::new("id", "String"),
            FieldDescriptor::new("name", "String"),
            FieldDescriptor::new("money", "i32"),
            FieldDescriptor::new("verified", "bool"),
        ],
    )
}

fn tenant() -> ModelDescriptor {
    ModelDescriptor::new(
        "Tenant",
        vec![
            FieldDescriptor::new("id", "String"),
            FieldDescriptor::new("email", "String"),
            FieldDescriptor::new("phone", "String"),
            FieldDescriptor::new("owner", "Account"),
        ],
    )
}

fn variant_names(generated: &GeneratedModel) -> Vec<String> {
    generated.variants.iter().map(|v| v.name.clone()).collect()
}

#[test]
fn descriptors_hold_what_they_are_given() {
    let field = FieldDescriptor::new("money", "i32");
    assert_eq!(field.name, "money");
    assert_eq!(field.ty, "i32");
    let model = account();
    assert_eq!(model.name, "Account");
    assert_eq!(model.fields.len(), 4);
    assert_eq!(model.fields[2], field);
}

#[test]
fn model_names_hold_each_name_once() {
    let mut names = ModelNames::new();
    assert!(!names.contains("Account"));
    assert_eq!(names.declare("Account"), Ok(()));
    assert!(names.contains("Account"));
    assert!(!names.contains("Tenant"));
    assert_eq!(
        names.declare("Account"),
        Err(GenerationError::DuplicateModelName { model: "Account".to_string() })
    );
    assert_eq!(names.declare("Tenant"), Ok(()));
    assert!(names.contains("Account"));
    assert!(names.contains("Tenant"));
}

#[test]
fn model_names_are_collected_from_a_schema() {
    let names = ModelNames::collect(&vec![account(), tenant()]).unwrap();
    assert!(names.contains("Account"));
    assert!(names.contains("Tenant"));
    assert!(!names.contains("String"));
    let empty = ModelNames::collect(&vec![]).unwrap();
    assert!(!empty.contains("Account"));
}

#[test]
fn account_union_has_one_variant_for_each_field_and_operator() {
    let names = ModelNames::collect(&vec![account()]).unwrap();
    let generated = generate_model(&account(), &names).unwrap();
    assert_eq!(
        variant_names(&generated),
        vec![
            "id_equals",
            "id_contains",
            "id_hasPrefix",
            "id_hasSuffix",
            "name_equals",
            "name_contains",
            "name_hasPrefix",
            "name_hasSuffix",
            "money_equals",
            "money_lte",
            "money_lt",
            "money_gt",
            "money_gte",
            "verified_equals",
        ]
    );
    let counted: usize = generated.fields.iter().map(|f| f.operators.len()).sum();
    assert_eq!(generated.variants.len(), counted);
    assert_eq!(generated.variants.len(), 4 + 4 + 5 + 1);
}

#[test]
fn account_variants_carry_the_type_of_their_field() {
    let names = ModelNames::collect(&vec![account()]).unwrap();
    let generated = generate_model(&account(), &names).unwrap();
    for variant in &generated.variants {
        let expected = match variant.field.as_str() {
            "id" | "name" => ScalarKind::Text,
            "money" => ScalarKind::Int32,
            "verified" => ScalarKind::Boolean,
            other => panic!("a variant of the field {other}"),
        };
        assert_eq!(variant.payload, PayloadType::Scalar(expected));
    }
    assert_eq!(generated.variants[12].field, "money");
    assert_eq!(generated.variants[12].operator, Operator::Gte);
}

#[test]
fn account_names() {
    let names = ModelNames::collect(&vec![account()]).unwrap();
    let generated = generate_model(&account(), &names).unwrap();
    assert_eq!(generated.model, "Account");
    assert_eq!(generated.operation_union, "AccountOperation");
    assert_eq!(generated.queries, "AccountQueries");
    assert_eq!(generated.client_trait, "AccountClient");
    assert_eq!(generated.client_method, "account");
    let accessors: Vec<&str> = generated.fields.iter().map(|f| f.accessor.as_str()).collect();
    assert_eq!(accessors, vec!["id", "name", "money", "verified"]);
    let builders: Vec<&str> = generated.fields.iter().map(|f| f.builder.as_str()).collect();
    assert_eq!(
        builders,
        vec!["AccountIdField", "AccountNameField", "AccountMoneyField", "AccountVerifiedField"]
    );
    assert_eq!(generated.fields[2].ty, TypeRef::Scalar(ScalarKind::Int32));
    let methods: Vec<&str> = generated.fields[2].operators.iter().map(|o| o.name()).collect();
    assert_eq!(methods, vec!["equals", "lte", "lt", "gt", "gte"]);
}

#[test]
fn variant_names_are_unique_even_where_operators_repeat() {
    let generated = generate_schema(&vec![account(), tenant()]).unwrap();
    for model in &generated {
        let names = variant_names(model);
        for (i, a) in names.iter().enumerate() {
            for b in &names[i + 1..] {
                assert_ne!(a, b);
            }
        }
    }
}

#[test]
fn relation_variants_refer_to_the_other_union_by_name() {
    let generated = generate_schema(&vec![account(), tenant()]).unwrap();
    let tenant = &generated[1];
    assert_eq!(tenant.model, "Tenant");
    assert_eq!(tenant.variants.len(), 4 + 4 + 4 + 2);
    let some = &tenant.variants[12];
    let every = &tenant.variants[13];
    assert_eq!(some.name, "owner_some");
    assert_eq!(some.operator, Operator::SomeOf);
    assert_eq!(some.payload, PayloadType::Operations("AccountOperation".to_string()));
    assert_eq!(every.name, "owner_every");
    assert_eq!(every.operator, Operator::EveryOf);
    assert_eq!(every.payload, PayloadType::Operations("AccountOperation".to_string()));
    assert_eq!(tenant.fields[3].ty, TypeRef::Relation("Account".to_string()));
    // none of the account's own variants is repeated in the tenant's union
    assert!(tenant.variants.iter().all(|v| v.field != "money" && v.field != "verified"));
}

#[test]
fn a_schema_generates_one_surface_for_each_model_in_order() {
    let generated = generate_schema(&vec![tenant(), account()]).unwrap();
    assert_eq!(generated.len(), 2);
    assert_eq!(generated[0].model, "Tenant");
    assert_eq!(generated[1].model, "Account");
    // the tenant refers to the account, which is declared after it
    assert_eq!(generated[0].variants[12].name, "owner_some");
}

#[test]
fn an_empty_schema_generates_nothing() {
    assert_eq!(generate_schema(&vec![]), Ok(vec![]));
}

#[test]
fn a_model_without_fields_has_an_empty_union() {
    let generated = generate_schema(&vec![ModelDescriptor::new("Unit", vec![])]).unwrap();
    assert_eq!(generated.len(), 1);
    assert!(generated[0].variants.is_empty());
    assert!(generated[0].fields.is_empty());
    assert_eq!(generated[0].operation_union, "UnitOperation");
}

#[test]
fn cyclic_relations_generate() {
    let a = ModelDescriptor::new(
        "A",
        vec![FieldDescriptor::new("id", "i64"), FieldDescriptor::new("b", "B")],
    );
    let b = ModelDescriptor::new(
        "B",
        vec![FieldDescriptor::new("a", "A"), FieldDescriptor::new("flag", "bool")],
    );
    let generated = generate_schema(&vec![a, b]).unwrap();
    assert_eq!(generated.len(), 2);
    assert_eq!(
        variant_names(&generated[0]),
        vec!["id_equals", "id_lte", "id_lt", "id_gt", "id_gte", "b_some", "b_every"]
    );
    assert_eq!(variant_names(&generated[1]), vec!["a_some", "a_every", "flag_equals"]);
    assert_eq!(
        generated[0].variants[5].payload,
        PayloadType::Operations("BOperation".to_string())
    );
    assert_eq!(
        generated[1].variants[0].payload,
        PayloadType::Operations("AOperation".to_string())
    );
    assert_ne!(generated[0].operation_union, generated[1].operation_union);
}

#[test]
fn a_model_may_refer_to_itself() {
    let node = ModelDescriptor::new(
        "Node",
        vec![FieldDescriptor::new("label", "String"), FieldDescriptor::new("parent", "Node")],
    );
    let generated = generate_schema(&vec![node]).unwrap();
    assert_eq!(generated[0].variants.len(), 6);
    assert_eq!(
        generated[0].variants[4].payload,
        PayloadType::Operations("NodeOperation".to_string())
    );
}

#[test]
fn unsupported_field_type_names_the_field() {
    let model = ModelDescriptor::new(
        "Reading",
        vec![FieldDescriptor::new("id", "String"), FieldDescriptor::new("ratio", "f64")],
    );
    assert_eq!(
        generate_schema(&vec![model]),
        Err(GenerationError::UnsupportedFieldType {
            model: "Reading".to_string(),
            field: "ratio".to_string(),
            ty: "f64".to_string(),
        })
    );
}

#[test]
fn a_relation_to_an_undeclared_model_is_unsupported() {
    assert_eq!(
        generate_schema(&vec![tenant()]),
        Err(GenerationError::UnsupportedFieldType {
            model: "Tenant".to_string(),
            field: "owner".to_string(),
            ty: "Account".to_string(),
        })
    );
    let names = ModelNames::new();
    assert!(generate_model(&tenant(), &names).is_err());
}

#[test]
fn duplicate_field_name_is_refused() {
    let model = ModelDescriptor::new(
        "Account",
        vec![
            FieldDescriptor::new("id", "String"),
            FieldDescriptor::new("name", "String"),
            FieldDescriptor::new("id", "i32"),
        ],
    );
    assert_eq!(
        generate_schema(&vec![model]),
        Err(GenerationError::DuplicateFieldName {
            model: "Account".to_string(),
            field: "id".to_string(),
        })
    );
}

#[test]
fn duplicate_model_name_is_refused() {
    assert_eq!(
        generate_schema(&vec![account(), tenant(), account()]),
        Err(GenerationError::DuplicateModelName { model: "Account".to_string() })
    );
}

#[test]
fn the_first_fault_in_order_is_reported() {
    // a repeated model name is looked for before any field
    let broken = ModelDescriptor::new("Broken", vec![FieldDescriptor::new("x", "f32")]);
    let again = ModelDescriptor::new("Broken", vec![]);
    assert_eq!(
        generate_schema(&vec![broken, again]),
        Err(GenerationError::DuplicateModelName { model: "Broken".to_string() })
    );
    // within a model, the earlier field's fault comes first
    let model = ModelDescriptor::new(
        "M",
        vec![
            FieldDescriptor::new("a", "i32"),
            FieldDescriptor::new("b", "u8"),
            FieldDescriptor::new("a", "i32"),
        ],
    );
    assert_eq!(
        generate_schema(&vec![model]),
        Err(GenerationError::UnsupportedFieldType {
            model: "M".to_string(),
            field: "b".to_string(),
            ty: "u8".to_string(),
        })
    );
    // on one field, the repeated name comes before the unsupported type
    let model = ModelDescriptor::new(
        "M",
        vec![FieldDescriptor::new("a", "i32"), FieldDescriptor::new("a", "u8")],
    );
    assert_eq!(
        generate_schema(&vec![model]),
        Err(GenerationError::DuplicateFieldName { model: "M".to_string(), field: "a".to_string() })
    );
}

#[test]
fn generation_is_deterministic() {
    let first = generate_schema(&vec![account(), tenant()]);
    let second = generate_schema(&vec![account(), tenant()]);
    assert_eq!(first, second);
}
