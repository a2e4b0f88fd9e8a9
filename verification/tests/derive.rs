use ethanol::derive::{
    derive_model, derive_schema, model_of, parse_model, Declaration, DeclaredField, DeriveError,
};
use ethanol::emit::render;
use ethanol::generate::{generate_model, generate_schema};
use ethanol::schema::{FieldDescriptor, GenerationError, ModelDescriptor, ModelNames};

const ACCOUNT: &str = "pub struct Account {
    pub id: String,
    pub name: String,
    pub money: i32,
    pub verified: bool
}";

const TENANT: &str = "#[derive(Model)]
pub struct Tenant {
    pub id: String,
    pub email: String,
    pub phone: String,
    pub owner: Account
}";

fn account() -> ModelDescriptor {
    ModelDescriptor::new(
        "Account",
        vec![
            FieldDescriptor::new("id", "String"),
            FieldDescriptor::new("name", "String"),
            FieldDescriptor::new("money", "i32"),
            FieldDescriptor::new("verified", "bool"),
        ],
    )
}

fn tenant() -> ModelDescriptor {
    ModelDescriptor::new(
        "Tenant",
        vec![
            FieldDescriptor::new("id", "String"),
            FieldDescriptor::new("email", "String"),
            FieldDescriptor::new("phone", "String"),
            FieldDescriptor::new("owner", "Account"),
        ],
    )
}

fn unsupported(model: &str, field: &str, ty: &str) -> DeriveError {
    DeriveError::Generation(GenerationError::UnsupportedFieldType {
        model: model.to_string(),
        field: field.to_string(),
        ty: ty.to_string(),
    })
}

#[test]
fn a_declaration_is_read_as_a_model() {
    assert_eq!(parse_model(ACCOUNT), Ok(account()));
    assert_eq!(parse_model(TENANT), Ok(tenant()));
}

#[test]
fn a_declaration_without_fields_is_a_model() {
    assert_eq!(parse_model("struct Unit {}"), Ok(ModelDescriptor::new("Unit", vec![])));
}

#[test]
fn layout_of_the_text_plays_no_part() {
    let dense = "struct Account{id:String,name:String,money:i32,verified:bool,}";
    assert_eq!(parse_model(dense), Ok(account()));
}

#[test]
fn text_that_is_no_declaration_is_a_syntax_error() {
    assert_eq!(parse_model(""), Err(DeriveError::Syntax));
    assert_eq!(parse_model("struct {"), Err(DeriveError::Syntax));
    assert_eq!(parse_model("fn main() {}"), Err(DeriveError::Syntax));
    assert_eq!(parse_model("struct A { x: i32 } struct B { y: i32 }"), Err(DeriveError::Syntax));
    assert_eq!(parse_model("struct A { x: }"), Err(DeriveError::Syntax));
    assert_eq!(parse_model("struct A { x: i32 \" }"), Err(DeriveError::Syntax));
}

#[test]
fn only_a_struct_with_named_fields_is_a_record() {
    let not_a_record = |name: &str| Err(DeriveError::NotARecord { name: name.to_string() });
    assert_eq!(parse_model("enum Kind { A, B }"), not_a_record("Kind"));
    assert_eq!(parse_model("struct Pair(i32, i32);"), not_a_record("Pair"));
    assert_eq!(parse_model("struct Marker;"), not_a_record("Marker"));
    assert_eq!(parse_model("union Bits { a: u32, b: i32 }"), not_a_record("Bits"));
}

#[test]
fn a_type_that_is_more_than_a_name_is_unsupported() {
    assert_eq!(parse_model("struct S { id: String, items: Vec<String> }"), Err(unsupported("S", "items", "")));
    assert_eq!(parse_model("struct S { id: std::string::String }"), Err(unsupported("S", "id", "")));
    assert_eq!(parse_model("struct S { a: &'static str, b: (i32, i32) }"), Err(unsupported("S", "a", "")));
    assert_eq!(parse_model("struct S { a: <T>::Item }"), Err(unsupported("S", "a", "")));
    assert_eq!(parse_model("struct S { a: ::String }"), Err(unsupported("S", "a", "")));
}

#[test]
fn model_of_a_declaration() {
    let declaration = Declaration::Record {
        name: "P".to_string(),
        fields: vec![
            DeclaredField { name: Some("x".to_string()), ty: Some("i32".to_string()) },
            DeclaredField { name: Some("y".to_string()), ty: Some("Q".to_string()) },
        ],
    };
    assert_eq!(
        model_of(declaration),
        Ok(ModelDescriptor::new(
            "P",
            vec![FieldDescriptor::new("x", "i32"), FieldDescriptor::new("y", "Q")]
        ))
    );
    let declaration = Declaration::Record {
        name: "P".to_string(),
        fields: vec![
            DeclaredField { name: Some("x".to_string()), ty: Some("i32".to_string()) },
            DeclaredField { name: Some("y".to_string()), ty: None },
            DeclaredField { name: None, ty: None },
        ],
    };
    assert_eq!(model_of(declaration), Err(unsupported("P", "y", "")));
    assert_eq!(
        model_of(Declaration::Other { name: "E".to_string() }),
        Err(DeriveError::NotARecord { name: "E".to_string() })
    );
}

#[test]
fn derive_model_renders_the_generated_surface() {
    let mut models = ModelNames::new();
    models.declare("Account").unwrap();
    models.declare("Tenant").unwrap();
    let expected = render(&generate_model(&account(), &models).unwrap());
    assert_eq!(derive_model(ACCOUNT, &models), Ok(expected));
    let expected = render(&generate_model(&tenant(), &models).unwrap());
    let text = derive_model(TENANT, &models).unwrap();
    assert_eq!(text, expected);
    assert!(text.contains("    owner_some(Vec<AccountOperation>),\n"));
    assert!(text.contains("impl TenantClient for Client {\n    fn tenant(&self) -> TenantQueries {"));
}

#[test]
fn derive_model_of_a_small_model() {
    let models = ModelNames::new();
    let text = derive_model("struct Flag { on: bool }", &models).unwrap();
    assert!(text.starts_with(
        "#[derive(Debug)]\npub enum FlagOperation {\n    on_equals(bool),\n}\npub struct FlagOnField {}\n"
    ));
    assert!(text.contains("    pub fn equals(&self, v: bool) -> FlagOperation {\n        FlagOperation::on_equals(v)\n    }\n"));
    assert!(text.ends_with("impl FlagClient for Client {\n    fn flag(&self) -> FlagQueries {\n        FlagQueries {}\n    }\n}\n"));
}

#[test]
fn derive_model_fails_on_an_unsupported_field_type() {
    let models = ModelNames::new();
    assert_eq!(
        derive_model("struct Reading { id: String, ratio: f64 }", &models),
        Err(unsupported("Reading", "ratio", "f64"))
    );
    assert_eq!(derive_model(TENANT, &models), Err(unsupported("Tenant", "owner", "Account")));
}

#[test]
fn derive_model_fails_on_a_repeated_field() {
    // the declaration is read as text: that the compiler would refuse it plays no part
    let models = ModelNames::new();
    assert_eq!(
        derive_model("struct A { x: i32, x: i64 }", &models),
        Err(DeriveError::Generation(GenerationError::DuplicateFieldName {
            model: "A".to_string(),
            field: "x".to_string(),
        }))
    );
}

#[test]
fn derive_model_passes_errors_of_the_text_on() {
    let models = ModelNames::new();
    assert_eq!(derive_model("struct", &models), Err(DeriveError::Syntax));
    assert_eq!(
        derive_model("enum E {}", &models),
        Err(DeriveError::NotARecord { name: "E".to_string() })
    );
}

#[test]
fn derive_schema_renders_every_model() {
    let texts = derive_schema(&vec![TENANT.to_string(), ACCOUNT.to_string()]).unwrap();
    let generated = generate_schema(&vec![tenant(), account()]).unwrap();
    assert_eq!(texts.len(), 2);
    assert_eq!(texts[0], render(&generated[0]));
    assert_eq!(texts[1], render(&generated[1]));
}

#[test]
fn derive_schema_of_models_that_refer_to_each_other() {
    let texts = derive_schema(&vec![
        "struct A { b: B }".to_string(),
        "struct B { a: A }".to_string(),
    ])
    .unwrap();
    assert!(texts[0].contains("b_some(Vec<BOperation>)"));
    assert!(texts[1].contains("a_every(Vec<AOperation>)"));
}

#[test]
fn derive_schema_reports_the_first_fault() {
    assert_eq!(derive_schema(&vec![]), Ok(vec![]));
    assert_eq!(
        derive_schema(&vec![ACCOUNT.to_string(), "struct".to_string(), "enum E {}".to_string()]),
        Err(DeriveError::Syntax)
    );
    assert_eq!(
        derive_schema(&vec!["struct A { x: f64 }".to_string(), "enum E {}".to_string()]),
        Err(DeriveError::NotARecord { name: "E".to_string() })
    );
    assert_eq!(
        derive_schema(&vec![ACCOUNT.to_string(), ACCOUNT.to_string()]),
        Err(DeriveError::Generation(GenerationError::DuplicateModelName {
            model: "Account".to_string()
        }))
    );
    assert_eq!(derive_schema(&vec![TENANT.to_string()]), Err(unsupported("Tenant", "owner", "Account")));
}

#[test]
fn a_field_without_a_name_has_the_empty_name() {
    let declaration = Declaration::Record {
        name: "P".to_string(),
        fields: vec![DeclaredField { name: None, ty: Some("i32".to_string()) }],
    };
    assert_eq!(
        model_of(declaration),
        Ok(ModelDescriptor::new("P", vec![FieldDescriptor::new("", "i32")]))
    );
}

#[test]
fn errors_say_what_is_wrong() {
    assert_eq!(DeriveError::Syntax.message(), "the text declares no struct, enum or union");
    assert_eq!(
        DeriveError::NotARecord { name: "Kind".to_string() }.message(),
        "`Kind` is not a struct with named fields"
    );
    assert_eq!(
        unsupported("Reading", "ratio", "f64").message(),
        "unsupported type `f64` of field `ratio` in model `Reading`: the type has no filter operators and names no declared model"
    );
    assert_eq!(
        GenerationError::DuplicateFieldName { model: "A".to_string(), field: "x".to_string() }
            .message(),
        "duplicate field `x` in model `A`"
    );
    assert_eq!(
        GenerationError::DuplicateModelName { model: "A".to_string() }.message(),
        "duplicate model `A`"
    );
}

#[test]
fn attributes_visibility_and_generics_play_no_part() {
    let text = "#[derive(Debug, Clone)] pub(crate) struct Wrapper<T> where T: Clone { #[allow(unused)] pub(crate) id: i64, inner: T }";
    assert_eq!(
        parse_model(text),
        Ok(ModelDescriptor::new(
            "Wrapper",
            vec![FieldDescriptor::new("id", "i64"), FieldDescriptor::new("inner", "T")]
        ))
    );
}

#[test]
fn raw_identifiers_keep_their_prefix() {
    assert_eq!(
        parse_model("struct Entry { r#type: String }"),
        Ok(ModelDescriptor::new("Entry", vec![FieldDescriptor::new("r#type", "String")]))
    );
}

#[test]
fn derive_model_is_reached_from_the_crate_root() {
    let models = ModelNames::new();
    assert_eq!(ethanol::derive_model("struct Flag { on: bool }", &models), derive_model("struct Flag { on: bool }", &models));
    assert_eq!(ethanol::title_case("flag"), "Flag");
    assert_eq!(ethanol::type_filters("bool"), Ok(vec!["equals"]));
}
