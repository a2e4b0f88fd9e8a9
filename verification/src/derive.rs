//! From the source text of a model's declaration to the source text of its
//! surface.

use vstd::prelude::*;
use vstd::string::*;
use crate::emit::{render, spec_render};
use crate::generate::{
    generate_model, generate_schema, spec_generate_model, spec_generate_schema, GeneratedModel,
    GeneratedModelView,
};
use crate::schema::{
    FieldDescriptor, FieldView, GenerationError, GenerationErrorView, ModelDescriptor, ModelNames,
    ModelView,
};

verus! {

/// `syn::Error`: why a text could not be parsed. Nothing is read out of it.
#[verifier::external_type_specification]
#[verifier::external_body]
pub struct ExSynError(syn::Error);

/// A field as its declaration gives it: its name, where it has one, and
/// the name of its type, where the type is written as a single identifier.
#[derive(Clone, Debug, PartialEq, Eq)]
pub struct DeclaredField {
    pub name: Option<String>,
    pub ty: Option<String>,
}

/// A declared field with its texts as sequences of characters.
pub struct DeclaredFieldView {
    pub name: Option<Seq<char>>,
    pub ty: Option<Seq<char>>,
}

impl DeclaredFieldView {
    /// The field's name; the empty text for a field without one.
    pub open spec fn name_text(self) -> Seq<char> {
        match self.name {
            Some(name) => name,
            None => Seq::empty(),
        }
    }
}

impl View for DeclaredField {
    type V = DeclaredFieldView;

    open spec fn view(&self) -> DeclaredFieldView {
        DeclaredFieldView {
            name: match self.name {
                Some(name) => Some(name@),
                None => None,
            },
            ty: match self.ty {
                Some(ty) => Some(ty@),
                None => None,
            },
        }
    }
}

impl DeepView for DeclaredField {
    type V = DeclaredFieldView;

    open spec fn deep_view(&self) -> DeclaredFieldView {
        self@
    }
}

/// What the declaration of a type holds.
#[derive(Clone, Debug, PartialEq, Eq)]
pub enum Declaration {
    /// A struct with named fields: its name and its fields, in order.
    Record { name: String, fields: Vec<DeclaredField> },
    /// An enum, a union, or a struct without named fields: its name.
    Other { name: String },
}

/// A declaration with its texts as sequences of characters.
pub enum DeclarationView {
    Record { name: Seq<char>, fields: Seq<DeclaredFieldView> },
    Other { name: Seq<char> },
}

impl View for Declaration {
    type V = DeclarationView;

    open spec fn view(&self) -> DeclarationView {
        match self {
            Declaration::Record { name, fields } => DeclarationView::Record {
                name: name@,
                fields: fields.deep_view(),
            },
            Declaration::Other { name } => DeclarationView::Other { name: name@ },
        }
    }
}

/// What `syn` reads out of a source text as the declaration of a struct,
/// an enum or a union; nothing where the text is no such declaration.
pub uninterp spec fn parsed_declaration(source: Seq<char>) -> Option<DeclarationView>;

/// Parses the text with `syn::parse_str` as a `syn::DeriveInput` and hands
/// out the names in it: the declared name and, for a struct with named
/// fields, each field's name and the identifier that its type consists of,
/// if the type is an unqualified path of one identifier without arguments
/// (`syn::Path::get_ident`). The contract claims that what is handed out
/// depends on the text alone, and that the error comes exactly where the
/// text is no declaration.
#[verifier::external_body]
fn parse_declaration(source: &str) -> (r: Result<Declaration, syn::Error>)
    ensures
        match r {
            Ok(declaration) => parsed_declaration(source@) == Some(declaration@),
            Err(_) => parsed_declaration(source@) is None,
        },
{
    let input = syn::parse_str::<syn::DeriveInput>(source)?;
    let name = input.ident.to_string();
    let syn::Data::Struct(syn::DataStruct { fields: syn::Fields::Named(record), .. }) = input.data
    else {
        return Ok(Declaration::Other { name });
    };
    let fields = record.named.iter().map(|f| DeclaredField {
        name: f.ident.as_ref().map(|i| i.to_string()),
        ty: match &f.ty {
            syn::Type::Path(syn::TypePath { qself: None, path }) => path.get_ident().map(|i| i.to_string()),
            _ => None,
        },
    });
    Ok(Declaration::Record { name, fields: fields.collect() })
}

/// Why no surface can be derived from a source text.
#[derive(Clone, Debug, PartialEq, Eq)]
pub enum DeriveError {
    /// The text is no declaration of a struct, an enum or a union.
    Syntax,
    /// The declaration is not a struct with named fields.
    NotARecord { name: String },
    /// The model that is declared cannot be generated.
    Generation(GenerationError),
}

/// A derive error with its texts as sequences of characters.
pub enum DeriveErrorView {
    Syntax,
    NotARecord { name: Seq<char> },
    Generation(GenerationErrorView),
}

impl View for DeriveError {
    type V = DeriveErrorView;

    open spec fn view(&self) -> DeriveErrorView {
        match self {
            DeriveError::Syntax => DeriveErrorView::Syntax,
            DeriveError::NotARecord { name } => DeriveErrorView::NotARecord { name: name@ },
            DeriveError::Generation(e) => DeriveErrorView::Generation(e@),
        }
    }
}

impl DeriveErrorView {
    /// What the error says, in words.
    pub open spec fn message(self) -> Seq<char> {
        match self {
            DeriveErrorView::Syntax => "the text declares no struct, enum or union"@,
            DeriveErrorView::NotARecord { name } => "`"@ + name
                + "` is not a struct with named fields"@,
            DeriveErrorView::Generation(e) => e.message(),
        }
    }
}

impl DeriveError {
    /// What the error says, in words.
    pub fn message(&self) -> (r: String)
        ensures
            r@ == self@.message(),
    {
        match self {
            DeriveError::Syntax => String::from_str("the text declares no struct, enum or union"),
            DeriveError::NotARecord { name } => {
                let mut out = String::from_str("`");
                out.append(name.as_str());
                out.append("` is not a struct with named fields");
                out
            },
            DeriveError::Generation(e) => e.message(),
        }
    }
}

/// The first position before `n` whose field has a type that is more than
/// a name, if there is one.
pub open spec fn first_unnamed_type(fields: Seq<DeclaredFieldView>, n: int) -> Option<int>
    decreases n,
{
    if n <= 0 {
        None
    } else {
        match first_unnamed_type(fields, n - 1) {
            Some(j) => Some(j),
            None => if fields[n - 1].ty is None {
                Some(n - 1)
            } else {
                None
            },
        }
    }
}

/// The first `n` fields as those of a model.
pub open spec fn spec_fields_of(fields: Seq<DeclaredFieldView>, n: int) -> Seq<FieldView> {
    Seq::new(
        n as nat,
        |k: int| FieldView { name: fields[k].name_text(), ty: fields[k].ty->Some_0 },
    )
}

/// The model that a declaration declares. Only a struct with named fields
/// declares one. A type that is more than a name can be no scalar of the
/// operator table and no model: the first field with such a type makes the
/// declaration fail as an unsupported field type, without a type name.
pub open spec fn spec_model_of(declaration: DeclarationView) -> Result<ModelView, DeriveErrorView> {
    match declaration {
        DeclarationView::Other { name } => Err(DeriveErrorView::NotARecord { name }),
        DeclarationView::Record { name, fields } => match first_unnamed_type(
            fields,
            fields.len() as int,
        ) {
            Some(j) => Err(
                DeriveErrorView::Generation(
                    GenerationErrorView::UnsupportedFieldType {
                        model: name,
                        field: fields[j].name_text(),
                        ty: Seq::empty(),
                    },
                ),
            ),
            None => Ok(ModelView { name, fields: spec_fields_of(fields, fields.len() as int) }),
        },
    }
}

/// The model that a source text declares.
pub open spec fn spec_parse_model(parsed: Option<DeclarationView>) -> Result<
    ModelView,
    DeriveErrorView,
> {
    match parsed {
        None => Err(DeriveErrorView::Syntax),
        Some(declaration) => spec_model_of(declaration),
    }
}

/// The surface, as source text, of the model that a source text declares.
pub open spec fn spec_derive_model(parsed: Option<DeclarationView>, declared: Set<Seq<char>>) -> Result<
    Seq<char>,
    DeriveErrorView,
> {
    match spec_parse_model(parsed) {
        Err(e) => Err(e),
        Ok(model) => match spec_generate_model(model, declared) {
            Err(e) => Err(DeriveErrorView::Generation(e)),
            Ok(generated) => Ok(spec_render(generated)),
        },
    }
}

/// An unnamed type found among the first `n` fields is the first of every
/// longer run of fields.
pub proof fn lemma_first_unnamed_type_stable(fields: Seq<DeclaredFieldView>, n: int, m: int)
    requires
        n <= m,
        first_unnamed_type(fields, n) is Some,
    ensures
        first_unnamed_type(fields, m) == first_unnamed_type(fields, n),
    decreases m - n,
{
    if n < m {
        lemma_first_unnamed_type_stable(fields, n, m - 1);
    }
}

/// The model that a declaration declares.
pub fn model_of(declaration: Declaration) -> (r: Result<ModelDescriptor, DeriveError>)
    ensures
        match spec_model_of(declaration@) {
            Ok(model) => r is Ok && r->Ok_0@ == model,
            Err(e) => r is Err && r->Err_0@ == e,
        },
{
    let ghost whole = declaration@;
    match declaration {
        Declaration::Other { name } => Err(DeriveError::NotARecord { name }),
        Declaration::Record { name, fields } => {
            let ghost declared = fields.deep_view();
            assert(whole == (DeclarationView::Record { name: name@, fields: declared }));
            let mut out: Vec<FieldDescriptor> = Vec::new();
            let mut i: usize = 0;
            assert(out.deep_view() =~= spec_fields_of(declared, 0));
            while i < fields.len()
                invariant
                    i <= fields.len(),
                    declared == fields.deep_view(),
                    whole == (DeclarationView::Record { name: name@, fields: declared }),
                    whole == declaration@,
                    first_unnamed_type(declared, i as int) is None,
                    out.deep_view() == spec_fields_of(declared, i as int),
                decreases fields.len() - i,
            {
                assert(declared[i as int] == fields[i as int]@);
                let field_name = match &fields[i].name {
                    Some(field_name) => field_name.clone(),
                    None => String::new(),
                };
                match &fields[i].ty {
                    None => {
                        proof {
                            assert(first_unnamed_type(declared, i + 1) == Some(i as int));
                            lemma_first_unnamed_type_stable(
                                declared,
                                i + 1,
                                fields.len() as int,
                            );
                        }
                        return Err(
                            DeriveError::Generation(
                                GenerationError::UnsupportedFieldType {
                                    model: name,
                                    field: field_name,
                                    ty: String::new(),
                                },
                            ),
                        );
                    },
                    Some(ty) => {
                        let field = FieldDescriptor { name: field_name, ty: ty.clone() };
                        let ghost earlier = out.deep_view();
                        out.push(field);
                        proof {
                            assert(out.deep_view() =~= earlier.push(field@));
                            assert(out.deep_view() =~= spec_fields_of(declared, i + 1));
                        }
                    },
                }
                i = i + 1;
            }
            Ok(ModelDescriptor { name, fields: out })
        },
    }
}

/// Reads the model that a source text declares.
pub fn parse_model(input: &str) -> (r: Result<ModelDescriptor, DeriveError>)
    ensures
        match spec_parse_model(parsed_declaration(input@)) {
            Ok(model) => r is Ok && r->Ok_0@ == model,
            Err(e) => r is Err && r->Err_0@ == e,
        },
{
    match parse_declaration(input) {
        Ok(declaration) => model_of(declaration),
        Err(_) => Err(DeriveError::Syntax),
    }
}

/// Derives, from the source text of a model's declaration, the source text
/// of the model's surface. The fields are resolved against the model names
/// that are declared in `models`.
pub fn derive_model(input: &str, models: &ModelNames) -> (r: Result<String, DeriveError>)
    ensures
        match spec_derive_model(parsed_declaration(input@), models@) {
            Ok(text) => r is Ok && r->Ok_0@ == text,
            Err(e) => r is Err && r->Err_0@ == e,
        },
{
    let model = match parse_model(input) {
        Ok(model) => model,
        Err(e) => {
            return Err(e);
        },
    };
    match generate_model(&model, models) {
        Ok(generated) => Ok(render(&generated)),
        Err(e) => Err(DeriveError::Generation(e)),
    }
}

/// What `syn` reads out of each of the source texts.
pub open spec fn parsed_declarations(inputs: Seq<Seq<char>>) -> Seq<Option<DeclarationView>> {
    Seq::new(inputs.len(), |k: int| parsed_declaration(inputs[k]))
}

/// The error of the first text among the first `n` that declares no model.
pub open spec fn first_parse_error(parsed: Seq<Option<DeclarationView>>, n: int) -> Option<
    DeriveErrorView,
>
    decreases n,
{
    if n <= 0 {
        None
    } else {
        match first_parse_error(parsed, n - 1) {
            Some(e) => Some(e),
            None => match spec_parse_model(parsed[n - 1]) {
                Ok(_) => None,
                Err(e) => Some(e),
            },
        }
    }
}

/// The models that the first `n` texts declare.
pub open spec fn spec_parsed_models(parsed: Seq<Option<DeclarationView>>, n: int) -> Seq<ModelView> {
    Seq::new(n as nat, |k: int| spec_parse_model(parsed[k])->Ok_0)
}

/// The source texts of the first `n` surfaces.
pub open spec fn spec_rendered(generated: Seq<GeneratedModelView>, n: int) -> Seq<Seq<char>> {
    Seq::new(n as nat, |k: int| spec_render(generated[k]))
}

/// The surfaces, as source texts, of the schema that the source texts
/// declare: every text is read, in order, up to the first that declares no
/// model; the schema of all the models is generated; each surface is
/// rendered.
pub open spec fn spec_derive_schema(parsed: Seq<Option<DeclarationView>>) -> Result<
    Seq<Seq<char>>,
    DeriveErrorView,
> {
    match first_parse_error(parsed, parsed.len() as int) {
        Some(e) => Err(e),
        None => match spec_generate_schema(spec_parsed_models(parsed, parsed.len() as int)) {
            Err(e) => Err(DeriveErrorView::Generation(e)),
            Ok(generated) => Ok(spec_rendered(generated, generated.len() as int)),
        },
    }
}

/// A parse error found among the first `n` texts is the first of every
/// longer run of texts.
pub proof fn lemma_first_parse_error_stable(parsed: Seq<Option<DeclarationView>>, n: int, m: int)
    requires
        n <= m,
        first_parse_error(parsed, n) is Some,
    ensures
        first_parse_error(parsed, m) == first_parse_error(parsed, n),
    decreases m - n,
{
    if n < m {
        lemma_first_parse_error_stable(parsed, n, m - 1);
    }
}

/// Renders each of the surfaces.
pub fn render_all(generated: &Vec<GeneratedModel>) -> (r: Vec<String>)
    ensures
        r.deep_view() == spec_rendered(generated.deep_view(), generated.len() as int),
{
    let mut out: Vec<String> = Vec::new();
    let mut i: usize = 0;
    while i < generated.len()
        invariant
            i <= generated.len(),
            out.deep_view() == spec_rendered(generated.deep_view(), i as int),
        decreases generated.len() - i,
    {
        let text = render(&generated[i]);
        let ghost earlier = out.deep_view();
        out.push(text);
        proof {
            assert(out.deep_view() =~= earlier.push(text@));
        }
        i = i + 1;
    }
    out
}

/// Derives the surfaces of a whole schema from the source texts of its
/// models' declarations, one text for each model. The result holds one
/// source text for each model, in the same order.
pub fn derive_schema(inputs: &Vec<String>) -> (r: Result<Vec<String>, DeriveError>)
    ensures
        match spec_derive_schema(parsed_declarations(inputs.deep_view())) {
            Ok(texts) => r is Ok && r->Ok_0.deep_view() == texts,
            Err(e) => r is Err && r->Err_0@ == e,
        },
{
    let ghost parsed = parsed_declarations(inputs.deep_view());
    let mut models: Vec<ModelDescriptor> = Vec::new();
    let mut i: usize = 0;
    assert(models.deep_view() =~= spec_parsed_models(parsed, 0));
    while i < inputs.len()
        invariant
            i <= inputs.len(),
            parsed == parsed_declarations(inputs.deep_view()),
            first_parse_error(parsed, i as int) is None,
            models.deep_view() == spec_parsed_models(parsed, i as int),
        decreases inputs.len() - i,
    {
        assert(parsed[i as int] == parsed_declaration(inputs[i as int]@));
        match parse_model(inputs[i].as_str()) {
            Ok(model) => {
                let ghost earlier = models.deep_view();
                models.push(model);
                proof {
                    assert(models.deep_view() =~= earlier.push(model@));
                    assert(models.deep_view() =~= spec_parsed_models(parsed, i + 1));
                }
            },
            Err(e) => {
                proof {
                    assert(first_parse_error(parsed, i + 1) == Some(e@));
                    lemma_first_parse_error_stable(parsed, i + 1, inputs.len() as int);
                }
                return Err(e);
            },
        }
        i = i + 1;
    }
    match generate_schema(&models) {
        Ok(generated) => Ok(render_all(&generated)),
        Err(e) => Err(DeriveError::Generation(e)),
    }
}

} // verus!
