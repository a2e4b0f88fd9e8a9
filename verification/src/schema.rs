//! Model descriptors, the registry of declared model names, and the
//! resolution of a field's type against the operator table.

use vstd::prelude::*;
use vstd::string::*;

verus! {

/// A field of a model: its name and the name of its type, as declared.
#[derive(Clone, Debug, PartialEq, Eq)]
pub struct FieldDescriptor {
    pub name: String,
    pub ty: String,
}

/// A field descriptor with its texts as sequences of characters.
pub struct FieldView {
    pub name: Seq<char>,
    pub ty: Seq<char>,
}

impl View for FieldDescriptor {
    type V = FieldView;

    open spec fn view(&self) -> FieldView {
        FieldView { name: self.name@, ty: self.ty@ }
    }
}

impl DeepView for FieldDescriptor {
    type V = FieldView;

    open spec fn deep_view(&self) -> FieldView {
        self@
    }
}

/// A model: a named record type with its fields, in declaration order.
#[derive(Clone, Debug, PartialEq, Eq)]
pub struct ModelDescriptor {
    pub name: String,
    pub fields: Vec<FieldDescriptor>,
}

/// A model descriptor with its texts as sequences of characters.
pub struct ModelView {
    pub name: Seq<char>,
    pub fields: Seq<FieldView>,
}

impl View for ModelDescriptor {
    type V = ModelView;

    open spec fn view(&self) -> ModelView {
        ModelView { name: self.name@, fields: self.fields.deep_view() }
    }
}

impl DeepView for ModelDescriptor {
    type V = ModelView;

    open spec fn deep_view(&self) -> ModelView {
        self@
    }
}

impl FieldDescriptor {
    /// The field of the given name and type name.
    pub fn new(name: &str, ty: &str) -> (r: FieldDescriptor)
        ensures
            r@ == (FieldView { name: name@, ty: ty@ }),
    {
        FieldDescriptor { name: String::from_str(name), ty: String::from_str(ty) }
    }
}

impl ModelDescriptor {
    /// The model of the given name with the given fields.
    pub fn new(name: &str, fields: Vec<FieldDescriptor>) -> (r: ModelDescriptor)
        ensures
            r.name@ == name@,
            r.fields == fields,
    {
        ModelDescriptor { name: String::from_str(name), fields }
    }
}

/// Why no surface can be generated for a schema.
#[derive(Clone, Debug, PartialEq, Eq)]
pub enum GenerationError {
    /// The type of `field` has no row in the operator table and names no declared model.
    UnsupportedFieldType { model: String, field: String, ty: String },
    /// `field` is the name of an earlier field of the same model.
    DuplicateFieldName { model: String, field: String },
    /// `model` is the name of an earlier model of the schema.
    DuplicateModelName { model: String },
}

/// A generation error with its texts as sequences of characters.
pub enum GenerationErrorView {
    UnsupportedFieldType { model: Seq<char>, field: Seq<char>, ty: Seq<char> },
    DuplicateFieldName { model: Seq<char>, field: Seq<char> },
    DuplicateModelName { model: Seq<char> },
}

impl View for GenerationError {
    type V = GenerationErrorView;

    open spec fn view(&self) -> GenerationErrorView {
        match self {
            GenerationError::UnsupportedFieldType { model, field, ty } => {
                GenerationErrorView::UnsupportedFieldType { model: model@, field: field@, ty: ty@ }
            },
            GenerationError::DuplicateFieldName { model, field } => {
                GenerationErrorView::DuplicateFieldName { model: model@, field: field@ }
            },
            GenerationError::DuplicateModelName { model } => {
                GenerationErrorView::DuplicateModelName { model: model@ }
            },
        }
    }
}

impl GenerationErrorView {
    /// What the error says, in words.
    pub open spec fn message(self) -> Seq<char> {
        match self {
            GenerationErrorView::UnsupportedFieldType { model, field, ty } => {
                "unsupported type `"@ + ty + "` of field `"@ + field + "` in model `"@ + model
                    + "`: the type has no filter operators and names no declared model"@
            },
            GenerationErrorView::DuplicateFieldName { model, field } => {
                "duplicate field `"@ + field + "` in model `"@ + model + "`"@
            },
            GenerationErrorView::DuplicateModelName { model } => {
                "duplicate model `"@ + model + "`"@
            },
        }
    }
}

impl GenerationError {
    /// What the error says, in words: it names the model, the field and the
    /// type that are at fault.
    pub fn message(&self) -> (r: String)
        ensures
            r@ == self@.message(),
    {
        match self {
            GenerationError::UnsupportedFieldType { model, field, ty } => {
                let mut out = String::from_str("unsupported type `");
                out.append(ty.as_str());
                out.append("` of field `");
                out.append(field.as_str());
                out.append("` in model `");
                out.append(model.as_str());
                out.append("`: the type has no filter operators and names no declared model");
                out
            },
            GenerationError::DuplicateFieldName { model, field } => {
                let mut out = String::from_str("duplicate field `");
                out.append(field.as_str());
                out.append("` in model `");
                out.append(model.as_str());
                out.append("`");
                out
            },
            GenerationError::DuplicateModelName { model } => {
                let mut out = String::from_str("duplicate model `");
                out.append(model.as_str());
                out.append("`");
                out
            },
        }
    }
}

/// The names of the models of a schema that occur before position `n`.
pub open spec fn names_before(models: Seq<ModelView>, n: int) -> Set<Seq<char>> {
    Set::new(|s: Seq<char>| exists|i: int| 0 <= i < n && i < models.len() && models[i].name == s)
}

/// Whether the model at position `j` bears the name of an earlier one.
pub open spec fn repeats_model_name(models: Seq<ModelView>, j: int) -> bool {
    names_before(models, j).contains(models[j].name)
}

/// The first position before `n` whose model bears the name of an earlier
/// one, if there is one.
pub open spec fn first_repeated_model(models: Seq<ModelView>, n: int) -> Option<int>
    decreases n,
{
    if n <= 0 {
        None
    } else {
        match first_repeated_model(models, n - 1) {
            Some(j) => Some(j),
            None => if repeats_model_name(models, n - 1) {
                Some(n - 1)
            } else {
                None
            },
        }
    }
}

/// The registry of declared model names, against which relation fields are
/// resolved. It holds every name once.
pub struct ModelNames {
    names: Vec<String>,
}

impl View for ModelNames {
    type V = Set<Seq<char>>;

    closed spec fn view(&self) -> Set<Seq<char>> {
        Set::new(
            |s: Seq<char>| exists|i: int| 0 <= i < self.names.len() && (#[trigger] self.names[i])@ == s,
        )
    }
}

impl ModelNames {
    /// The registry without a name.
    pub fn new() -> (r: ModelNames)
        ensures
            r@ == Set::<Seq<char>>::empty(),
    {
        let r = ModelNames { names: Vec::new() };
        r
    }

    /// Whether `name` has been declared.
    pub fn contains(&self, name: &str) -> (r: bool)
        ensures
            r == self@.contains(name@),
    {
        let mut i: usize = 0;
        while i < self.names.len()
            invariant
                i <= self.names.len(),
                forall|j: int| 0 <= j < i ==> (#[trigger] self.names[j])@ != name@,
            decreases self.names.len() - i,
        {
            if self.names[i].as_str().eq(name) {
                return true;
            }
            i = i + 1;
        }
        false
    }

    /// Declares `name`. A name that the registry holds already is refused,
    /// and the registry stays as it was.
    pub fn declare(&mut self, name: &str) -> (r: Result<(), GenerationError>)
        ensures
            old(self)@.contains(name@) ==> final(self)@ == old(self)@ && r is Err && r->Err_0@ == (
            GenerationErrorView::DuplicateModelName { model: name@ }),
            !old(self)@.contains(name@) ==> final(self)@ == old(self)@.insert(name@) && r is Ok,
    {
        if self.contains(name) {
            Err(GenerationError::DuplicateModelName { model: String::from_str(name) })
        } else {
            let ghost before = self.names@;
            self.names.push(String::from_str(name));
            proof {
                assert forall|s: Seq<char>| self@.contains(s) <==> old(self)@.insert(
                    name@,
                ).contains(s) by {
                    if self@.contains(s) {
                        let i = choose|i: int|
                            0 <= i < self.names.len() && (#[trigger] self.names[i])@ == s;
                        assert(i < before.len() ==> before[i] == self.names[i]);
                    }
                    if old(self)@.contains(s) {
                        let i = choose|i: int|
                            0 <= i < before.len() && (#[trigger] before[i])@ == s;
                        assert(self.names[i] == before[i]);
                    }
                    if s == name@ {
                        assert(self.names[before.len() as int]@ == s);
                    }
                }
            }
            Ok(())
        }
    }

    /// The names of the models of a schema: the first pass of generation. A
    /// model that bears the name of an earlier one is refused.
    pub fn collect(models: &Vec<ModelDescriptor>) -> (r: Result<ModelNames, GenerationError>)
        ensures
            match first_repeated_model(models.deep_view(), models.len() as int) {
                Some(j) => r is Err && r->Err_0@ == (GenerationErrorView::DuplicateModelName {
                    model: models.deep_view()[j].name,
                }),
                None => r is Ok && r->Ok_0@ == names_before(
                    models.deep_view(),
                    models.len() as int,
                ),
            },
    {
        let ghost views = models.deep_view();
        let mut names = ModelNames::new();
        let mut i: usize = 0;
        assert(names@ =~= names_before(views, 0));
        while i < models.len()
            invariant
                i <= models.len(),
                views == models.deep_view(),
                first_repeated_model(views, i as int) is None,
                names@ == names_before(views, i as int),
            decreases models.len() - i,
        {
            assert(views[i as int].name == models[i as int].name@);
            match names.declare(models[i].name.as_str()) {
                Ok(()) => {
                    proof {
                        assert(names@ =~= names_before(views, i + 1)) by {
                            assert forall|s: Seq<char>| names_before(views, i + 1).contains(
                                s,
                            ) implies names@.contains(s) by {
                                let k = choose|k: int|
                                    0 <= k < i + 1 && k < views.len() && views[k].name == s;
                                if k < i {
                                    assert(names_before(views, i as int).contains(s));
                                }
                            }
                        }
                    }
                },
                Err(e) => {
                    proof {
                        assert(first_repeated_model(views, i + 1) == Some(i as int));
                        lemma_first_repeated_model_stable(views, i + 1, models.len() as int);
                    }
                    return Err(e);
                },
            }
            i = i + 1;
        }
        Ok(names)
    }
}

/// Once a repeated name has been found before `n`, it stays the first one
/// for every longer prefix.
pub proof fn lemma_first_repeated_model_stable(models: Seq<ModelView>, n: int, m: int)
    requires
        n <= m,
        first_repeated_model(models, n) is Some,
    ensures
        first_repeated_model(models, m) == first_repeated_model(models, n),
    decreases m - n,
{
    if n < m {
        lemma_first_repeated_model_stable(models, n, m - 1);
    }
}

} // verus!
