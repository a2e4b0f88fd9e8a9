//! The query surface of a model and the shared client that hands the
//! surfaces out.

use vstd::prelude::*;
use crate::generate::GeneratedModel;
use crate::operation::{OperationVariant, Value};

verus! {

/// A record of a model, as a lookup would return it: the values of its
/// fields, by field name.
#[derive(Clone, Debug, PartialEq, Eq)]
pub struct Record {
    pub model: String,
    pub values: Vec<(String, Value)>,
}

/// No record matches the operations.
#[derive(Clone, Copy, Debug, PartialEq, Eq)]
pub struct NotFound;

/// No record matches the operations, or more than one does.
#[derive(Clone, Copy, Debug, PartialEq, Eq)]
pub struct AmbiguousOrNotFound;

/// Why a lookup of many records failed.
#[derive(Clone, Copy, Debug, PartialEq, Eq)]
pub enum QueryError {
    /// No lookup is wired to the surface.
    NotImplemented,
}

/// The query surface of one model. It holds the model's name and nothing
/// else. No lookup stands behind it: each of its entry points fails, with
/// the failure of its own kind, whatever operations it is given.
#[derive(Clone, Debug, PartialEq, Eq)]
pub struct QuerySurface {
    pub model: String,
}

impl QuerySurface {
    /// Looks for one record that matches the operations.
    pub fn find_one(&self, operations: Vec<OperationVariant>) -> (r: Result<Record, NotFound>)
        ensures
            r == Err::<Record, NotFound>(NotFound),
    {
        Err(NotFound)
    }

    /// Looks for all the records that match the operations.
    pub fn find_many(&self, operations: Vec<OperationVariant>) -> (r: Result<
        Vec<Record>,
        QueryError,
    >)
        ensures
            r == Err::<Vec<Record>, QueryError>(QueryError::NotImplemented),
    {
        Err(QueryError::NotImplemented)
    }

    /// Looks for the one record that matches the operations.
    pub fn find_unique(&self, operations: Vec<OperationVariant>) -> (r: Result<
        Record,
        AmbiguousOrNotFound,
    >)
        ensures
            r == Err::<Record, AmbiguousOrNotFound>(AmbiguousOrNotFound),
    {
        Err(AmbiguousOrNotFound)
    }
}

/// One model's entry in the client: the name of the accessor method and
/// the model that it leads to.
pub struct Registration {
    accessor: String,
    model: String,
}

/// The shared client: the registry through which the query surface of every
/// registered model is reached, each by an accessor of its own.
pub struct Client {
    entries: Vec<Registration>,
}

/// The model that the accessor leads to among the first `n` registrations.
pub open spec fn spec_registered(
    entries: Seq<(Seq<char>, Seq<char>)>,
    accessor: Seq<char>,
    n: int,
) -> Option<Seq<char>>
    decreases n,
{
    if n <= 0 {
        None
    } else {
        match spec_registered(entries, accessor, n - 1) {
            Some(model) => Some(model),
            None => if entries[n - 1].0 == accessor {
                Some(entries[n - 1].1)
            } else {
                None
            },
        }
    }
}

/// What is found among the first `n` registrations is found in every longer run.
pub proof fn lemma_registered_stable(
    entries: Seq<(Seq<char>, Seq<char>)>,
    accessor: Seq<char>,
    n: int,
    m: int,
)
    requires
        n <= m,
        spec_registered(entries, accessor, n) is Some,
    ensures
        spec_registered(entries, accessor, m) == spec_registered(entries, accessor, n),
    decreases m - n,
{
    if n < m {
        lemma_registered_stable(entries, accessor, n, m - 1);
    }
}

/// What the first `n` registrations hold does not depend on later ones.
pub proof fn lemma_registered_prefix(
    entries: Seq<(Seq<char>, Seq<char>)>,
    longer: Seq<(Seq<char>, Seq<char>)>,
    accessor: Seq<char>,
    n: int,
)
    requires
        0 <= n <= entries.len(),
        entries.len() <= longer.len(),
        forall|i: int| 0 <= i < entries.len() ==> entries[i] == longer[i],
    ensures
        spec_registered(longer, accessor, n) == spec_registered(entries, accessor, n),
    decreases n,
{
    if n > 0 {
        lemma_registered_prefix(entries, longer, accessor, n - 1);
    }
}

impl View for Client {
    type V = Seq<(Seq<char>, Seq<char>)>;

    /// The registrations in the order in which they were made, each as the
    /// accessor's name and the model's.
    closed spec fn view(&self) -> Seq<(Seq<char>, Seq<char>)> {
        Seq::new(self.entries.len() as nat, |i: int| (self.entries[i].accessor@, self.entries[i].model@))
    }
}

impl Client {
    /// The model whose surface the accessor hands out, if the accessor is
    /// registered.
    pub open spec fn spec_model_of(&self, accessor: Seq<char>) -> Option<Seq<char>> {
        spec_registered(self@, accessor, self@.len() as int)
    }

    /// A client without a registered model.
    pub fn new() -> (r: Client)
        ensures
            r@ == Seq::<(Seq<char>, Seq<char>)>::empty(),
    {
        let r = Client { entries: Vec::new() };
        r
    }

    /// The model that the accessor leads to, if it is registered.
    fn model_of(&self, accessor: &str) -> (r: Option<&String>)
        ensures
            match r {
                Some(model) => self.spec_model_of(accessor@) == Some(model@),
                None => self.spec_model_of(accessor@) is None,
            },
    {
        let mut i: usize = 0;
        while i < self.entries.len()
            invariant
                i <= self.entries.len(),
                self@.len() == self.entries.len(),
                spec_registered(self@, accessor@, i as int) is None,
            decreases self.entries.len() - i,
        {
            if self.entries[i].accessor.as_str().eq(accessor) {
                proof {
                    assert(self@[i as int] == (
                        self.entries[i as int].accessor@,
                        self.entries[i as int].model@,
                    ));
                    assert(spec_registered(self@, accessor@, i + 1) == Some(
                        self.entries[i as int].model@,
                    ));
                    lemma_registered_stable(self@, accessor@, i + 1, self@.len() as int);
                }
                return Some(&self.entries[i].model);
            }
            proof {
                assert(self@[i as int].0 == self.entries[i as int].accessor@);
            }
            i = i + 1;
        }
        None
    }

    /// Registers a generated model under its accessor. Where the accessor is
    /// taken already, nothing is registered and the client stays as it was.
    pub fn register(&mut self, generated: &GeneratedModel) -> (r: bool)
        ensures
            r == (old(self).spec_model_of(generated.client_method@) is None),
            r ==> final(self)@ == old(self)@.push((generated.client_method@, generated.model@)),
            !r ==> final(self)@ == old(self)@,
    {
        if self.model_of(generated.client_method.as_str()).is_some() {
            false
        } else {
            self.entries.push(
                Registration {
                    accessor: generated.client_method.clone(),
                    model: generated.model.clone(),
                },
            );
            true
        }
    }

    /// The query surface that the accessor hands out: a fresh surface of
    /// the model that was registered under it.
    pub fn surface(&self, accessor: &str) -> (r: Option<QuerySurface>)
        ensures
            match r {
                Some(surface) => self.spec_model_of(accessor@) == Some(surface.model@),
                None => self.spec_model_of(accessor@) is None,
            },
    {
        match self.model_of(accessor) {
            Some(model) => Some(QuerySurface { model: model.clone() }),
            None => None,
        }
    }
}

/// After a registration that took place, the accessor hands out the
/// surface of the registered model, and every other accessor hands out what
/// it did before.
pub proof fn lemma_registration(
    before: Seq<(Seq<char>, Seq<char>)>,
    accessor: Seq<char>,
    model: Seq<char>,
    other: Seq<char>,
)
    requires
        spec_registered(before, accessor, before.len() as int) is None,
    ensures
        spec_registered(before.push((accessor, model)), accessor, before.len() as int + 1) == Some(
            model,
        ),
        other != accessor ==> spec_registered(
            before.push((accessor, model)),
            other,
            before.len() as int + 1,
        ) == spec_registered(before, other, before.len() as int),
{
    let after = before.push((accessor, model));
    lemma_registered_prefix(before, after, accessor, before.len() as int);
    lemma_registered_prefix(before, after, other, before.len() as int);
}

} // verus!
