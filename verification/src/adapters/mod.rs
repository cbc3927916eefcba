//! Records of the hand-written SQL repositories and what becomes of a query's rows.

use vstd::prelude::*;
use crate::error::ModelError;

verus! {

/// A database record that may describe an entity of type `E`.
pub trait IntoEntity<E>: Sized {
    /// Whether the conversion returns (rather than stops the program) on this record.
    spec fn convertible(self) -> bool;

    /// Whether the conversion returns on this record, tested before converting.
    fn is_convertible(&self) -> (convertible: bool)
        ensures
            convertible == self.convertible(),
    ;

    /// The entity that the record describes, or why it describes none.
    spec fn entity(self) -> Result<E, ModelError>;

    fn into_entity(self) -> (res: Result<E, ModelError>)
        requires
            self.convertible(),
        ensures
            res == self.entity(),
    ;
}

/// A query that the database did not answer.
#[derive(Debug, Clone, PartialEq, Eq)]
pub struct QueryFailure {
    /// The text of the query.
    pub sql: String,
    /// What the database driver reported.
    pub cause: String,
}

/// What went wrong where nothing should have.
#[derive(Debug, Clone, PartialEq, Eq)]
pub enum UnexpectedError {
    /// The query failed.
    Query(QueryFailure),
    /// A row did not describe a valid entity.
    Conversion(ModelError),
    /// A query that must return a row returned none.
    NothingFetched { sql: String },
}

/// The result of a repository operation: a value, an expected refusal, or a fault.
#[derive(Debug, Clone, PartialEq, Eq)]
pub enum Outcome<T, E> {
    Success(T),
    Exception(E),
    Unexpected(UnexpectedError),
}

pub open spec fn unexpected_message(e: UnexpectedError) -> Seq<char> {
    match e {
        UnexpectedError::Query(f) => "failed to fetch query "@ + f.sql@,
        UnexpectedError::Conversion(m) => crate::error::model_error_message(m),
        UnexpectedError::NothingFetched { sql } =>
            "failed to fetch query "@ + sql@ + ", expected one value but got nothing"@,
    }
}

impl UnexpectedError {
    /// The text that describes the fault.
    pub fn message(&self) -> (text: String)
        ensures
            text@ == unexpected_message(*self),
    {
        match self {
            UnexpectedError::Query(f) => {
                let text = String::from_str("failed to fetch query ");
                text.concat(f.sql.as_str())
            },
            UnexpectedError::Conversion(m) => String::from_str(m.message()),
            UnexpectedError::NothingFetched { sql } => {
                let text = String::from_str("failed to fetch query ");
                let text = text.concat(sql.as_str());
                text.concat(", expected one value but got nothing")
            },
        }
    }
}

/// The outcome of a query that returns at most one row: the entity of the row,
/// `nothing` where there is no row, and a fault where the query failed or the
/// row describes no entity.
pub fn optional_outcome<M: IntoEntity<E>, E, N>(
    fetched: Result<Option<M>, QueryFailure>,
    nothing: N,
) -> (outcome: Outcome<E, N>)
    requires
        fetched matches Ok(Some(model)) ==> model.convertible(),
    ensures
        match fetched {
            Ok(Some(model)) => match model.entity() {
                Ok(entity) => outcome == Outcome::<E, N>::Success(entity),
                Err(err) => outcome == Outcome::<E, N>::Unexpected(UnexpectedError::Conversion(err)),
            },
            Ok(None) => outcome == Outcome::<E, N>::Exception(nothing),
            Err(failure) => outcome == Outcome::<E, N>::Unexpected(UnexpectedError::Query(failure)),
        },
{
    match fetched {
        Ok(Some(model)) => match model.into_entity() {
            Ok(entity) => Outcome::Success(entity),
            Err(err) => Outcome::Unexpected(UnexpectedError::Conversion(err)),
        },
        Ok(None) => Outcome::Exception(nothing),
        Err(failure) => Outcome::Unexpected(UnexpectedError::Query(failure)),
    }
}

/// The outcome of a query that must return one row; `sql` is its text.
pub fn one_outcome<M: IntoEntity<E>, E, N>(
    fetched: Result<Option<M>, QueryFailure>,
    sql: String,
) -> (outcome: Outcome<E, N>)
    requires
        fetched matches Ok(Some(model)) ==> model.convertible(),
    ensures
        match fetched {
            Ok(Some(model)) => match model.entity() {
                Ok(entity) => outcome == Outcome::<E, N>::Success(entity),
                Err(err) => outcome == Outcome::<E, N>::Unexpected(UnexpectedError::Conversion(err)),
            },
            Ok(None) => outcome == Outcome::<E, N>::Unexpected(UnexpectedError::NothingFetched { sql }),
            Err(failure) => outcome == Outcome::<E, N>::Unexpected(UnexpectedError::Query(failure)),
        },
{
    match fetched {
        Ok(Some(model)) => match model.into_entity() {
            Ok(entity) => Outcome::Success(entity),
            Err(err) => Outcome::Unexpected(UnexpectedError::Conversion(err)),
        },
        Ok(None) => Outcome::Unexpected(UnexpectedError::NothingFetched { sql }),
        Err(failure) => Outcome::Unexpected(UnexpectedError::Query(failure)),
    }
}

/// Whether every record of `models` describes an entity.
pub open spec fn all_convert<M: IntoEntity<E>, E>(models: Seq<M>) -> bool {
    forall|i: int| 0 <= i < models.len() ==> (#[trigger] models[i].entity()) is Ok
}

/// The index of the first record of `models` that describes no entity.
pub open spec fn first_failure<M: IntoEntity<E>, E>(models: Seq<M>, i: int) -> bool {
    &&& 0 <= i < models.len()
    &&& models[i].entity() is Err
    &&& forall|j: int| 0 <= j < i ==> (#[trigger] models[j].entity()) is Ok
}

/// The outcome of a query that returns any number of rows: the entities of all
/// rows, in order, or the fault of the first row that describes no entity.
pub fn all_outcome<M: IntoEntity<E>, E, N>(fetched: Result<Vec<M>, QueryFailure>) -> (outcome: Outcome<Vec<E>, N>)
    requires
        fetched matches Ok(models) ==> forall|i: int| 0 <= i < models@.len() ==> (#[trigger] models@[i]).convertible(),
    ensures
        !(outcome is Exception),
        match fetched {
            Ok(models) => {
                &&& all_convert::<M, E>(models@) <==> outcome is Success
                &&& outcome matches Outcome::Success(entities) ==> {
                    &&& entities@.len() == models@.len()
                    &&& forall|i: int| 0 <= i < models@.len()
                        ==> Ok::<E, ModelError>(#[trigger] entities@[i]) == models@[i].entity()
                }
                &&& outcome matches Outcome::Unexpected(err) ==> exists|i: int|
                    first_failure(models@, i) && err == UnexpectedError::Conversion(
                        (#[trigger] models@[i].entity())->Err_0,
                    )
            },
            Err(failure) => outcome == Outcome::<Vec<E>, N>::Unexpected(UnexpectedError::Query(failure)),
        },
{
    match fetched {
        Err(failure) => Outcome::Unexpected(UnexpectedError::Query(failure)),
        Ok(models) => {
            let ghost original = models@;
            let mut entities: Vec<E> = Vec::new();
            for model in it: models.into_iter()
                invariant
                    fetched is Ok,
                    fetched->Ok_0@ == original,
                    forall|i: int| 0 <= i < original.len() ==> (#[trigger] original[i]).convertible(),
                    it.seq() == original,
                    entities@.len() == it.index(),
                    forall|i: int| 0 <= i < it.index() ==> Ok::<E, ModelError>(#[trigger] entities@[i]) == original[i].entity(),
            {
                assert(model == original[it.index() as int]);
                match model.into_entity() {
                    Ok(entity) => entities.push(entity),
                    Err(err) => {
                        assert(it.index() < original.len());
                        assert forall|j: int| 0 <= j < it.index() implies (#[trigger] original[j].entity()) is Ok by {
                            assert(Ok::<E, ModelError>(entities@[j]) == original[j].entity());
                        }
                        assert(first_failure(original, it.index() as int));
                        assert(err == original[it.index() as int].entity()->Err_0);
                        assert(!all_convert::<M, E>(original));
                        return Outcome::Unexpected(UnexpectedError::Conversion(err));
                    },
                }
            }
            assert(entities@.len() == original.len());
            assert forall|i: int| 0 <= i < original.len() implies (#[trigger] original[i].entity()) is Ok by {
                assert(Ok::<E, ModelError>(entities@[i]) == original[i].entity());
            }
            Outcome::Success(entities)
        },
    }
}

} // verus!

pub mod person;
pub mod tag;
pub mod university;
pub mod session;
pub mod subdivision;
pub mod tokens;
pub mod password;
