//! The boundary to the store's driver: the failure that the driver reports,
//! and what the service keeps of it.

use vstd::prelude::*;
use vstd::string::to_string_from_display_ensures;

verus! {

/// The driver's error type, `sqlx::Error`. Nothing is claimed of its
/// contents: the service only asks it for its text.
#[verifier::external_type_specification]
#[verifier::external_body]
pub struct ExDriverError(sqlx::Error);

/// A failure of the store, kept as the text in which the driver reported it.
#[derive(Debug, Clone, PartialEq, Eq)]
pub struct StoreError {
    pub message: String,
}

impl View for StoreError {
    type V = Seq<char>;

    open spec fn view(&self) -> Seq<char> {
        self.message@
    }
}

/// `message` is a text in which `error` displays itself.
pub open spec fn describes(error: sqlx::Error, message: Seq<char>) -> bool {
    exists|text: String|
        text@ == message && #[trigger] to_string_from_display_ensures::<sqlx::Error>(&error, text)
}

/// What the store answered, with every record and every failure taken by its
/// view.
pub open spec fn outcome_view<T: DeepView>(outcome: Result<T, StoreError>) -> Result<
    T::V,
    Seq<char>,
> {
    match outcome {
        Ok(rows) => Ok(rows.deep_view()),
        Err(failure) => Err(failure@),
    }
}

/// Keeps of a driver error the text in which it displays itself, as
/// `to_string` returns it. Nothing more is known of that text here: what a
/// handler makes of it is stated for every text.
pub fn store_error(error: &sqlx::Error) -> (failure: StoreError)
    ensures
        describes(*error, failure@),
{
    StoreError { message: error.to_string() }
}

/// Turns the result of a driver call into the outcome that the handlers
/// read: rows pass through untouched, and an error keeps its text.
pub fn store_outcome<T>(result: Result<T, sqlx::Error>) -> (outcome: Result<T, StoreError>)
    ensures
        match result {
            Ok(rows) => outcome == Ok::<T, StoreError>(rows),
            Err(error) => outcome is Err && describes(error, outcome->Err_0@),
        },
{
    match result {
        Ok(rows) => Ok(rows),
        Err(error) => Err(store_error(&error)),
    }
}

} // verus!
