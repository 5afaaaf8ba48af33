use vstd::prelude::*;
use crate::models::games::Game;

verus! {

/// A reply without a body.
#[derive(PartialEq, Eq, Structural, Debug, Clone, Copy)]
pub enum Failure {
    NotFound,
    InternalServerError,
}

/// The HTTP status code of a failure.
pub open spec fn failure_code(f: Failure) -> u16 {
    match f {
        Failure::NotFound => 404,
        Failure::InternalServerError => 500,
    }
}

impl Failure {
    /// The HTTP status code of this failure.
    pub fn code(&self) -> (c: u16)
        ensures
            c == failure_code(*self),
            *self == Failure::NotFound ==> c == 404,
            *self == Failure::InternalServerError ==> c == 500,
    {
        match self {
            Failure::NotFound => 404,
            Failure::InternalServerError => 500,
        }
    }
}

/// Storage found no game under the reference that was looked up.
#[derive(PartialEq, Eq, Structural, Debug, Clone, Copy)]
pub struct RowNotFound;

/// What a lookup by reference answers: the game found, or `RowNotFound`.
pub open spec fn lookup_result_of(row: Option<Game>) -> Result<Option<Game>, RowNotFound> {
    match row {
        Some(g) => Ok(Some(g)),
        None => Err(RowNotFound),
    }
}

/// The reply to saving (posting or editing) a game: the saved game, else a
/// server error, whether storage failed or returned nothing.
pub open spec fn saved_game_reply_of<E>(outcome: Result<Option<Game>, E>) -> Result<Game, Failure> {
    match outcome {
        Ok(Some(g)) => Ok(g),
        _ => Err(Failure::InternalServerError),
    }
}

/// The reply to a lookup by reference: the game; not found where the lookup
/// answered nothing; a server error where it failed.
pub open spec fn lookup_reply_of<E>(outcome: Result<Option<Game>, E>) -> Result<Game, Failure> {
    match outcome {
        Ok(Some(g)) => Ok(g),
        Ok(None) => Err(Failure::NotFound),
        Err(_) => Err(Failure::InternalServerError),
    }
}

/// The reply to a request that either yields a value or fails: the value,
/// else a server error.
pub open spec fn value_reply_of<T, E>(outcome: Result<T, E>) -> Result<T, Failure> {
    match outcome {
        Ok(v) => Ok(v),
        Err(_) => Err(Failure::InternalServerError),
    }
}

/// Turns the row found by a lookup into its answer.
pub fn lookup_result(row: Option<Game>) -> (r: Result<Option<Game>, RowNotFound>)
    ensures
        r == lookup_result_of(row),
        row matches Some(g) ==> r == Ok::<Option<Game>, RowNotFound>(Some(g)),
        row is None ==> r == Err::<Option<Game>, RowNotFound>(RowNotFound),
{
    match row {
        Some(g) => Ok(Some(g)),
        None => Err(RowNotFound),
    }
}

/// The reply to posting or editing a game.
pub fn saved_game_reply<E>(outcome: Result<Option<Game>, E>) -> (r: Result<Game, Failure>)
    ensures
        r == saved_game_reply_of(outcome),
        outcome matches Ok(Some(g)) ==> r == Ok::<Game, Failure>(g),
        outcome matches Ok(None) ==> r == Err::<Game, Failure>(Failure::InternalServerError),
        outcome is Err ==> r == Err::<Game, Failure>(Failure::InternalServerError),
{
    match outcome {
        Ok(Some(g)) => Ok(g),
        _ => Err(Failure::InternalServerError),
    }
}

/// The reply to looking up one game.
pub fn lookup_reply<E>(outcome: Result<Option<Game>, E>) -> (r: Result<Game, Failure>)
    ensures
        r == lookup_reply_of(outcome),
        outcome matches Ok(Some(g)) ==> r == Ok::<Game, Failure>(g),
        outcome matches Ok(None) ==> r == Err::<Game, Failure>(Failure::NotFound),
        outcome is Err ==> r == Err::<Game, Failure>(Failure::InternalServerError),
{
    match outcome {
        Ok(Some(g)) => Ok(g),
        Ok(None) => Err(Failure::NotFound),
        Err(_) => Err(Failure::InternalServerError),
    }
}

/// The reply to listing the games or registering a customer.
pub fn value_reply<T, E>(outcome: Result<T, E>) -> (r: Result<T, Failure>)
    ensures
        r == value_reply_of(outcome),
        outcome matches Ok(v) ==> r == Ok::<T, Failure>(v),
        outcome is Err ==> r == Err::<T, Failure>(Failure::InternalServerError),
{
    match outcome {
        Ok(v) => Ok(v),
        Err(_) => Err(Failure::InternalServerError),
    }
}

/// A lookup of a reference that storage does not hold is answered with a
/// server error (500), not with "not found": the lookup reports the missing
/// row as a failure.
pub proof fn lemma_missing_game_is_server_error()
    ensures
        lookup_reply_of(lookup_result_of(None)) == Err::<Game, Failure>(Failure::InternalServerError),
        failure_code(Failure::InternalServerError) == 500,
{
}

/// A lookup that finds a game replies with exactly that game.
pub proof fn lemma_found_game_is_returned(g: Game)
    ensures
        lookup_reply_of(lookup_result_of(Some(g))) == Ok::<Game, Failure>(g),
{
}

} // verus!
