//! What the greeting service asks of its store.

use crate::domain::entities::{Greeting, GreetingView};
use crate::domain::store::{delete_outcome, find_outcome, list_outcome, save_outcome};
use vstd::prelude::*;

verus! {

/// The greetings of a store, each under its identifier.
pub type Greetings = Map<Seq<char>, GreetingView>;

/// A store of greetings, told apart by their identifiers.
pub trait GreetingRepository {
    /// The greetings that the store holds.
    spec fn greetings(&self) -> Greetings;

    /// Whether the store fails only where a contract says so.
    spec fn dependable() -> bool;

    /// Inserts the greeting, or overwrites the one of the same identifier.
    fn save(&mut self, greeting: &Greeting) -> (saved: Result<(), String>)
        ensures
            save_outcome(
                Self::dependable(),
                old(self).greetings(),
                final(self).greetings(),
                greeting@,
                saved,
            ),
    ;

    /// The greeting called `id`, if the store holds it.
    fn find_by_id(&self, id: &str) -> (found: Result<Option<Greeting>, String>)
        ensures
            find_outcome(Self::dependable(), self.greetings(), id@, found),
    ;

    /// All greetings, in no particular order.
    fn find_all(&self) -> (found: Result<Vec<Greeting>, String>)
        ensures
            list_outcome(Self::dependable(), self.greetings(), found),
    ;

    /// Removes the greeting called `id`, if the store holds it.
    fn delete(&mut self, id: &str) -> (done: Result<(), String>)
        ensures
            delete_outcome(
                Self::dependable(),
                old(self).greetings(),
                final(self).greetings(),
                id@,
                done,
            ),
    ;
}

} // verus!
