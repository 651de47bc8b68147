//! The greeting service.

use crate::domain::entities::{english, hello_world, Greeting, GreetingView};
use crate::domain::identity::is_uuid_text;
use crate::domain::repositories::{GreetingRepository, Greetings};
use crate::domain::store::{find_outcome, list_outcome};
use vstd::prelude::*;

verus! {

/// What creating a greeting may do: a new greeting with the given message
/// and language is stored and returned. A store that is not dependable may
/// refuse, and then holds what it held.
pub open spec fn create_greeting_outcome(
    dependable: bool,
    before: Greetings,
    after: Greetings,
    message: Seq<char>,
    language: Seq<char>,
    created: Result<Greeting, String>,
) -> bool {
    match created {
        Ok(greeting) => {
            &&& greeting@ == (GreetingView {
                id: greeting@.id,
                message,
                language,
                created_at: greeting@.created_at,
            })
            &&& is_uuid_text(greeting@.id)
            &&& after == before.insert(greeting@.id, greeting@)
        },
        Err(_) => !dependable && after == before,
    }
}

/// Everything that can be done with greetings.
pub trait GreetingService {
    /// The greetings that the service holds.
    spec fn greetings(&self) -> Greetings;

    /// Whether the store behind the service fails only where a contract says
    /// so.
    spec fn dependable() -> bool;

    /// Stores a new greeting with a random identifier and returns it.
    fn create_greeting(&mut self, message: String, language: String) -> (created: Result<
        Greeting,
        String,
    >)
        ensures
            create_greeting_outcome(
                Self::dependable(),
                old(self).greetings(),
                final(self).greetings(),
                message@,
                language@,
                created,
            ),
    ;

    /// The greeting called `id`, if there is one.
    fn get_greeting(&self, id: &str) -> (found: Result<Option<Greeting>, String>)
        ensures
            find_outcome(Self::dependable(), self.greetings(), id@, found),
    ;

    /// A new greeting to the world, in English. It is not stored.
    fn get_default_greeting(&self) -> (found: Result<Greeting, String>)
        ensures
            found matches Ok(greeting) && greeting@.message == hello_world() && greeting@.language
                == english() && is_uuid_text(greeting@.id),
    ;

    /// All greetings, in no particular order.
    fn list_greetings(&self) -> (found: Result<Vec<Greeting>, String>)
        ensures
            list_outcome(Self::dependable(), self.greetings(), found),
    ;
}

/// The service over a store of greetings.
pub struct GreetingServiceImpl<R: GreetingRepository> {
    repository: R,
}

impl<R: GreetingRepository> GreetingServiceImpl<R> {
    /// The service over the given store, with the greetings that it holds.
    pub fn new(repository: R) -> (service: Self)
        ensures
            service.greetings() == repository.greetings(),
    {
        GreetingServiceImpl { repository }
    }
}

impl<R: GreetingRepository> GreetingService for GreetingServiceImpl<R> {
    closed spec fn greetings(&self) -> Greetings {
        self.repository.greetings()
    }

    open spec fn dependable() -> bool {
        R::dependable()
    }

    fn create_greeting(&mut self, message: String, language: String) -> (created: Result<
        Greeting,
        String,
    >) {
        let greeting = Greeting::new(message, language);
        match self.repository.save(&greeting) {
            Ok(_) => Ok(greeting),
            Err(e) => Err(e),
        }
    }

    fn get_greeting(&self, id: &str) -> (found: Result<Option<Greeting>, String>) {
        self.repository.find_by_id(id)
    }

    fn get_default_greeting(&self) -> (found: Result<Greeting, String>) {
        Ok(Greeting::default_hello_world())
    }

    fn list_greetings(&self) -> (found: Result<Vec<Greeting>, String>) {
        self.repository.find_all()
    }
}

} // verus!
