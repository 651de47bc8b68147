//! Greetings.

use crate::domain::identity::{is_uuid_text, random_uuid_text};
use crate::domain::timestamp::Timestamp;
use crate::keyed::Keyed;
use vstd::prelude::*;

verus! {

/// A greeting in some language.
#[derive(Debug)]
pub struct Greeting {
    pub id: String,
    pub message: String,
    pub language: String,
    pub created_at: Timestamp,
}

/// What a `Greeting` holds.
pub struct GreetingView {
    pub id: Seq<char>,
    pub message: Seq<char>,
    pub language: Seq<char>,
    pub created_at: Timestamp,
}

impl Keyed for GreetingView {
    open spec fn key(self) -> Seq<char> {
        self.id
    }
}

impl View for Greeting {
    type V = GreetingView;

    open spec fn view(&self) -> GreetingView {
        GreetingView {
            id: self.id@,
            message: self.message@,
            language: self.language@,
            created_at: self.created_at,
        }
    }
}

impl Clone for Greeting {
    fn clone(&self) -> (copy: Self)
        ensures
            copy == *self,
    {
        Greeting {
            id: self.id.clone(),
            message: self.message.clone(),
            language: self.language.clone(),
            created_at: self.created_at,
        }
    }
}

/// The message of the default greeting.
pub open spec fn hello_world() -> Seq<char> {
    "Hello, World!"@
}

/// The language of the default greeting, and of one created without a
/// language.
pub open spec fn english() -> Seq<char> {
    "en"@
}

impl Greeting {
    /// The greeting with the given identifier and creation time.
    pub fn with_identity(id: String, created_at: Timestamp, message: String, language: String) -> (
        greeting: Self)
        ensures
            greeting@ == (GreetingView {
                id: id@,
                message: message@,
                language: language@,
                created_at,
            }),
    {
        Greeting { id, message, language, created_at }
    }

    /// A new greeting, with a random identifier and the current time.
    pub fn new(message: String, language: String) -> (greeting: Self)
        ensures
            greeting@ == (GreetingView {
                id: greeting@.id,
                message: message@,
                language: language@,
                created_at: greeting@.created_at,
            }),
            is_uuid_text(greeting@.id),
    {
        Self::with_identity(random_uuid_text(), Timestamp::now(), message, language)
    }

    /// A new greeting to the world, in English.
    pub fn default_hello_world() -> (greeting: Self)
        ensures
            greeting@ == (GreetingView {
                id: greeting@.id,
                message: hello_world(),
                language: english(),
                created_at: greeting@.created_at,
            }),
            is_uuid_text(greeting@.id),
    {
        Self::new(String::from_str("Hello, World!"), String::from_str("en"))
    }
}

} // verus!
