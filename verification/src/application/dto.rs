//! Transfer values of greetings.

use crate::domain::entities::{Greeting, GreetingView};
use vstd::prelude::*;
use vstd::std_specs::convert::FromSpecImpl;

verus! {

/// A greeting as it is shown, its creation time as RFC 3339 text.
#[derive(Debug)]
pub struct GreetingDto {
    pub id: String,
    pub message: String,
    pub language: String,
    pub created_at: String,
}

/// What a `GreetingDto` holds.
pub struct GreetingDtoView {
    pub id: Seq<char>,
    pub message: Seq<char>,
    pub language: Seq<char>,
    pub created_at: Seq<char>,
}

impl View for GreetingDto {
    type V = GreetingDtoView;

    open spec fn view(&self) -> GreetingDtoView {
        GreetingDtoView {
            id: self.id@,
            message: self.message@,
            language: self.language@,
            created_at: self.created_at@,
        }
    }
}

/// How a greeting is shown.
pub open spec fn greeting_dto(greeting: GreetingView) -> GreetingDtoView {
    GreetingDtoView {
        id: greeting.id,
        message: greeting.message,
        language: greeting.language,
        created_at: greeting.created_at.text(),
    }
}

impl From<Greeting> for GreetingDto {
    fn from(greeting: Greeting) -> (dto: Self)
        ensures
            dto@ == greeting_dto(greeting@),
    {
        GreetingDto {
            created_at: greeting.created_at.to_rfc3339(),
            id: greeting.id,
            message: greeting.message,
            language: greeting.language,
        }
    }
}

impl FromSpecImpl<Greeting> for GreetingDto {
    open spec fn obeys_from_spec() -> bool {
        false
    }

    open spec fn from_spec(greeting: Greeting) -> Self {
        choose|dto: Self| dto@ == greeting_dto(greeting@)
    }
}

impl From<&Greeting> for GreetingDto {
    fn from(greeting: &Greeting) -> (dto: Self)
        ensures
            dto@ == greeting_dto(greeting@),
    {
        GreetingDto {
            id: greeting.id.clone(),
            message: greeting.message.clone(),
            language: greeting.language.clone(),
            created_at: greeting.created_at.to_rfc3339(),
        }
    }
}

impl FromSpecImpl<&Greeting> for GreetingDto {
    open spec fn obeys_from_spec() -> bool {
        false
    }

    open spec fn from_spec(greeting: &Greeting) -> Self {
        choose|dto: Self| dto@ == greeting_dto(greeting@)
    }
}

/// What is asked for when a greeting is to be created. Without a language
/// the greeting is in English.
#[derive(Debug)]
pub struct CreateGreetingRequest {
    pub message: String,
    pub language: Option<String>,
}

#[derive(Debug)]
pub struct GreetingResponse {
    pub greeting: GreetingDto,
}

#[derive(Debug)]
pub struct GreetingsListResponse {
    pub greetings: Vec<GreetingDto>,
}

} // verus!
