//! The use cases of greetings.

use crate::application::dto::{
    greeting_dto, CreateGreetingRequest, GreetingDto, GreetingDtoView, GreetingResponse,
    GreetingsListResponse,
};
use crate::domain::entities::{english, hello_world, Greeting, GreetingView};
use crate::domain::repositories::Greetings;
use crate::domain::services::{create_greeting_outcome, GreetingService};
use crate::keyed::{lists_all, views};
use vstd::prelude::*;

verus! {

/// The language of a request, English where it names none.
pub open spec fn requested_language(language: Option<String>) -> Seq<char> {
    match language {
        Some(l) => l@,
        None => english(),
    }
}

/// The shown greetings are those of a listing of all greetings.
pub open spec fn shows_all_greetings(shown: Seq<GreetingDtoView>, greetings: Greetings) -> bool {
    exists|listing: Seq<GreetingView>| #[trigger]
        lists_all(listing, greetings) && shown == listing.map_values(
            |g: GreetingView| greeting_dto(g),
        )
}

/// Shows the default greeting.
pub trait GetDefaultGreetingUseCase<G: GreetingService> {
    fn execute(&self, service: &G) -> (response: Result<GreetingResponse, String>)
        ensures
            response matches Ok(shown) && shown.greeting@.message == hello_world()
                && shown.greeting@.language == english(),
    ;
}

/// Creates a greeting and shows it.
pub trait CreateGreetingUseCase<G: GreetingService> {
    fn execute(&self, service: &mut G, request: CreateGreetingRequest) -> (response: Result<
        GreetingResponse,
        String,
    >)
        ensures
            match response {
                Ok(shown) => exists|greeting: Greeting| #[trigger]
                    create_greeting_outcome(
                        G::dependable(),
                        old(service).greetings(),
                        final(service).greetings(),
                        request.message@,
                        requested_language(request.language),
                        Ok(greeting),
                    ) && shown.greeting@ == greeting_dto(greeting@),
                Err(_) => !G::dependable() && final(service).greetings() == old(
                    service,
                ).greetings(),
            },
    ;
}

/// Shows all greetings.
pub trait ListGreetingsUseCase<G: GreetingService> {
    fn execute(&self, service: &G) -> (response: Result<GreetingsListResponse, String>)
        ensures
            match response {
                Ok(shown) => shows_all_greetings(views(shown.greetings@), service.greetings()),
                Err(_) => !G::dependable(),
            },
    ;
}

pub struct GetDefaultGreetingUseCaseImpl;

impl GetDefaultGreetingUseCaseImpl {
    pub fn new() -> Self {
        GetDefaultGreetingUseCaseImpl
    }
}

impl<G: GreetingService> GetDefaultGreetingUseCase<G> for GetDefaultGreetingUseCaseImpl {
    fn execute(&self, service: &G) -> (response: Result<GreetingResponse, String>) {
        let greeting = service.get_default_greeting()?;
        Ok(GreetingResponse { greeting: GreetingDto::from(greeting) })
    }
}

pub struct CreateGreetingUseCaseImpl;

impl CreateGreetingUseCaseImpl {
    pub fn new() -> Self {
        CreateGreetingUseCaseImpl
    }
}

impl<G: GreetingService> CreateGreetingUseCase<G> for CreateGreetingUseCaseImpl {
    fn execute(&self, service: &mut G, request: CreateGreetingRequest) -> (response: Result<
        GreetingResponse,
        String,
    >) {
        let language = match request.language {
            Some(l) => l,
            None => String::from_str("en"),
        };
        match service.create_greeting(request.message, language) {
            Ok(greeting) => {
                let ghost stored = greeting;
                let shown = GreetingDto::from(greeting);
                assert(create_greeting_outcome(
                    G::dependable(),
                    old(service).greetings(),
                    service.greetings(),
                    request.message@,
                    requested_language(request.language),
                    Ok(stored),
                ));
                Ok(GreetingResponse { greeting: shown })
            },
            Err(e) => Err(e),
        }
    }
}

pub struct ListGreetingsUseCaseImpl;

impl ListGreetingsUseCaseImpl {
    pub fn new() -> Self {
        ListGreetingsUseCaseImpl
    }
}

impl<G: GreetingService> ListGreetingsUseCase<G> for ListGreetingsUseCaseImpl {
    fn execute(&self, service: &G) -> (response: Result<GreetingsListResponse, String>) {
        let list = service.list_greetings()?;
        let mut greetings: Vec<GreetingDto> = Vec::new();
        let mut k: usize = 0;
        while k < list.len()
            invariant
                k <= list.len(),
                greetings@.len() == k,
                forall|m: int|
                    0 <= m < k ==> (#[trigger] greetings@[m])@ == greeting_dto(list@[m]@),
            decreases list.len() - k,
        {
            greetings.push(GreetingDto::from(&list[k]));
            k += 1;
        }
        assert(views(greetings@) =~= views(list@).map_values(|g: GreetingView| greeting_dto(g)));
        Ok(GreetingsListResponse { greetings })
    }
}

} // verus!
