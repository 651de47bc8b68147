//! The store of greetings.

use crate::domain::entities::{Greeting, GreetingView};
use crate::domain::repositories::{GreetingRepository, Greetings};
use crate::infrastructure::memory::{delete_record, duplicate_all, find_record, save_record, Stored};
use crate::keyed::{
    as_map, distinct_keys, lemma_empty, lemma_with_record, lemma_without_key, views, with_record,
    without_key,
};
use vstd::prelude::*;

verus! {

impl Stored for Greeting {
    fn identifier(&self) -> (id: &String) {
        &self.id
    }

    fn duplicate(&self) -> (copy: Self) {
        self.clone()
    }
}

/// Greetings kept in memory, in the order in which their identifiers were
/// first saved.
pub struct InMemoryGreetingRepository {
    storage: Vec<Greeting>,
}

impl InMemoryGreetingRepository {
    #[verifier::type_invariant]
    spec fn no_identifier_twice(self) -> bool {
        distinct_keys(views(self.storage@))
    }

    /// The greetings in the order in which they are kept: that in which
    /// their identifiers were first saved. No identifier occurs twice.
    pub closed spec fn entries(&self) -> Seq<GreetingView> {
        views(self.storage@)
    }

    /// A store that holds nothing.
    pub fn new() -> (repository: Self)
        ensures
            repository.entries() == Seq::<GreetingView>::empty(),
            repository.greetings() == Greetings::empty(),
    {
        proof {
            lemma_empty::<GreetingView>();
        }
        InMemoryGreetingRepository { storage: Vec::new() }
    }

    /// Takes the greetings out, to be changed and put back.
    fn take_storage(&mut self) -> (storage: Vec<Greeting>)
        ensures
            storage == old(self).storage,
            distinct_keys(views(storage@)),
    {
        proof {
            use_type_invariant(&*self);
            lemma_empty::<GreetingView>();
        }
        let mut storage: Vec<Greeting> = Vec::new();
        std::mem::swap(&mut self.storage, &mut storage);
        storage
    }
}

impl Default for InMemoryGreetingRepository {
    fn default() -> (repository: Self)
        ensures
            repository.entries() == Seq::<GreetingView>::empty(),
            repository.greetings() == Greetings::empty(),
    {
        Self::new()
    }
}

impl GreetingRepository for InMemoryGreetingRepository {
    open spec fn greetings(&self) -> Greetings {
        as_map(self.entries())
    }

    open spec fn dependable() -> bool {
        true
    }

    fn save(&mut self, greeting: &Greeting) -> (saved: Result<(), String>)
        ensures
            final(self).entries() == with_record(old(self).entries(), greeting@),
            distinct_keys(final(self).entries()),
    {
        let mut storage = self.take_storage();
        proof {
            lemma_with_record(views(storage@), greeting@);
        }
        save_record(&mut storage, greeting);
        self.storage = storage;
        Ok(())
    }

    fn find_by_id(&self, id: &str) -> (found: Result<Option<Greeting>, String>) {
        proof {
            use_type_invariant(self);
        }
        Ok(find_record(&self.storage, id))
    }

    fn find_all(&self) -> (found: Result<Vec<Greeting>, String>)
        ensures
            found matches Ok(list) && views(list@) == self.entries(),
    {
        proof {
            use_type_invariant(self);
        }
        Ok(duplicate_all(&self.storage))
    }

    fn delete(&mut self, id: &str) -> (done: Result<(), String>)
        ensures
            final(self).entries() == without_key(old(self).entries(), id@),
            distinct_keys(final(self).entries()),
    {
        let mut storage = self.take_storage();
        proof {
            lemma_without_key(views(storage@), id@);
        }
        delete_record(&mut storage, id);
        self.storage = storage;
        Ok(())
    }
}

} // verus!
