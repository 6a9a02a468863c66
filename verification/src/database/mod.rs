use crate::errors::error::CoreError;
use vstd::prelude::*;

pub mod token;
pub mod user;

verus! {

/// What a store of entities of one kind offers.
pub trait Repository<T> {
    /// Stores a new entity and returns it as it is stored.
    fn create(&mut self, entity: &T) -> Result<T, CoreError>;

    /// The entity with the id, if there is one.
    fn find_by_id(&self, id: &str) -> Result<Option<T>, CoreError>;

    /// Replaces the entity with the id and returns it as it is stored.
    fn update(&mut self, id: &str, entity: &T) -> Result<T, CoreError>;

    /// Deletes the entity with the id and says whether there was one.
    fn delete(&mut self, id: &str) -> Result<bool, CoreError>;

    /// The entities after the first `offset`, at most `limit` of them.
    fn find_all(&self, limit: Option<usize>, offset: Option<usize>) -> Result<Vec<T>, CoreError>;
}

} // verus!
