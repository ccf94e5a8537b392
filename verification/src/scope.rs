//! Scopes: namespaces that group collections.

use crate::collection::Collection;
use crate::database::{views, Database};
use crate::error::{Error, Result};
use vstd::prelude::*;

verus! {

/// A handle to a scope of a database. Every operation takes the database
/// that the handle came from.
#[derive(Debug)]
pub struct Scope {
    pub name: String,
}

impl Scope {
    /// The name of the scope.
    pub fn name(&self) -> (res: String)
        ensures
            res@ == self.name@,
    {
        self.name.clone()
    }

    /// The names of the collections of the scope, in the order of creation.
    pub fn collection_names(&self, db: &Database) -> (res: Result<Vec<String>>)
        ensures
            res is Ok,
            views(res->Ok_0@) == db@.collection_names(self.name@),
    {
        db.collection_names(self.name.clone())
    }

    /// The collection of that name in the scope, if it exists.
    /// `InvalidParameter` where the names break the naming rule.
    pub fn collection(&self, db: &Database, collection_name: String) -> (res: Result<
        Option<Collection>,
    >)
        ensures
            match res {
                Ok(Some(c)) => db@.lookup(self.name@, collection_name@) == Ok::<
                    Option<u64>,
                    Error,
                >(Some(c.key)) && c.scope@ == self.name@ && c.name@ == collection_name@,
                Ok(None) => db@.lookup(self.name@, collection_name@) == Ok::<Option<u64>, Error>(
                    None,
                ),
                Err(e) => db@.lookup(self.name@, collection_name@) == Err::<Option<u64>, Error>(
                    e,
                ),
            },
    {
        db.collection(collection_name, self.name.clone())
    }
}

} // verus!
