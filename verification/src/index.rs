//! Indexes: what they are built from, the handle of an existing one, and
//! the operations of a database on the indexes of a collection.

use crate::collection::Collection;
use crate::database::{engine_failure, views, Database, IndexEntry};
use crate::error::{CouchbaseLiteError, Error, Result};
use crate::model::{IndexDefinition, IndexView};
use crate::text::has_nul;
use vstd::prelude::*;

verus! {

/// The language in which the expressions of an index or a query are written.
#[derive(Clone, Copy, Debug, PartialEq, Eq, Structural)]
pub enum QueryLanguage {
    /// Expressions as a JSON array.
    JSON,
    /// Expressions in the relational query language, separated by commas.
    N1QL,
}

impl QueryLanguage {
    /// The number that the engine knows this language by.
    pub fn code(self) -> (res: u32)
        ensures
            res == match self {
                QueryLanguage::JSON => 0u32,
                QueryLanguage::N1QL => 1u32,
            },
    {
        match self {
            QueryLanguage::JSON => 0,
            QueryLanguage::N1QL => 1,
        }
    }
}

/// The kinds of index.
#[derive(Clone, Copy, Debug, PartialEq, Eq, Structural)]
pub enum IndexKind {
    /// An index over the values of one or more expressions.
    Value,
    /// An index over the elements of an array property.
    Array,
}

/// What a value index is built from: expressions, one for each column of
/// the index, and the language they are written in.
#[derive(Debug)]
pub struct ValueIndexConfiguration {
    pub query_language: QueryLanguage,
    pub expressions: String,
}

impl ValueIndexConfiguration {
    /// A value index configuration.
    pub fn new(query_language: QueryLanguage, expressions: &str) -> (res: Self)
        ensures
            res.query_language == query_language,
            res.expressions@ == expressions@,
    {
        ValueIndexConfiguration { query_language, expressions: expressions.to_owned() }
    }

    /// What an index with this configuration is built from.
    pub open spec fn definition(&self) -> IndexDefinition {
        IndexDefinition {
            kind: IndexKind::Value,
            language: self.query_language,
            path: Seq::empty(),
            expressions: self.expressions@,
        }
    }
}

/// What an array index is built from: the path to an array property, and
/// optional expressions over the elements of the array.
#[derive(Debug)]
pub struct ArrayIndexConfiguration {
    pub query_language: QueryLanguage,
    pub path: String,
    pub expressions: String,
}

impl ArrayIndexConfiguration {
    /// An array index configuration. `InvalidParameter` where the path or
    /// the expressions hold the character NUL.
    pub fn new(query_language: QueryLanguage, path: &str, expressions: &str) -> (res: Result<Self>)
        ensures
            match res {
                Ok(c) => !path@.contains('\0') && !expressions@.contains('\0') && c.query_language
                    == query_language && c.path@ == path@ && c.expressions@ == expressions@,
                Err(e) => (path@.contains('\0') || expressions@.contains('\0')) && e
                    == crate::model::engine_error(CouchbaseLiteError::InvalidParameter),
            },
    {
        if has_nul(path) || has_nul(expressions) {
            return engine_failure(CouchbaseLiteError::InvalidParameter);
        }
        Ok(
            ArrayIndexConfiguration {
                query_language,
                path: path.to_owned(),
                expressions: expressions.to_owned(),
            },
        )
    }

    /// What an index with this configuration is built from.
    pub open spec fn definition(&self) -> IndexDefinition {
        IndexDefinition {
            kind: IndexKind::Array,
            language: self.query_language,
            path: self.path@,
            expressions: self.expressions@,
        }
    }
}

/// The handle of an existing index of a collection.
#[derive(Debug)]
pub struct QueryIndex {
    pub name: String,
    pub collection: Collection,
}

impl QueryIndex {
    /// The index's name.
    pub fn name(&self) -> (res: String)
        ensures
            res@ == self.name@,
    {
        self.name.clone()
    }

    /// The collection that the index belongs to.
    pub fn collection(&self) -> (res: Collection)
        ensures
            res.key == self.collection.key,
            res.scope@ == self.collection.scope@,
            res.name@ == self.collection.name@,
    {
        Collection {
            key: self.collection.key,
            scope: self.collection.scope.clone(),
            name: self.collection.name.clone(),
        }
    }
}

impl Database {
    /// Creates `index` in the collection with `key`, in place of an index of
    /// the same name where there is one.
    pub(crate) fn create_index_in(&mut self, key: u64, index: IndexEntry) -> (res: Result<bool>)
        ensures
            final(self)@ == old(self)@.create_index(key, index@.name, index@.definition).0,
            res == old(self)@.create_index(key, index@.name, index@.definition).1,
    {
        let ci = self.find_key(key);
        if ci >= self.collections.len() {
            return engine_failure(CouchbaseLiteError::NotOpen);
        }
        let usable = match index.kind {
            IndexKind::Value => !index.expressions.as_str().is_empty(),
            IndexKind::Array => !index.path.as_str().is_empty(),
        };
        if index.name.as_str().is_empty() || !usable {
            return engine_failure(CouchbaseLiteError::InvalidParameter);
        }
        let at = self.collections[ci].find_index(index.name.as_str());
        let ghost target = index@;
        if at < self.collections[ci].indexes.len() {
            self.collections[ci].indexes[at] = index;
        } else {
            self.collections[ci].indexes.push(index);
        }
        proof {
            let model = old(self)@;
            let after = model.create_index(key, target.name, target.definition).0;
            assert(self@.collections[ci as int].indexes =~= after.collections[ci as int].indexes);
            assert(self@.collections[ci as int].records =~= after.collections[ci as int].records);
            assert(self@.collections =~= after.collections);
        }
        Ok(true)
    }

    /// Deletes the index `name` of the collection with `key`, if there is
    /// one.
    pub(crate) fn delete_index_in(&mut self, key: u64, name: &str) -> (res: Result<bool>)
        ensures
            final(self)@ == old(self)@.delete_index(key, name@).0,
            res == old(self)@.delete_index(key, name@).1,
    {
        let ci = self.find_key(key);
        if ci >= self.collections.len() {
            return engine_failure(CouchbaseLiteError::NotOpen);
        }
        let at = self.collections[ci].find_index(name);
        if at < self.collections[ci].indexes.len() {
            self.collections[ci].indexes.remove(at);
            proof {
                let after = old(self)@.delete_index(key, name@).0;
                assert(self@.collections[ci as int].indexes =~= after.collections[ci
                    as int].indexes);
                assert(self@.collections =~= after.collections);
            }
        }
        Ok(true)
    }

    /// The names of the indexes of the collection with `key`.
    pub(crate) fn index_names_in(&self, key: u64) -> (res: Result<Vec<String>>)
        ensures
            match res {
                Ok(names) => self@.index_names(key) == Ok::<Seq<Seq<char>>, Error>(views(names@)),
                Err(e) => self@.index_names(key) == Err::<Seq<Seq<char>>, Error>(e),
            },
    {
        let ci = self.find_key(key);
        if ci >= self.collections.len() {
            return engine_failure(CouchbaseLiteError::NotOpen);
        }
        let indexes = &self.collections[ci].indexes;
        let mut out: Vec<String> = Vec::new();
        let mut i: usize = 0;
        while i < indexes.len()
            invariant
                i <= indexes.len(),
                out.len() == i,
                forall|j: int| 0 <= j < i ==> (#[trigger] out[j])@ == indexes[j].name@,
            decreases indexes.len() - i,
        {
            out.push(indexes[i].name.clone());
            i += 1;
        }
        assert(views(out@) =~= self@.collection(key).index_names());
        Ok(out)
    }

    /// The index `name` of the collection `collection`.
    pub(crate) fn index_in(&self, collection: &Collection, name: &str) -> (res: Result<QueryIndex>)
        ensures
            match res {
                Ok(x) => self@.index(collection.key, name@) is Ok && x.name@ == name@
                    && x.collection.key == collection.key && x.collection.scope@
                    == collection.scope@ && x.collection.name@ == collection.name@,
                Err(e) => self@.index(collection.key, name@) == Err::<IndexView, Error>(e),
            },
    {
        let ci = self.find_key(collection.key);
        if ci >= self.collections.len() {
            return engine_failure(CouchbaseLiteError::NotOpen);
        }
        let at = self.collections[ci].find_index(name);
        if at >= self.collections[ci].indexes.len() {
            return engine_failure(CouchbaseLiteError::MissingIndex);
        }
        Ok(
            QueryIndex {
                name: name.to_owned(),
                collection: Collection {
                    key: collection.key,
                    scope: collection.scope.clone(),
                    name: collection.name.clone(),
                },
            },
        )
    }
}

} // verus!
