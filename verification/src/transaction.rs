//! Transactions: brackets around writes, one inside the other, of which the
//! outermost decides whether the writes stay.

use crate::database::{clone_collections, engine_failure, Database, Snapshot};
use crate::error::{CouchbaseLiteError, Error, Result};
use vstd::prelude::*;

verus! {

impl Database {
    /// True while a transaction is open.
    pub fn is_in_transaction(&self) -> (res: bool)
        ensures
            res == (self@.depth > 0),
    {
        self.depth > 0
    }

    /// Opens a transaction; inside an open one, a nested one.
    pub fn begin_transaction(&mut self) -> (res: Result<()>)
        ensures
            final(self)@ == old(self)@.begin().0,
            res == old(self)@.begin().1,
    {
        if self.depth == 0 {
            let snapshot = Snapshot {
                collections: clone_collections(&self.collections),
                last_sequence: self.last_sequence,
                next_key: self.next_key,
            };
            self.snapshot = Some(snapshot);
            self.depth = 1;
            Ok(())
        } else if self.depth == u64::MAX {
            engine_failure(CouchbaseLiteError::MemoryError)
        } else {
            self.depth = self.depth + 1;
            Ok(())
        }
    }

    /// Ends the innermost open transaction. Only the end of the outermost
    /// one takes effect: it keeps the writes where `commit` is true, and
    /// puts the state of its start back otherwise. `NotInTransaction` where
    /// none is open.
    pub fn end_transaction(&mut self, commit: bool) -> (res: Result<()>)
        ensures
            final(self)@ == old(self)@.end(commit).0,
            res == old(self)@.end(commit).1,
    {
        if self.depth == 0 {
            return engine_failure(CouchbaseLiteError::NotInTransaction);
        }
        if self.depth > 1 {
            self.depth = self.depth - 1;
            return Ok(());
        }
        self.depth = 0;
        let saved = self.snapshot.take();
        if !commit {
            match saved {
                Some(s) => {
                    self.collections = s.collections;
                    self.last_sequence = s.last_sequence;
                    self.next_key = s.next_key;
                },
                None => {},
            }
        }
        Ok(())
    }

    /// Runs `callback` within a transaction, and commits it where the
    /// callback succeeds. The callback gets the database to work on and
    /// hands it back with its result.
    pub fn in_transaction<T, F: FnOnce(Database) -> (Database, Result<T>)>(
        self,
        callback: F,
    ) -> (res: (Database, Result<T>))
        requires
            forall|db: Database| callback.requires((db,)),
        ensures
            match self@.begin().1 {
                Err(e) => res.0@ == self@ && res.1 == Err::<T, Error>(e),
                Ok(()) => exists|given: Database, back: (Database, Result<T>)|
                    {
                        &&& given@ == self@.begin().0
                        &&& #[trigger] callback.ensures((given,), back)
                        &&& res.0@ == back.0@.end(back.1 is Ok).0
                        &&& match back.0@.end(back.1 is Ok).1 {
                            Ok(()) => res.1 == back.1,
                            Err(e) => res.1 == Err::<T, Error>(e),
                        }
                    },
            },
    {
        let mut db = self;
        match db.begin_transaction() {
            Err(e) => {
                return (db, Err(e));
            },
            Ok(()) => {},
        }
        let ghost given = db;
        let back = callback(db);
        let ghost returned = back;
        let (mut db, result) = back;
        let ok = result.is_ok();
        let ended = db.end_transaction(ok);
        assert(callback.ensures((given,), returned));
        match ended {
            Ok(()) => (db, result),
            Err(e) => (db, Err(e)),
        }
    }
}

} // verus!
