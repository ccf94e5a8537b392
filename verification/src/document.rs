//! Documents as callers hold them: an in-memory copy of an ID, a revision,
//! a sequence number and a dictionary of properties.

use crate::error::{CBLError, Error, Result};
use crate::value::{Dict, DictView};
use vstd::prelude::*;

verus! {

/// The identifier of one revision of a document. It changes on every save.
/// The generation counts the revisions that led to this one; the digest tells
/// revisions of one generation apart.
#[derive(Clone, Copy, Debug, PartialEq, Eq, Structural)]
pub struct RevisionId {
    pub generation: u64,
    pub digest: u64,
}

/// A point in time, in milliseconds since the Unix epoch.
#[derive(Clone, Copy, Debug, PartialEq, Eq, Structural)]
pub struct Timestamp {
    pub timestamp: i64,
}

impl Timestamp {
    /// The point in time `timestamp` milliseconds after the epoch.
    pub fn new(timestamp: i64) -> (res: Timestamp)
        ensures
            res.timestamp == timestamp,
    {
        Timestamp { timestamp }
    }

    /// Milliseconds since the epoch.
    pub fn get(&self) -> (res: i64)
        ensures
            res == self.timestamp,
    {
        self.timestamp
    }

    /// This point in time moved by `millis` milliseconds, stopping at the
    /// ends of the range of `i64`.
    pub fn add_millis(&self, millis: i64) -> (res: Timestamp)
        ensures
            res.timestamp == if self.timestamp + millis > i64::MAX {
                i64::MAX
            } else if self.timestamp + millis < i64::MIN {
                i64::MIN
            } else {
                (self.timestamp + millis) as i64
            },
    {
        if millis > 0 && self.timestamp > i64::MAX - millis {
            Timestamp { timestamp: i64::MAX }
        } else if millis < 0 && self.timestamp < i64::MIN - millis {
            Timestamp { timestamp: i64::MIN }
        } else {
            Timestamp { timestamp: self.timestamp + millis }
        }
    }
}

/// The expiration time of a document as the engine reports it: 0 for
/// none, a positive number for the time, and a negative number for an
/// error, which is then translated.
pub fn expiration_from_native(exp: i64, err: &CBLError) -> (res: Result<Option<Timestamp>>)
    ensures
        res == if exp == 0 {
            Ok::<Option<Timestamp>, Error>(None)
        } else if exp > 0 {
            Ok::<Option<Timestamp>, Error>(Some(Timestamp { timestamp: exp }))
        } else {
            Err::<Option<Timestamp>, Error>(Error::spec_new(*err))
        },
{
    if exp == 0 {
        Ok(None)
    } else if exp > 0 {
        Ok(Some(Timestamp::new(exp)))
    } else {
        Err(Error::new(err))
    }
}

/// The expiration time of a document as the engine takes it: 0 for none.
pub fn expiration_to_native(when: Option<Timestamp>) -> (res: i64)
    ensures
        res == match when {
            Some(t) => t.timestamp,
            None => 0,
        },
{
    match when {
        Some(t) => t.timestamp,
        None => 0,
    }
}

/// What a save or a delete does when the stored document is no longer the
/// revision that the in-memory copy was read from.
#[derive(Clone, Copy, Debug, PartialEq, Eq, Structural)]
pub enum ConcurrencyControl {
    /// The save or delete overwrites the conflicting revision.
    LastWriteWins,
    /// The save or delete fails with a conflict.
    FailOnConflict,
}

impl ConcurrencyControl {
    /// The number that the engine knows this policy by.
    pub fn code(self) -> (res: u8)
        ensures
            res == match self {
                ConcurrencyControl::LastWriteWins => 0u8,
                ConcurrencyControl::FailOnConflict => 1u8,
            },
    {
        match self {
            ConcurrencyControl::LastWriteWins => 0,
            ConcurrencyControl::FailOnConflict => 1,
        }
    }
}

/// An in-memory copy of a document.
#[derive(Debug)]
pub struct Document {
    pub id: String,
    pub revision: Option<RevisionId>,
    pub sequence: u64,
    /// True for a copy of a deleted document: a tombstone.
    pub deleted: bool,
    pub properties: Dict,
}

/// The mathematical value of a [`Document`].
pub struct DocumentView {
    pub id: Seq<char>,
    pub revision: Option<RevisionId>,
    pub sequence: u64,
    pub deleted: bool,
    pub properties: DictView,
}

impl View for Document {
    type V = DocumentView;

    open spec fn view(&self) -> DocumentView {
        DocumentView {
            id: self.id@,
            revision: self.revision,
            sequence: self.sequence,
            deleted: self.deleted,
            properties: self.properties@,
        }
    }
}

impl Document {
    /// A new, empty document with the given ID. It belongs to no database
    /// until it is saved: it has no revision, its sequence is 0, and it is
    /// not deleted.
    pub fn new_with_id(id: &str) -> (res: Document)
        ensures
            res@ == (DocumentView {
                id: id@,
                revision: None,
                sequence: 0,
                deleted: false,
                properties: Seq::empty(),
            }),
    {
        Document {
            id: id.to_owned(),
            revision: None,
            sequence: 0,
            deleted: false,
            properties: Dict::new(),
        }
    }

    /// The document's ID.
    pub fn id(&self) -> (res: &str)
        ensures
            res@ == self@.id,
    {
        self.id.as_str()
    }

    /// The revision that this copy was read from or saved as; `None` for a
    /// document that has not been saved.
    pub fn revision_id(&self) -> (res: Option<RevisionId>)
        ensures
            res == self@.revision,
    {
        self.revision
    }

    /// The sequence number that the database gave this revision; 0 for a
    /// document that has not been saved.
    pub fn sequence(&self) -> (res: u64)
        ensures
            res == self@.sequence,
    {
        self.sequence
    }

    /// True for a copy of a deleted document: the document's deleted flag.
    /// A document that has no properties is not deleted by that.
    pub fn is_deleted(&self) -> (res: bool)
        ensures
            res == self@.deleted,
    {
        self.deleted
    }

    /// The document's properties.
    pub fn properties(&self) -> (res: &Dict)
        ensures
            res@ == self@.properties,
    {
        &self.properties
    }

    /// The document's properties, to be changed in place.
    pub fn mutable_properties(&mut self) -> (res: &mut Dict)
        ensures
            *res == old(self).properties,
            *final(self) == (Document { properties: *final(res), ..*old(self) }),
    {
        &mut self.properties
    }

    /// Replaces the document's properties.
    pub fn set_properties(&mut self, properties: Dict)
        ensures
            final(self)@ == (DocumentView { properties: properties@, ..old(self)@ }),
    {
        self.properties = properties;
    }

    /// Sets one property of the document.
    pub fn set_property(&mut self, key: String, value: crate::value::Value)
        ensures
            final(self)@ == (DocumentView {
                properties: crate::value::dict_set(old(self)@.properties, key@, value@),
                ..old(self)@
            }),
    {
        self.properties.set(key, value);
    }

    /// A copy of this document.
    pub fn deep_clone(&self) -> (res: Document)
        ensures
            res@ == self@,
    {
        Document {
            id: self.id.clone(),
            revision: self.revision,
            sequence: self.sequence,
            deleted: self.deleted,
            properties: self.properties.deep_clone(),
        }
    }
}

} // verus!
