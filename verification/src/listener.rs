//! Change notifications: listeners register for the changes of a collection
//! or of one document, and the database queues a notification for each
//! listener that a change concerns. The owner of the database delivers what
//! is queued, at once or, in buffered mode, when it chooses.

use crate::database::{engine_failure, views, Change, Database, ListenerEntry};
use crate::error::{CouchbaseLiteError, Error, Result};
use crate::model::{changes_without, listeners_without, ChangeView};
use vstd::prelude::*;

verus! {

/// The token of a registered listener. The listener is told of changes
/// until the token is handed back to `remove_listener`.
#[derive(Debug)]
pub struct ListenerToken {
    pub token: u64,
}

/// The listeners other than the one with `token`.
fn keep_other_listeners(all: Vec<ListenerEntry>, token: u64) -> (res: Vec<ListenerEntry>)
    ensures
        views(res@) == listeners_without(views(all@), token),
{
    let ghost given = views(all@);
    let mut out: Vec<ListenerEntry> = Vec::new();
    for l in it: all
        invariant
            it.seq() == all@,
            given == views(all@),
            views(out@) == listeners_without(given.take(it.index() as int), token),
    {
        let ghost before = given.take(it.index() as int);
        let ghost now = given.take(it.index() + 1);
        assert(now.drop_last() =~= before);
        assert(now.last() == l@);
        if l.token != token {
            out.push(l);
            assert(views(out@) =~= listeners_without(before, token).push(now.last()));
        }
    }
    assert(given.take(all.len() as int) =~= given);
    out
}

/// The changes other than those for the listener with `token`.
fn keep_other_changes(all: Vec<Change>, token: u64) -> (res: Vec<Change>)
    ensures
        views(res@) == changes_without(views(all@), token),
{
    let ghost given = views(all@);
    let mut out: Vec<Change> = Vec::new();
    for c in it: all
        invariant
            it.seq() == all@,
            given == views(all@),
            views(out@) == changes_without(given.take(it.index() as int), token),
    {
        let ghost before = given.take(it.index() as int);
        let ghost now = given.take(it.index() + 1);
        assert(now.drop_last() =~= before);
        assert(now.last() == c@);
        if c.token != token {
            out.push(c);
            assert(views(out@) =~= changes_without(before, token).push(now.last()));
        }
    }
    assert(given.take(all.len() as int) =~= given);
    out
}

impl Database {
    /// Registers a listener for the collection with `key`: for one document
    /// where `doc_id` names one, for all of them otherwise.
    pub(crate) fn add_listener_in(&mut self, key: u64, doc_id: Option<String>) -> (res: Result<
        ListenerToken,
    >)
        ensures
            final(self)@ == old(self)@.add_listener(key, spec_doc_id(doc_id)).0,
            match res {
                Ok(t) => old(self)@.add_listener(key, spec_doc_id(doc_id)).1 == Ok::<u64, Error>(
                    t.token,
                ),
                Err(e) => old(self)@.add_listener(key, spec_doc_id(doc_id)).1 == Err::<u64, Error>(
                    e,
                ),
            },
    {
        if self.next_token == u64::MAX {
            return engine_failure(CouchbaseLiteError::MemoryError);
        }
        let token = self.next_token;
        self.listeners.push(ListenerEntry { token, collection: key, doc_id });
        self.next_token = token + 1;
        proof {
            let after = old(self)@.add_listener(key, spec_doc_id(doc_id)).0;
            assert(self@.listeners =~= after.listeners);
        }
        Ok(ListenerToken { token })
    }

    /// Removes the listener with the token: it is told of no further change,
    /// and what was queued for it is dropped.
    pub fn remove_listener(&mut self, token: ListenerToken)
        ensures
            final(self)@ == old(self)@.remove_listener(token.token),
    {
        let mut listeners: Vec<ListenerEntry> = Vec::new();
        core::mem::swap(&mut listeners, &mut self.listeners);
        let mut outbox: Vec<Change> = Vec::new();
        core::mem::swap(&mut outbox, &mut self.outbox);
        self.listeners = keep_other_listeners(listeners, token.token);
        self.outbox = keep_other_changes(outbox, token.token);
    }

    /// Puts the database in buffered-notification mode: notifications are
    /// queued until `send_notifications` is called.
    pub fn buffer_notifications(&mut self)
        ensures
            final(self)@ == old(self)@.buffer(),
    {
        self.buffering = true;
    }

    /// True when the owner is to be told now that notifications wait. In
    /// buffered mode this is true once for each batch of notifications: the
    /// next call returns false until the batch was sent.
    pub fn take_ready_signal(&mut self) -> (res: bool)
        ensures
            res == old(self)@.ready(),
            final(self)@ == old(self)@.signal(),
    {
        let ready = self.buffering && !self.signalled && self.outbox.len() > 0;
        if ready {
            self.signalled = true;
        }
        ready
    }

    /// Delivers all notifications that wait: returns them in the order in
    /// which they were queued, and leaves none.
    pub fn send_notifications(&mut self) -> (res: Vec<Change>)
        ensures
            views(res@) == old(self)@.outbox,
            final(self)@ == old(self)@.delivered(),
    {
        let mut out: Vec<Change> = Vec::new();
        core::mem::swap(&mut out, &mut self.outbox);
        self.signalled = false;
        proof {
            assert(self@.outbox =~= Seq::<ChangeView>::empty());
        }
        out
    }

    /// Delivers the notifications that are due without being asked for:
    /// outside buffered mode all that wait, in buffered mode none.
    pub fn immediate_notifications(&mut self) -> (res: Vec<Change>)
        ensures
            views(res@) == old(self)@.due(),
            final(self)@ == if old(self)@.buffering {
                old(self)@
            } else {
                old(self)@.delivered()
            },
    {
        if self.buffering {
            let out: Vec<Change> = Vec::new();
            assert(views(out@) =~= Seq::<ChangeView>::empty());
            out
        } else {
            self.send_notifications()
        }
    }
}

/// The strings among `raw` that are present, in order.
pub open spec fn present(raw: Seq<Option<String>>) -> Seq<Seq<char>>
    decreases raw.len(),
{
    if raw.len() == 0 {
        Seq::empty()
    } else {
        let before = present(raw.drop_last());
        match raw.last() {
            Some(s) => before.push(s@),
            None => before,
        }
    }
}

/// The IDs of the changed documents that a listener is told of: those
/// that the engine reported as text, in order.
pub fn changed_document_ids(raw: &Vec<Option<String>>) -> (res: Vec<String>)
    ensures
        views(res@) == present(raw@),
{
    let mut out: Vec<String> = Vec::new();
    let mut i: usize = 0;
    while i < raw.len()
        invariant
            i <= raw.len(),
            views(out@) == present(raw@.take(i as int)),
        decreases raw.len() - i,
    {
        let ghost before = raw@.take(i as int);
        let ghost now = raw@.take(i + 1);
        assert(now.drop_last() =~= before);
        assert(now.last() == raw[i as int]);
        match &raw[i] {
            Some(s) => {
                out.push(s.clone());
                assert(views(out@) =~= present(before).push(s@));
            },
            None => {},
        }
        i += 1;
    }
    assert(raw@.take(i as int) =~= raw@);
    out
}

/// The names that the engine reported, each as text: a name that is no
/// text becomes the empty name.
pub fn names_or_empty(raw: &Vec<Option<String>>) -> (res: Vec<String>)
    ensures
        res.len() == raw.len(),
        forall|i: int|
            0 <= i < raw.len() ==> (#[trigger] res[i])@ == match raw[i] {
                Some(s) => s@,
                None => Seq::<char>::empty(),
            },
{
    let mut out: Vec<String> = Vec::new();
    let mut i: usize = 0;
    while i < raw.len()
        invariant
            i <= raw.len(),
            out.len() == i,
            forall|j: int|
                0 <= j < i ==> (#[trigger] out[j])@ == match raw[j] {
                    Some(s) => s@,
                    None => Seq::<char>::empty(),
                },
        decreases raw.len() - i,
    {
        match &raw[i] {
            Some(s) => out.push(s.clone()),
            None => out.push(String::new()),
        }
        i += 1;
    }
    out
}

/// The mathematical value of an optional document ID.
pub open spec fn spec_doc_id(doc_id: Option<String>) -> Option<Seq<char>> {
    match doc_id {
        Some(id) => Some(id@),
        None => None,
    }
}

} // verus!
