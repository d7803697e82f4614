use vstd::prelude::*;
use crate::concmap::{
    DocMap, UserMap,
    doc_map_get, doc_map_insert, doc_map_new, doc_map_view, user_map_get, user_map_insert,
    user_map_len, user_map_new, user_map_remove, user_map_view,
};
use crate::hub::{hub_channel, hub_send, hub_subscribe};
use crate::codec::{user_count_json, user_count_message};
use crate::model::{Document, User};
use tokio::sync::broadcast::{Receiver, Sender};

verus! {

/// How many envelopes each subscriber's queue buffers before the oldest are
/// dropped.
pub const HUB_CAPACITY: usize = 1000;

/// The single source of truth: the document map, the active-user map, and
/// the hub's sender. Mutating methods take the store exclusively, so every
/// serialization of concurrent sessions is a sequence of these calls; the
/// contracts then pin what each step does to the two maps.
#[derive(Debug)]
pub struct AppState {
    documents: DocMap,
    users: UserMap,
    tx: Sender<String>,
}

impl AppState {
    /// The user records currently held, keyed by identifier text.
    pub closed spec fn users_view(self) -> Map<Seq<char>, User> {
        user_map_view(self.users)
    }

    /// The documents currently held, keyed by document key text.
    pub closed spec fn docs_view(self) -> Map<Seq<char>, Document> {
        doc_map_view(self.documents)
    }

    /// A store holding no users and no documents, with a fresh hub.
    pub fn new() -> (s: AppState)
        ensures
            s.users_view() == Map::<Seq<char>, User>::empty(),
            s.docs_view() == Map::<Seq<char>, Document>::empty(),
    {
        AppState {
            documents: doc_map_new(),
            users: user_map_new(),
            tx: hub_channel(HUB_CAPACITY),
        }
    }

    /// Registers a user under the given identifier — an upsert: re-adding an
    /// existing identifier overwrites its record — and returns the user count
    /// after the insertion.
    pub fn add_user(&mut self, user_id: String, now: u64) -> (count: usize)
        ensures
            final(self).users_view() == old(self).users_view().insert(
                user_id@,
                (User { id: user_id, connected_at: now, last_activity: now }),
            ),
            count == final(self).users_view().dom().len(),
            final(self).docs_view() == old(self).docs_view(),
    {
        let user = User::new(user_id.clone(), now);
        user_map_insert(&mut self.users, user_id, user);
        user_map_len(&self.users)
    }

    /// Removes the user if present — a no-op otherwise — and returns the
    /// user count after the removal.
    pub fn remove_user(&mut self, user_id: &str) -> (count: usize)
        ensures
            final(self).users_view() == old(self).users_view().remove(user_id@),
            count == final(self).users_view().dom().len(),
            final(self).docs_view() == old(self).docs_view(),
    {
        user_map_remove(&mut self.users, user_id);
        user_map_len(&self.users)
    }

    /// A point-in-time snapshot of how many users are registered.
    pub fn get_user_count(&self) -> (count: usize)
        ensures
            count == self.users_view().dom().len(),
    {
        user_map_len(&self.users)
    }

    /// Refreshes the user's activity timestamp; silently a no-op when the
    /// user is absent, as a race with a concurrent removal is tolerated.
    pub fn update_user_activity(&mut self, user_id: &str, now: u64)
        ensures
            final(self).docs_view() == old(self).docs_view(),
            old(self).users_view().dom().contains(user_id@) ==> final(self).users_view()
                == old(self).users_view().insert(
                    user_id@,
                    (User {
                        id: old(self).users_view()[user_id@].id,
                        connected_at: old(self).users_view()[user_id@].connected_at,
                        last_activity: now,
                    }),
                ),
            !old(self).users_view().dom().contains(user_id@) ==> final(self).users_view()
                == old(self).users_view(),
    {
        match user_map_get(&self.users, user_id) {
            Some(user) => {
                let refreshed = User {
                    id: user.id,
                    connected_at: user.connected_at,
                    last_activity: now,
                };
                user_map_insert(&mut self.users, user_id.to_string(), refreshed);
            }
            None => {}
        }
    }

    /// The user's last activity timestamp, if the user is registered.
    pub fn get_user_last_activity(&self, user_id: &str) -> (r: Option<u64>)
        ensures
            r == (if self.users_view().dom().contains(user_id@) {
                Some(self.users_view()[user_id@].last_activity)
            } else {
                None::<u64>
            }),
    {
        match user_map_get(&self.users, user_id) {
            Some(user) => Some(user.last_activity),
            None => None,
        }
    }

    /// A snapshot copy of the document under the key, if one exists.
    pub fn get_document(&self, key: &str) -> (r: Option<Document>)
        ensures
            r == (if self.docs_view().dom().contains(key@) {
                Some(self.docs_view()[key@])
            } else {
                None::<Document>
            }),
    {
        doc_map_get(&self.documents, key)
    }

    /// Get-or-create-then-mutate on one document key: replaces the content
    /// wholesale, advancing the version of the stored document — or of a
    /// fresh one at version zero — by exactly one. The store is held
    /// exclusively for the whole step, so concurrent updates to the key
    /// serialize and each produces the next version.
    pub fn update_document(&mut self, key: &str, content: &str, now: u64) -> (doc: Document)
        requires
            old(self).docs_view().dom().contains(key@) ==> old(self).docs_view()[key@].version
                < u64::MAX,
        ensures
            doc.content@ == content@,
            doc.version == stored_version(old(self).docs_view(), key@) + 1,
            doc.last_modified == now,
            final(self).docs_view() == old(self).docs_view().insert(key@, doc),
            final(self).users_view() == old(self).users_view(),
    {
        let mut doc = match doc_map_get(&self.documents, key) {
            Some(existing) => existing,
            None => Document::default(),
        };
        doc.update(content, now);
        let stored = Document {
            content: doc.content.clone(),
            version: doc.version,
            last_modified: doc.last_modified,
        };
        doc_map_insert(&mut self.documents, key.to_string(), stored);
        doc
    }

    /// A fresh hub subscription: it will see every envelope published after
    /// this call, in publish order, and nothing published before.
    pub fn subscribe(&self) -> (rx: Receiver<String>) {
        hub_subscribe(&self.tx)
    }

    /// Publishes one envelope to every current subscriber. Never blocks and
    /// never fails: a slow subscriber loses its own oldest backlog, an empty
    /// room swallows the message.
    pub fn publish(&self, msg: &String) {
        hub_send(&self.tx, msg);
    }

    /// Builds the user-count envelope for the given count, publishes it, and
    /// returns the exact text that went out.
    pub fn broadcast_user_count(&self, count: usize) -> (msg: String)
        ensures
            msg@ == user_count_json(count as int),
    {
        let msg = user_count_message(count);
        hub_send(&self.tx, &msg);
        msg
    }
}

/// The version a key carries in the map: its document's counter, or zero
/// where no document exists yet.
pub open spec fn stored_version(docs: Map<Seq<char>, Document>, key: Seq<char>) -> u64 {
    if docs.dom().contains(key) {
        docs[key].version
    } else {
        0
    }
}

} // verus!
