use vstd::prelude::*;

verus! {

/// A connected client as recorded in the shared state store.
///
/// Timestamps are plain milliseconds; the caller supplies the current time,
/// so every operation on a `User` is a pure function of its arguments.
#[derive(Debug, Clone)]
pub struct User {
    pub id: String,
    pub connected_at: u64,
    pub last_activity: u64,
}

impl User {
    /// A freshly connected user: both timestamps are the moment of connection.
    pub fn new(id: String, now: u64) -> (u: User)
        ensures
            u.id == id,
            u.connected_at == now,
            u.last_activity == now,
    {
        User { id, connected_at: now, last_activity: now }
    }
}

/// The shared document: whole-text content under a monotonic version counter.
#[derive(Debug, Clone)]
pub struct Document {
    pub content: String,
    pub version: u64,
    pub last_modified: u64,
}

impl Default for Document {
    /// The state of a document nobody has written yet: empty at version zero.
    fn default() -> (d: Document)
        ensures
            d.content@ == Seq::<char>::empty(),
            d.version == 0,
            d.last_modified == 0,
    {
        Document { content: String::new(), version: 0, last_modified: 0 }
    }
}

impl Document {
    /// Replaces the content wholesale and advances the version by exactly one.
    pub fn update(&mut self, content: &str, now: u64)
        requires
            old(self).version < u64::MAX,
        ensures
            final(self).content@ == content@,
            final(self).version == old(self).version + 1,
            final(self).last_modified == now,
    {
        self.content = content.to_string();
        self.version = self.version + 1;
        self.last_modified = now;
    }

    pub fn version(&self) -> (v: u64)
        ensures
            v == self.version,
    {
        self.version
    }

    pub fn content(&self) -> (c: &str)
        ensures
            c@ == self.content@,
    {
        self.content.as_str()
    }
}

} // verus!
