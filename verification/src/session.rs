use vstd::prelude::*;
use crate::codec::{content_update_json, content_update_message, user_count_json};
use crate::model::User;
use crate::router::{handle_text_message, route_effect};
use crate::store::{stored_version, AppState};

verus! {

// The per-connection session: a probe validates the transport before the
// user may occupy a slot, registration and teardown each broadcast the user
// count exactly once, and between them the two duties feed the router and
// relay the hub. The phase order below is enforced by the contracts: each
// transition demands the phase its arrow leaves from, so no session can
// register twice, skip its probe, or tear down more than once.

/// The lifecycle of one connection.
#[derive(Debug, Clone, Copy, PartialEq, Eq, Structural)]
pub enum SessionPhase {
    Connecting,
    Probing,
    Active,
    Closing,
    Closed,
}

/// One frame of the inbound duty, as the transport layer reports it.
#[derive(Debug)]
pub enum InboundEvent {
    /// A text frame, to be routed.
    Text(String),
    /// The peer asked to close.
    CloseFrame,
    /// Receiving failed; terminal for this session only.
    TransportError,
    /// A frame of another kind, ignored.
    Other,
}

/// One connection's session state.
pub struct Session {
    pub phase: SessionPhase,
    pub user_id: String,
}

/// Relies on uuid::Uuid::new_v4 and its hyphenated text form: a freshly
/// drawn random identifier of 36 characters. The draw is random, so nothing
/// beyond the length is promised.
#[verifier::external_body]
fn fresh_user_id() -> (id: String)
    ensures
        id@.len() == 36,
{
    uuid::Uuid::new_v4().to_string()
}

impl Session {
    /// A session for a just-accepted connection, under a fresh identifier.
    pub fn new() -> (s: Session)
        ensures
            s.phase == SessionPhase::Connecting,
            s.user_id@.len() == 36,
    {
        Session { phase: SessionPhase::Connecting, user_id: fresh_user_id() }
    }

    /// The liveness probe: the envelope carrying the current document
    /// snapshot — empty at version zero when nothing was written yet — which
    /// the transport must deliver under the deadline before the session may
    /// register.
    pub fn start_probe(&mut self, state: &AppState) -> (msg: String)
        requires
            old(self).phase == SessionPhase::Connecting,
        ensures
            final(self).phase == SessionPhase::Probing,
            final(self).user_id == old(self).user_id,
            msg@ == content_update_json(
                snapshot_content(*state),
                stored_version(state.docs_view(), "default"@),
            ),
    {
        self.phase = SessionPhase::Probing;
        match state.get_document("default") {
            Some(doc) => content_update_message(doc.content(), doc.version()),
            None => {
                proof {
                    reveal_strlit("");
                    assert(""@ =~= Seq::<char>::empty());
                }
                content_update_message("", 0)
            },
        }
    }

    /// The probe's outcome decides the session's fate. On success the user
    /// is registered and the returned envelope — the incremented count,
    /// published exactly once, here — goes out. On failure the connection is
    /// abandoned: no registration, no broadcast, nothing left in the store.
    pub fn on_probe_result(&mut self, state: &mut AppState, ok: bool, now: u64) -> (published:
        Option<String>)
        requires
            old(self).phase == SessionPhase::Probing,
        ensures
            final(self).user_id == old(self).user_id,
            !ok ==> {
                &&& final(self).phase == SessionPhase::Closed
                &&& *final(state) == *old(state)
                &&& published is None
            },
            ok ==> {
                &&& final(self).phase == SessionPhase::Active
                &&& final(state).users_view() == old(state).users_view().insert(
                    old(self).user_id@,
                    (User {
                        id: old(self).user_id,
                        connected_at: now,
                        last_activity: now,
                    }),
                )
                &&& final(state).docs_view() == old(state).docs_view()
                &&& match published {
                    Some(m) => m@ == user_count_json(
                        final(state).users_view().dom().len() as int,
                    ),
                    None => false,
                }
            },
    {
        if ok {
            self.phase = SessionPhase::Active;
            let count = state.add_user(self.user_id.clone(), now);
            Some(state.broadcast_user_count(count))
        } else {
            self.phase = SessionPhase::Closed;
            None
        }
    }

    /// One step of the inbound duty: text frames go through the message
    /// router, a close frame or a transport error moves the session into
    /// teardown, any other frame is ignored.
    pub fn on_inbound(&mut self, state: &mut AppState, event: InboundEvent, now: u64) -> (published:
        Option<String>)
        requires
            old(self).phase == SessionPhase::Active,
        ensures
            final(self).user_id == old(self).user_id,
            (match event {
                InboundEvent::Text(text) => {
                    &&& final(self).phase == SessionPhase::Active
                    &&& route_effect(*old(state), *final(state), text@, now, published)
                },
                InboundEvent::CloseFrame => {
                    &&& final(self).phase == SessionPhase::Closing
                    &&& *final(state) == *old(state)
                    &&& published is None
                },
                InboundEvent::TransportError => {
                    &&& final(self).phase == SessionPhase::Closing
                    &&& *final(state) == *old(state)
                    &&& published is None
                },
                InboundEvent::Other => {
                    &&& final(self).phase == SessionPhase::Active
                    &&& *final(state) == *old(state)
                    &&& published is None
                },
            }),
    {
        match event {
            InboundEvent::Text(text) => handle_text_message(state, text.as_str(), now),
            InboundEvent::CloseFrame => {
                self.phase = SessionPhase::Closing;
                None
            },
            InboundEvent::TransportError => {
                self.phase = SessionPhase::Closing;
                None
            },
            InboundEvent::Other => None,
        }
    }

    /// Either duty ending — the outbound relay failing or the hub closing,
    /// as much as a close frame — moves the session into teardown; its
    /// sibling duty is cancelled.
    pub fn begin_close(&mut self)
        requires
            old(self).phase == SessionPhase::Active || old(self).phase == SessionPhase::Closing,
        ensures
            final(self).phase == SessionPhase::Closing,
            final(self).user_id == old(self).user_id,
    {
        self.phase = SessionPhase::Closing;
    }

    /// Teardown, run exactly once per registered session: deregisters the
    /// user and returns the envelope — the decremented count, published
    /// exactly once, here — that went out.
    pub fn finish_close(&mut self, state: &mut AppState) -> (msg: String)
        requires
            old(self).phase == SessionPhase::Closing,
        ensures
            final(self).phase == SessionPhase::Closed,
            final(self).user_id == old(self).user_id,
            final(state).users_view() == old(state).users_view().remove(old(self).user_id@),
            final(state).docs_view() == old(state).docs_view(),
            msg@ == user_count_json(final(state).users_view().dom().len() as int),
    {
        self.phase = SessionPhase::Closed;
        let count = state.remove_user(self.user_id.as_str());
        state.broadcast_user_count(count)
    }
}

/// The content of the shared document, or nothing-yet as the empty text.
pub open spec fn snapshot_content(state: AppState) -> Seq<char> {
    if state.docs_view().dom().contains("default"@) {
        state.docs_view()["default"@].content@
    } else {
        Seq::<char>::empty()
    }
}

} // verus!
