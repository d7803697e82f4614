use vstd::prelude::*;
use crate::codec::{content_update_json, content_update_message, parse_env, parse_envelope};
use crate::store::{stored_version, AppState};

verus! {

// The message router: inbound envelopes are dispatched on their `type`
// discriminator. A `content_update` carrying a content string replaces the
// shared document and is answered with one broadcast envelope; everything
// else — unrecognized discriminators, envelopes without a content string,
// unparsable text — is ignored and the session continues.

/// The content a parsed envelope asks to write: present exactly when the
/// envelope is well-formed, its discriminator is `content_update`, and its
/// payload carries a content string.
pub open spec fn requested_content(parsed: Option<(Seq<char>, Option<Seq<char>>)>) -> Option<
    Seq<char>,
> {
    match parsed {
        Some((kind, content)) => if kind == "content_update"@ {
            content
        } else {
            None
        },
        None => None,
    }
}

/// Whether the version counter of the shared document can still advance.
pub open spec fn version_headroom(pre: AppState) -> bool {
    stored_version(pre.docs_view(), "default"@) < u64::MAX
}

/// Everything routing one text frame does to the store, and the envelope it
/// answers with: a requested replacement (with headroom on the counter)
/// writes the shared document at the next version and yields the matching
/// broadcast; anything else leaves the store untouched and yields nothing.
pub open spec fn route_effect(
    pre: AppState,
    post: AppState,
    text: Seq<char>,
    now: u64,
    published: Option<String>,
) -> bool {
    match requested_content(parse_env(text)) {
        Some(c) => if version_headroom(pre) {
            let v = (stored_version(pre.docs_view(), "default"@) + 1) as u64;
            &&& post.users_view() == pre.users_view()
            &&& post.docs_view().dom().contains("default"@)
            &&& post.docs_view()["default"@].content@ == c
            &&& post.docs_view()["default"@].version == v
            &&& post.docs_view()["default"@].last_modified == now
            &&& post.docs_view() == pre.docs_view().insert(
                "default"@,
                post.docs_view()["default"@],
            )
            &&& match published {
                Some(m) => m@ == content_update_json(c, v),
                None => false,
            }
        } else {
            &&& post == pre
            &&& published is None
        },
        None => {
            &&& post == pre
            &&& published is None
        },
    }
}

/// Routes one inbound text frame against the store and returns the envelope
/// to broadcast, if the frame asked for a replacement.
pub fn route_text(state: &mut AppState, text: &str, now: u64) -> (published: Option<String>)
    ensures
        route_effect(*old(state), *final(state), text@, now, published),
{
    let parsed = parse_envelope(text);
    match parsed {
        Some((kind, content)) => {
            let tag = "content_update".to_string();
            if kind == tag {
                match content {
                    Some(c) => {
                        let headroom = match state.get_document("default") {
                            Some(doc) => doc.version() < u64::MAX,
                            None => true,
                        };
                        if headroom {
                            let doc = state.update_document("default", c.as_str(), now);
                            Some(content_update_message(c.as_str(), doc.version()))
                        } else {
                            None
                        }
                    },
                    None => None,
                }
            } else {
                None
            }
        },
        None => None,
    }
}

/// Routes one inbound text frame and publishes the resulting envelope, if
/// any, to the hub; returns the exact text that went out.
pub fn handle_text_message(state: &mut AppState, text: &str, now: u64) -> (published: Option<
    String,
>)
    ensures
        route_effect(*old(state), *final(state), text@, now, published),
{
    let published = route_text(state, text, now);
    match &published {
        Some(msg) => state.publish(msg),
        None => {},
    }
    published
}

} // verus!
