use vstd::prelude::*;
use crate::model::{Document, User};
use crate::codec::{content_update_json, parse_env};
use crate::router::{requested_content, route_effect, version_headroom};
use crate::session::snapshot_content;
use crate::store::{stored_version, AppState};

verus! {

// The laws the store obeys across whole histories. Concurrent sessions reach
// the store only through its exclusive methods, so any concurrent run is
// some serialization of those calls; each law below quantifies over every
// such serialization.

/// One membership operation on the user map by some other session, as
/// `AppState::add_user` and `AppState::remove_user` perform them.
pub enum UserOp {
    Add { id: Seq<char>, user: User },
    Remove { id: Seq<char> },
}

/// The identifier an operation touches.
pub open spec fn op_key(op: UserOp) -> Seq<char> {
    match op {
        UserOp::Add { id, user } => id,
        UserOp::Remove { id } => id,
    }
}

/// The user map after a sequence of membership operations.
pub open spec fn apply_user_ops(m: Map<Seq<char>, User>, ops: Seq<UserOp>) -> Map<Seq<char>, User>
    decreases ops.len(),
{
    if ops.len() == 0 {
        m
    } else {
        let rest = apply_user_ops(m, ops.drop_last());
        match ops.last() {
            UserOp::Add { id, user } => rest.insert(id, user),
            UserOp::Remove { id } => rest.remove(id),
        }
    }
}

/// Whether none of the operations touches the given identifier.
pub open spec fn ops_avoid(ops: Seq<UserOp>, id: Seq<char>) -> bool {
    forall|i: int| 0 <= i < ops.len() ==> op_key(#[trigger] ops[i]) != id
}

/// Law: `add_user(id)` followed by `remove_user(id)` returns the user map —
/// hence the user count — to what the other sessions' interleaved adds and
/// removals alone would have produced, for any such interleaving.
pub proof fn lemma_add_remove_restores(
    m: Map<Seq<char>, User>,
    id: Seq<char>,
    u: User,
    ops: Seq<UserOp>,
)
    requires
        !m.dom().contains(id),
        ops_avoid(ops, id),
    ensures
        apply_user_ops(m.insert(id, u), ops).remove(id) == apply_user_ops(m, ops),
        apply_user_ops(m.insert(id, u), ops).remove(id).dom().len() == apply_user_ops(
            m,
            ops,
        ).dom().len(),
    decreases ops.len(),
{
    if ops.len() == 0 {
        assert(m.insert(id, u).remove(id) =~= m);
    } else {
        let prefix = ops.drop_last();
        assert(ops_avoid(prefix, id)) by {
            assert forall|i: int| 0 <= i < prefix.len() implies op_key(#[trigger] prefix[i])
                != id by {
                assert(prefix[i] == ops[i]);
            }
        }
        lemma_add_remove_restores(m, id, u, prefix);
        assert(op_key(ops[ops.len() - 1]) != id);
        match ops.last() {
            UserOp::Add { id: k, user } => {
                assert(apply_user_ops(m.insert(id, u), ops).remove(id) =~= apply_user_ops(m, ops));
            },
            UserOp::Remove { id: k } => {
                assert(apply_user_ops(m.insert(id, u), ops).remove(id) =~= apply_user_ops(m, ops));
            },
        }
    }
}

/// Law: operations that avoid an identifier leave its registration — its
/// membership and its record — untouched.
pub proof fn lemma_ops_keep_membership(m: Map<Seq<char>, User>, id: Seq<char>, ops: Seq<UserOp>)
    requires
        m.dom().contains(id),
        ops_avoid(ops, id),
    ensures
        apply_user_ops(m, ops).dom().contains(id),
        apply_user_ops(m, ops)[id] == m[id],
    decreases ops.len(),
{
    if ops.len() > 0 {
        let prefix = ops.drop_last();
        assert(ops_avoid(prefix, id)) by {
            assert forall|i: int| 0 <= i < prefix.len() implies op_key(#[trigger] prefix[i])
                != id by {
                assert(prefix[i] == ops[i]);
            }
        }
        lemma_ops_keep_membership(m, id, prefix);
        assert(op_key(ops[ops.len() - 1]) != id);
    }
}

/// Law: a registration broadcasts the count raised by exactly one; while the
/// session is active it is counted exactly once, whatever other sessions do;
/// and its teardown returns the membership to what the others alone
/// produced. Counts are cardinalities of the user map's domain, so they are
/// never negative; the phase preconditions of `Session::on_probe_result` and
/// `Session::finish_close` let each of the two broadcasts happen exactly
/// once per session.
pub proof fn lemma_session_count_balance(
    m: Map<Seq<char>, User>,
    id: Seq<char>,
    u: User,
    ops: Seq<UserOp>,
)
    requires
        m.dom().finite(),
        !m.dom().contains(id),
        ops_avoid(ops, id),
    ensures
        m.insert(id, u).dom().len() == m.dom().len() + 1,
        apply_user_ops(m.insert(id, u), ops).dom().contains(id),
        apply_user_ops(m.insert(id, u), ops).remove(id) == apply_user_ops(m, ops),
{
    broadcast use vstd::set::axiom_set_insert_len;

    lemma_ops_keep_membership(m.insert(id, u), id, ops);
    lemma_add_remove_restores(m, id, u, ops);
}

/// Law: across any serialization of concurrent `content_update` calls on one
/// document key, the versions the store hands out for broadcast are
/// v0 + 1, v0 + 2, ... in order: strictly increasing, no gaps, no
/// duplicates. The hypotheses are exactly what `AppState::update_document`
/// ensures of each step: the observed version is the stored version plus
/// one, and the stored version advances to it.
pub proof fn lemma_version_sequence(
    states: Seq<Map<Seq<char>, Document>>,
    key: Seq<char>,
    observed: Seq<int>,
)
    requires
        states.len() == observed.len() + 1,
        forall|i: int|
            0 <= i < observed.len() ==> #[trigger] observed[i] == stored_version(states[i], key)
                + 1,
        forall|i: int|
            0 <= i < observed.len() ==> stored_version(#[trigger] states[i + 1], key)
                == stored_version(states[i], key) + 1,
    ensures
        forall|i: int|
            0 <= i < observed.len() ==> #[trigger] observed[i] == stored_version(states[0], key)
                + i + 1,
        forall|i: int, j: int|
            0 <= i < j < observed.len() ==> #[trigger] observed[i] < #[trigger] observed[j],
        forall|i: int|
            0 <= i < observed.len() - 1 ==> #[trigger] observed[i + 1] == observed[i] + 1,
{
    assert forall|i: int|
        0 <= i < observed.len() implies #[trigger] observed[i] == stored_version(states[0], key) + i
        + 1 by {
        lemma_stored_version_chain(states, key, observed, i);
    }
    assert forall|i: int, j: int|
        0 <= i < j < observed.len() implies #[trigger] observed[i] < #[trigger] observed[j] by {
        lemma_stored_version_chain(states, key, observed, i);
        lemma_stored_version_chain(states, key, observed, j);
    }
}

/// After i serialized updates the stored version has advanced by i.
proof fn lemma_stored_version_chain(
    states: Seq<Map<Seq<char>, Document>>,
    key: Seq<char>,
    observed: Seq<int>,
    i: int,
)
    requires
        states.len() == observed.len() + 1,
        0 <= i < observed.len(),
        forall|j: int|
            0 <= j < observed.len() ==> stored_version(#[trigger] states[j + 1], key)
                == stored_version(states[j], key) + 1,
    ensures
        stored_version(states[i], key) == stored_version(states[0], key) + i,
    decreases i,
{
    if i > 0 {
        lemma_stored_version_chain(states, key, observed, i - 1);
        assert(stored_version(states[(i - 1) + 1], key) == stored_version(states[i - 1], key) + 1);
    }
}

/// Law: a replacement the router applies is exactly what a fresh probe
/// afterwards sees — the requested content at the next version — and the
/// broadcast that the router answered with carries that same pair.
pub proof fn lemma_probe_sees_routed_update(
    pre: AppState,
    post: AppState,
    text: Seq<char>,
    now: u64,
    published: Option<String>,
    c: Seq<char>,
)
    requires
        route_effect(pre, post, text, now, published),
        requested_content(parse_env(text)) == Some(c),
        version_headroom(pre),
    ensures
        snapshot_content(post) == c,
        stored_version(post.docs_view(), "default"@) == stored_version(pre.docs_view(), "default"@)
            + 1,
        (match published {
            Some(m) => m@ == content_update_json(c, stored_version(post.docs_view(), "default"@)),
            None => false,
        }),
{
}

} // verus!
