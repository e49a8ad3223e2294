//! What holds of every step of the server, proved from the steps'
//! definitions.

use vstd::prelude::*;
use crate::auth::TokenError;
use crate::canvas::{apply_entries, applied_updates, entries_as_text, pair_up};
use crate::handlers::{authenticated_step, individual_error, may_mutate};
use crate::ids::{
    object_id_hex, spec_parse_object_id, CanvasIdType, ObjectId, UserIdType, WhiteboardIdType,
};
use crate::login::{login_completion, unauthenticated_step, UserLookupSpec};
use crate::messages::{
    ClientErrorSpec, ClientSocketMessageSpec, ServerSocketMessageSpec, WhiteboardDiffSpec,
};
use crate::session::{
    spec_get_or_load, spec_load_result, ClientStateSpec, LoadError, LoadOutcomeSpec,
    SharedWhiteboardEntrySpec,
};
use crate::shape::ShapeSpec;
use crate::store::planned_operations;
use crate::time::UtcDateTime;
use crate::users::{UserSpec, WhiteboardPermissionEnum};
use crate::whiteboard::{shows_whiteboard, WhiteboardSpec};

verus! {

/// Whether one of `entries` stands under the id `k`.
pub open spec fn names_id(entries: Seq<(ObjectId, ShapeSpec)>, k: ObjectId) -> bool {
    exists|i: int| 0 <= i < entries.len() && (#[trigger] entries[i]).0 == k
}

/// Whether no entry after the one at `i` stands under the same id.
pub open spec fn is_last_for_its_id(entries: Seq<(ObjectId, ShapeSpec)>, i: int) -> bool {
    forall|j: int| i < j < entries.len() ==> (#[trigger] entries[j]).0 != entries[i].0
}

/// Writing entries to a map of shapes adds exactly their ids, leaves
/// alone what no entry names, and puts under each id the shape of the last
/// entry that names it.
pub proof fn lemma_apply_entries(m: Map<ObjectId, ShapeSpec>, entries: Seq<(ObjectId, ShapeSpec)>)
    ensures
        forall|k: ObjectId| #[trigger]
            apply_entries(m, entries).contains_key(k) <==> m.contains_key(k) || names_id(entries, k),
        forall|k: ObjectId|
            !names_id(entries, k) ==> #[trigger] apply_entries(m, entries)[k] == m[k],
        forall|i: int|
            0 <= i < entries.len() && #[trigger] is_last_for_its_id(entries, i) ==> apply_entries(
                m,
                entries,
            )[entries[i].0] == entries[i].1,
    decreases entries.len(),
{
    if entries.len() > 0 {
        let rest = entries.drop_last();
        let last = entries.last();
        lemma_apply_entries(m, rest);
        assert forall|k: ObjectId| names_id(entries, k) <==> names_id(rest, k) || k == last.0 by {
            if names_id(entries, k) {
                let i = choose|i: int| 0 <= i < entries.len() && (#[trigger] entries[i]).0 == k;
                if i < rest.len() {
                    assert(rest[i].0 == k);
                }
            }
            if names_id(rest, k) {
                let i = choose|i: int| 0 <= i < rest.len() && (#[trigger] rest[i]).0 == k;
                assert(entries[i].0 == k);
            }
            if k == last.0 {
                assert(entries[entries.len() - 1].0 == k);
            }
        }
        let after_rest = apply_entries(m, rest);
        let after = apply_entries(m, entries);
        assert(after == after_rest.insert(last.0, last.1));
        assert forall|k: ObjectId| #[trigger]
            after.contains_key(k) <==> m.contains_key(k) || names_id(entries, k) by {
            assert(after_rest.contains_key(k) <==> m.contains_key(k) || names_id(rest, k));
        }
        assert forall|k: ObjectId| !names_id(entries, k) implies #[trigger] after[k] == m[k] by {
            assert(!names_id(rest, k));
            assert(k != last.0);
            assert(after_rest[k] == m[k]);
        }
        assert forall|i: int|
            0 <= i < entries.len() && #[trigger] is_last_for_its_id(
                entries,
                i,
            ) implies apply_entries(m, entries)[entries[i].0] == entries[i].1 by {
            if i < rest.len() {
                assert(entries[entries.len() - 1].0 != entries[i].0);
                assert(is_last_for_its_id(rest, i)) by {
                    assert forall|j: int| i < j < rest.len() implies (#[trigger] rest[j]).0
                        != rest[i].0 by {
                        assert(entries[j].0 != entries[i].0);
                    }
                }
                assert(rest[i] == entries[i]);
            }
        }
    }
}

/// A text that could not be read is answered with `InvalidMessage`, sent
/// to the connection that sent the text and holding the text; the session
/// stays as it was, document and queue of diffs. This holds of a
/// connection that has logged in and of one that has not.
pub proof fn law_unreadable_message_changes_nothing(
    client: ClientStateSpec,
    pre: SharedWhiteboardEntrySpec,
    raw: Seq<char>,
    ids: Seq<ObjectId>,
    now: UtcDateTime,
    token: Result<ObjectId, TokenError>,
    lookup: UserLookupSpec,
    client_post: ClientStateSpec,
    post: SharedWhiteboardEntrySpec,
    resp: Option<ServerSocketMessageSpec>,
)
    requires
        authenticated_step(client, pre, raw, None, ids, now, post, resp) || unauthenticated_step(
            client,
            pre,
            raw,
            None,
            token,
            lookup,
            client_post,
            post,
            resp,
        ),
    ensures
        resp == individual_error(
            client.client_id,
            ClientErrorSpec::InvalidMessage { client_message_raw: raw },
        ),
        post == pre,
{
}

/// Whether the ids `ids` are fresh for a map of shapes: no two alike, none
/// in use.
pub open spec fn are_fresh(ids: Seq<ObjectId>, shapes: Map<ObjectId, ShapeSpec>) -> bool {
    &&& ids.no_duplicates()
    &&& forall|i: int| 0 <= i < ids.len() ==> !shapes.contains_key(#[trigger] ids[i])
}

/// Creating shapes on a canvas that exists, with fresh ids: the answer
/// lists as many shapes as were sent, the shape at each place under the
/// text of the fresh id at that place; afterwards the canvas holds what it
/// held, unchanged, and those shapes under those ids, and nothing else;
/// the rest of the whiteboard stays as it was.
pub proof fn law_create_shapes(
    client: ClientStateSpec,
    pre: SharedWhiteboardEntrySpec,
    raw: Seq<char>,
    canvas_id: CanvasIdType,
    shapes: Seq<ShapeSpec>,
    ids: Seq<ObjectId>,
    now: UtcDateTime,
    post: SharedWhiteboardEntrySpec,
    resp: Option<ServerSocketMessageSpec>,
)
    requires
        may_mutate(client.user_whiteboard_permission),
        pre.whiteboard.canvases.contains_key(canvas_id),
        ids.len() == shapes.len(),
        are_fresh(ids, pre.whiteboard.canvases[canvas_id].shapes),
        authenticated_step(
            client,
            pre,
            raw,
            Some(ClientSocketMessageSpec::CreateShapes { canvas_id, shapes }),
            ids,
            now,
            post,
            resp,
        ),
    ensures
        resp matches Some(ServerSocketMessageSpec::CreateShapes { client_id, canvas_id: shown_id, shapes: shown })
            && client_id == client.client_id && shown_id == object_id_hex(canvas_id) && shown.len()
            == shapes.len() && forall|i: int|
            0 <= i < shapes.len() ==> #[trigger] shown[i] == (object_id_hex(ids[i]), shapes[i]),
        post.whiteboard.canvases.dom() == pre.whiteboard.canvases.dom(),
        forall|c: CanvasIdType|
            c != canvas_id && pre.whiteboard.canvases.contains_key(c)
                ==> #[trigger] post.whiteboard.canvases[c] == pre.whiteboard.canvases[c],
        post.whiteboard.canvases[canvas_id].shapes.dom() == pre.whiteboard.canvases[canvas_id].shapes.dom().union(
            ids.to_set(),
        ),
        forall|i: int|
            0 <= i < ids.len() ==> #[trigger] post.whiteboard.canvases[canvas_id].shapes[ids[i]]
                == shapes[i],
        forall|k: ObjectId|
            pre.whiteboard.canvases[canvas_id].shapes.contains_key(k)
                ==> #[trigger] post.whiteboard.canvases[canvas_id].shapes[k]
                == pre.whiteboard.canvases[canvas_id].shapes[k],
{
    let before = pre.whiteboard.canvases[canvas_id].shapes;
    let entries = pair_up(ids, shapes);
    let after = apply_entries(before, entries);
    lemma_apply_entries(before, entries);
    assert(post.whiteboard.canvases[canvas_id].shapes == after);
    assert(post.whiteboard.canvases.dom() =~= pre.whiteboard.canvases.dom());
    assert forall|k: ObjectId| names_id(entries, k) <==> ids.to_set().contains(k) by {
        if names_id(entries, k) {
            let i = choose|i: int| 0 <= i < entries.len() && (#[trigger] entries[i]).0 == k;
            assert(ids[i] == k);
        }
        if ids.to_set().contains(k) {
            let i = choose|i: int| 0 <= i < ids.len() && ids[i] == k;
            assert(entries[i].0 == k);
        }
    }
    assert(after.dom() =~= before.dom().union(ids.to_set()));
    assert forall|i: int| 0 <= i < ids.len() implies #[trigger] after[ids[i]] == shapes[i] by {
        assert(is_last_for_its_id(entries, i)) by {
            assert forall|j: int| i < j < entries.len() implies (#[trigger] entries[j]).0
                != entries[i].0 by {
                assert(ids[j] != ids[i]);
            }
        }
        assert(entries[i] == (ids[i], shapes[i]));
    }
    assert forall|k: ObjectId| before.contains_key(k) implies #[trigger] after[k] == before[k] by {
        if names_id(entries, k) {
            let i = choose|i: int| 0 <= i < entries.len() && (#[trigger] entries[i]).0 == k;
            assert(ids[i] == k);
        }
    }
    let shown = entries_as_text(entries);
    assert forall|i: int| 0 <= i < shapes.len() implies #[trigger] shown[i] == (
        object_id_hex(ids[i]),
        shapes[i],
    ) by {
        assert(entries[i] == (ids[i], shapes[i]));
    }
}

/// The id of a shape of the canvas that an update names, if it names one:
/// its key is the text of an id, and the canvas has a shape under that id.
pub open spec fn update_target(present: Set<ObjectId>, update: (Seq<char>, ShapeSpec)) -> Option<
    ObjectId,
> {
    match spec_parse_object_id(update.0) {
        Some(id) => if present.contains(id) {
            Some(id)
        } else {
            None
        },
        None => None,
    }
}

/// Whether no update after the one at `i` names the shape `id`.
pub open spec fn is_last_update_of(
    present: Set<ObjectId>,
    updates: Seq<(Seq<char>, ShapeSpec)>,
    i: int,
    id: ObjectId,
) -> bool {
    forall|j: int| i < j < updates.len() ==> update_target(present, #[trigger] updates[j]) != Some(id)
}

/// Whether one of `updates` names the shape `id`.
pub open spec fn is_updated(
    present: Set<ObjectId>,
    updates: Seq<(Seq<char>, ShapeSpec)>,
    id: ObjectId,
) -> bool {
    exists|i: int| 0 <= i < updates.len() && update_target(present, #[trigger] updates[i]) == Some(id)
}

/// What the updates that take effect do to a map of shapes whose ids are
/// `present`: no id comes or goes; every update written names a shape
/// that was there; a shape that updates name ends as the last of them
/// says; a shape that none names stays as it was.
pub proof fn lemma_applied_updates(
    m: Map<ObjectId, ShapeSpec>,
    present: Set<ObjectId>,
    updates: Seq<(Seq<char>, ShapeSpec)>,
)
    requires
        present == m.dom(),
    ensures
        apply_entries(m, applied_updates(present, updates)).dom() == m.dom(),
        forall|j: int|
            0 <= j < applied_updates(present, updates).len() ==> present.contains(
                (#[trigger] applied_updates(present, updates)[j]).0,
            ),
        forall|i: int, id: ObjectId|
            0 <= i < updates.len() && update_target(present, updates[i]) == Some(id)
                && #[trigger] is_last_update_of(present, updates, i, id) ==> apply_entries(
                m,
                applied_updates(present, updates),
            )[id] == updates[i].1,
        forall|id: ObjectId|
            !is_updated(present, updates, id) ==> #[trigger] apply_entries(
                m,
                applied_updates(present, updates),
            )[id] == m[id],
        applied_updates(present, updates).len() <= updates.len(),
    decreases updates.len(),
{
    let applied = applied_updates(present, updates);
    if updates.len() > 0 {
        let rest = updates.drop_last();
        let last = updates.last();
        let applied_rest = applied_updates(present, rest);
        lemma_applied_updates(m, present, rest);
        let target = update_target(present, last);
        match target {
            Some(id) => {
                assert(applied == applied_rest.push((id, last.1)));
                assert(applied.drop_last() =~= applied_rest);
                assert(apply_entries(m, applied) == apply_entries(m, applied_rest).insert(
                    id,
                    last.1,
                ));
                assert(apply_entries(m, applied).dom() =~= m.dom());
            },
            None => {
                assert(applied == applied_rest);
            },
        }
        assert forall|i: int, id: ObjectId|
            0 <= i < updates.len() && update_target(present, updates[i]) == Some(id)
                && #[trigger] is_last_update_of(present, updates, i, id) implies apply_entries(
            m,
            applied,
        )[id] == updates[i].1 by {
            if i < rest.len() {
                assert(update_target(present, updates[updates.len() - 1]) != Some(id));
                assert(is_last_update_of(present, rest, i, id)) by {
                    assert forall|j: int| i < j < rest.len() implies update_target(
                        present,
                        #[trigger] rest[j],
                    ) != Some(id) by {
                        assert(rest[j] == updates[j]);
                    }
                }
                assert(rest[i] == updates[i]);
            }
        }
        assert forall|id: ObjectId| !is_updated(present, updates, id) implies #[trigger] apply_entries(
            m,
            applied,
        )[id] == m[id] by {
            assert(update_target(present, updates[updates.len() - 1]) != Some(id));
            assert(!is_updated(present, rest, id)) by {
                if is_updated(present, rest, id) {
                    let i = choose|i: int|
                        0 <= i < rest.len() && update_target(present, #[trigger] rest[i]) == Some(
                            id,
                        );
                    assert(rest[i] == updates[i]);
                }
            }
        }
    }
}

/// Updating shapes on a canvas that exists: an update whose key is the
/// text of no id, or of an id that the canvas does not hold, is dropped,
/// from the canvas, which gains no id, and from the answer, which names
/// only shapes that were there; a shape that updates name ends as the last
/// of them says, field for field; a shape that none names stays as it was.
pub proof fn law_update_shapes(
    client: ClientStateSpec,
    pre: SharedWhiteboardEntrySpec,
    raw: Seq<char>,
    canvas_id: CanvasIdType,
    updates: Seq<(Seq<char>, ShapeSpec)>,
    ids: Seq<ObjectId>,
    now: UtcDateTime,
    post: SharedWhiteboardEntrySpec,
    resp: Option<ServerSocketMessageSpec>,
)
    requires
        may_mutate(client.user_whiteboard_permission),
        pre.whiteboard.canvases.contains_key(canvas_id),
        authenticated_step(
            client,
            pre,
            raw,
            Some(ClientSocketMessageSpec::UpdateShapes { canvas_id, shapes: updates }),
            ids,
            now,
            post,
            resp,
        ),
    ensures
        ({
            let before = pre.whiteboard.canvases[canvas_id].shapes;
            let after = post.whiteboard.canvases[canvas_id].shapes;
            let applied = applied_updates(before.dom(), updates);
            &&& after.dom() == before.dom()
            &&& resp == Some(
                ServerSocketMessageSpec::UpdateShapes {
                    client_id: client.client_id,
                    canvas_id: object_id_hex(canvas_id),
                    shapes: entries_as_text(applied),
                },
            )
            &&& applied.len() <= updates.len()
            &&& forall|j: int|
                0 <= j < applied.len() ==> before.contains_key((#[trigger] applied[j]).0)
            &&& forall|i: int, id: ObjectId|
                0 <= i < updates.len() && update_target(before.dom(), updates[i]) == Some(id)
                    && #[trigger] is_last_update_of(before.dom(), updates, i, id) ==> after[id]
                    == updates[i].1
            &&& forall|id: ObjectId|
                !is_updated(before.dom(), updates, id) ==> #[trigger] after[id] == before[id]
        }),
{
    let before = pre.whiteboard.canvases[canvas_id].shapes;
    lemma_applied_updates(before, before.dom(), updates);
}

/// A login whose credential names an account without a tier on the
/// whiteboard is answered with `Unauthorized`; the connection is not
/// registered with the session and gets no tier.
pub proof fn law_login_without_tier(
    client_pre: ClientStateSpec,
    pre: SharedWhiteboardEntrySpec,
    user_id: UserIdType,
    user: UserSpec,
    client_post: ClientStateSpec,
    post: SharedWhiteboardEntrySpec,
    resp: Option<ServerSocketMessageSpec>,
)
    requires
        !pre.whiteboard.permissions_by_user_id.contains_key(user_id),
        login_completion(
            client_pre,
            pre,
            user_id,
            UserLookupSpec::Found(user),
            client_post,
            post,
            resp,
        ),
    ensures
        resp == individual_error(client_pre.client_id, ClientErrorSpec::Unauthorized),
        post.active_clients == pre.active_clients,
        client_post.user_whiteboard_permission == client_pre.user_whiteboard_permission,
        post == pre,
{
}

/// A login whose credential names an account with a tier on the
/// whiteboard is answered with `InitClient`, which holds the connection's
/// id and shows the whiteboard as the session has it; the connection is
/// registered under that user, and takes the tier: with `Edit` or `Own` it
/// may change the document from then on.
pub proof fn law_login_with_tier(
    client_pre: ClientStateSpec,
    pre: SharedWhiteboardEntrySpec,
    user_id: UserIdType,
    user: UserSpec,
    tier: WhiteboardPermissionEnum,
    client_post: ClientStateSpec,
    post: SharedWhiteboardEntrySpec,
    resp: Option<ServerSocketMessageSpec>,
)
    requires
        pre.whiteboard.permissions_by_user_id.contains_key(user_id),
        pre.whiteboard.permissions_by_user_id[user_id] == tier,
        login_completion(
            client_pre,
            pre,
            user_id,
            UserLookupSpec::Found(user),
            client_post,
            post,
            resp,
        ),
    ensures
        resp matches Some(ServerSocketMessageSpec::InitClient { client_id, whiteboard })
            && client_id == client_pre.client_id && shows_whiteboard(whiteboard, post.whiteboard),
        post.whiteboard == pre.whiteboard,
        post.diffs == pre.diffs,
        post.active_clients.contains_key(client_pre.client_id),
        post.active_clients[client_pre.client_id].user_id == object_id_hex(user_id),
        post.active_clients[client_pre.client_id].username == user.username,
        client_post.user_whiteboard_permission == Some(tier),
        tier != WhiteboardPermissionEnum::View ==> may_mutate(
            client_post.user_whiteboard_permission,
        ),
{
}

/// A connection of the tier `View`, or without a tier, changes nothing:
/// whatever message it sends is answered with `ActionForbidden`, which
/// names the message's tag, so `create_canvas` for a canvas to create; the
/// whiteboard's canvases and the queue of diffs stay as they were.
pub proof fn law_view_tier_is_forbidden(
    client: ClientStateSpec,
    pre: SharedWhiteboardEntrySpec,
    raw: Seq<char>,
    msg: ClientSocketMessageSpec,
    ids: Seq<ObjectId>,
    now: UtcDateTime,
    post: SharedWhiteboardEntrySpec,
    resp: Option<ServerSocketMessageSpec>,
)
    requires
        client.user_whiteboard_permission is None || client.user_whiteboard_permission == Some(
            WhiteboardPermissionEnum::View,
        ),
        authenticated_step(client, pre, raw, Some(msg), ids, now, post, resp),
    ensures
        resp == individual_error(
            client.client_id,
            ClientErrorSpec::ActionForbidden { action: msg.type_tag() },
        ),
        msg is CreateCanvas ==> msg.type_tag() == "create_canvas"@,
        post.whiteboard.canvases == pre.whiteboard.canvases,
        post == pre,
{
}

/// Two loads of one whiteboard give one session: once a whiteboard has a
/// session, a second load of it leaves the registry, and with it that
/// session, as the first load made it; both connections can attach. A
/// whiteboard that the store does not hold, or could not give, gets no
/// session.
pub proof fn law_second_load_keeps_first_session(
    registry: Map<WhiteboardIdType, SharedWhiteboardEntrySpec>,
    first: WhiteboardSpec,
    second: WhiteboardSpec,
)
    requires
        first.id == second.id,
    ensures
        ({
            let id = first.id;
            let once = spec_get_or_load(registry, id, LoadOutcomeSpec::Loaded(first));
            let twice = spec_get_or_load(once, id, LoadOutcomeSpec::Loaded(second));
            &&& twice == once
            &&& once.contains_key(id)
            &&& !registry.contains_key(id) ==> once[id].whiteboard == first
            &&& spec_load_result(registry, id, LoadOutcomeSpec::Loaded(first)) is Ok
            &&& spec_load_result(once, id, LoadOutcomeSpec::Loaded(second)) is Ok
            &&& spec_get_or_load(registry, id, LoadOutcomeSpec::Missing) == registry
            &&& spec_get_or_load(registry, id, LoadOutcomeSpec::Failed) == registry
            &&& !registry.contains_key(id) ==> spec_load_result(
                registry,
                id,
                LoadOutcomeSpec::Missing,
            ) == Err::<(), LoadError>(LoadError::NotFound)
        }),
{
}

/// No step of a connection that has logged in breaks the whiteboard's
/// invariant, changes the access it grants, or touches the connections:
/// every canvas stays filed under its own id, and the index of tiers stays
/// the one that the list of shared users gives.
pub proof fn law_step_keeps_whiteboard_well_formed(
    client: ClientStateSpec,
    pre: SharedWhiteboardEntrySpec,
    raw: Seq<char>,
    msg: Option<ClientSocketMessageSpec>,
    ids: Seq<ObjectId>,
    now: UtcDateTime,
    post: SharedWhiteboardEntrySpec,
    resp: Option<ServerSocketMessageSpec>,
)
    requires
        pre.whiteboard.wf(),
        authenticated_step(client, pre, raw, msg, ids, now, post, resp),
    ensures
        post.whiteboard.wf(),
        post.whiteboard.shared_users == pre.whiteboard.shared_users,
        post.whiteboard.permissions_by_user_id == pre.whiteboard.permissions_by_user_id,
        post.whiteboard.id == pre.whiteboard.id,
        post.active_clients == pre.active_clients,
        post.whiteboard_id == pre.whiteboard_id,
{
}

/// A step appends at most one diff to the queue and takes none away: the
/// diffs recorded before stay, in their order, ahead of the new one. A step
/// that is answered with an error records none.
pub proof fn law_step_appends_to_diffs(
    client: ClientStateSpec,
    pre: SharedWhiteboardEntrySpec,
    raw: Seq<char>,
    msg: Option<ClientSocketMessageSpec>,
    ids: Seq<ObjectId>,
    now: UtcDateTime,
    post: SharedWhiteboardEntrySpec,
    resp: Option<ServerSocketMessageSpec>,
)
    requires
        authenticated_step(client, pre, raw, msg, ids, now, post, resp),
    ensures
        post.diffs == pre.diffs || (post.diffs.len() == pre.diffs.len() + 1
            && post.diffs.drop_last() == pre.diffs),
        resp matches Some(ServerSocketMessageSpec::IndividualError { .. }) ==> post == pre,
        resp is Some,
{
    if post.diffs != pre.diffs {
        assert(post.diffs.drop_last() =~= pre.diffs);
    }
}

/// The operations for a queue of diffs are those for its older part
/// followed by those for its newer part: diffs reach the store in the
/// order in which they were recorded.
pub proof fn law_operations_keep_order(
    whiteboard_id: WhiteboardIdType,
    older: Seq<WhiteboardDiffSpec>,
    newer: Seq<WhiteboardDiffSpec>,
)
    ensures
        planned_operations(whiteboard_id, older + newer) == planned_operations(whiteboard_id, older)
            + planned_operations(whiteboard_id, newer),
    decreases newer.len(),
{
    if newer.len() == 0 {
        assert(older + newer =~= older);
        assert(planned_operations(whiteboard_id, older) + planned_operations(whiteboard_id, newer)
            =~= planned_operations(whiteboard_id, older));
    } else {
        law_operations_keep_order(whiteboard_id, older, newer.drop_last());
        assert((older + newer).drop_last() =~= older + newer.drop_last());
        assert((older + newer).last() == newer.last());
        assert(planned_operations(whiteboard_id, older + newer) =~= planned_operations(
            whiteboard_id,
            older,
        ) + planned_operations(whiteboard_id, newer));
    }
}

} // verus!
