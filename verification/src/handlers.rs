//! What the server does with one message of a connection that has logged
//! in.

use vstd::prelude::*;
use vstd::string::StringExecFns;
use crate::canvas::{
    applied_updates, entries_as_text, ids_as_text, pair_ids_with_shapes, pair_up,
    render_entries, render_ids, shows_canvas, Canvas, CanvasSpec,
};
use crate::ids::{
    encode_object_id, generate_object_id, object_id_hex, CanvasIdType, ClientIdType, ObjectId,
    UserIdType, WhiteboardIdType, OBJECT_ID_LIMIT,
};
use crate::messages::{
    message_view, response_view, ClientError, ClientErrorSpec, ClientSocketMessage,
    ClientSocketMessageSpec, ServerSocketMessage, ServerSocketMessageSpec, WhiteboardDiff,
    WhiteboardDiffSpec,
};
use crate::session::{
    ClientState, ClientStateSpec, LoadError, SharedWhiteboardEntry, SharedWhiteboardEntrySpec,
};
use crate::shape::ShapeSpec;
use crate::time::UtcDateTime;
use crate::users::WhiteboardPermissionEnum;
use crate::whiteboard::{id_set_of, Whiteboard};

verus! {

broadcast use vstd::std_specs::hash::group_hash_axioms;

/// An error addressed to one connection.
pub open spec fn individual_error(client_id: ClientIdType, error: ClientErrorSpec) -> Option<
    ServerSocketMessageSpec,
> {
    Some(ServerSocketMessageSpec::IndividualError { client_id, error })
}

/// Whether a connection with the tier `permission` may change the
/// document.
pub open spec fn may_mutate(permission: Option<WhiteboardPermissionEnum>) -> bool {
    permission matches Some(tier) && tier.spec_can_edit()
}

/// Whether the whiteboard grants the account `user` the tier `Edit` or
/// `Own`.
pub open spec fn is_editor(
    index: Map<UserIdType, WhiteboardPermissionEnum>,
    user: UserIdType,
) -> bool {
    index.contains_key(user) && index[user].spec_can_edit()
}

/// The first of `users` that is no editor, if there is one.
pub open spec fn first_non_editor(
    index: Map<UserIdType, WhiteboardPermissionEnum>,
    users: Seq<UserIdType>,
) -> Option<UserIdType>
    decreases users.len(),
{
    if users.len() == 0 {
        None
    } else if !is_editor(index, users[0]) {
        Some(users[0])
    } else {
        first_non_editor(index, users.drop_first())
    }
}

/// Why the account `user` cannot be put on an allow-list.
pub open spec fn non_editor_message(
    index: Map<UserIdType, WhiteboardPermissionEnum>,
    user: UserIdType,
) -> Seq<char> {
    if index.contains_key(user) {
        "User "@ + object_id_hex(user) + " does not have edit permission"@
    } else {
        "User "@ + object_id_hex(user) + " not found"@
    }
}

/// The step for `create_shapes`: each shape goes to the canvas under the
/// fresh id at its place; the answer lists the shapes under the texts of
/// those ids.
pub open spec fn create_shapes_step(
    client_id: ClientIdType,
    pre: SharedWhiteboardEntrySpec,
    canvas_id: CanvasIdType,
    shapes: Seq<ShapeSpec>,
    ids: Seq<ObjectId>,
    post: SharedWhiteboardEntrySpec,
    resp: Option<ServerSocketMessageSpec>,
) -> bool {
    if pre.whiteboard.canvases.contains_key(canvas_id) {
        let entries = pair_up(ids, shapes);
        &&& post == (SharedWhiteboardEntrySpec {
            whiteboard: pre.whiteboard.with_shapes(canvas_id, entries),
            diffs: pre.diffs.push(WhiteboardDiffSpec::CreateShapes { canvas_id, shapes: entries }),
            ..pre
        })
        &&& resp == Some(
            ServerSocketMessageSpec::CreateShapes {
                client_id,
                canvas_id: object_id_hex(canvas_id),
                shapes: entries_as_text(entries),
            },
        )
    } else {
        &&& post == pre
        &&& resp == individual_error(
            client_id,
            ClientErrorSpec::CanvasNotFound { canvas_id: object_id_hex(canvas_id) },
        )
    }
}

/// The step for `update_shapes`: the updates that name a shape of the
/// canvas are written; the others are dropped, from the canvas and from
/// the answer.
pub open spec fn update_shapes_step(
    client_id: ClientIdType,
    pre: SharedWhiteboardEntrySpec,
    canvas_id: CanvasIdType,
    updates: Seq<(Seq<char>, ShapeSpec)>,
    post: SharedWhiteboardEntrySpec,
    resp: Option<ServerSocketMessageSpec>,
) -> bool {
    if pre.whiteboard.canvases.contains_key(canvas_id) {
        let applied = applied_updates(pre.whiteboard.canvases[canvas_id].shapes.dom(), updates);
        &&& post == (SharedWhiteboardEntrySpec {
            whiteboard: pre.whiteboard.with_shapes(canvas_id, applied),
            diffs: pre.diffs.push(WhiteboardDiffSpec::UpdateShapes { canvas_id, shapes: applied }),
            ..pre
        })
        &&& resp == Some(
            ServerSocketMessageSpec::UpdateShapes {
                client_id,
                canvas_id: object_id_hex(canvas_id),
                shapes: entries_as_text(applied),
            },
        )
    } else {
        &&& post == pre
        &&& resp == individual_error(
            client_id,
            ClientErrorSpec::CanvasNotFound { canvas_id: object_id_hex(canvas_id) },
        )
    }
}

/// The canvas that `create_canvas` makes.
pub open spec fn created_canvas(
    id: CanvasIdType,
    width: i32,
    height: i32,
    name: Seq<char>,
    allowed_users: Seq<ObjectId>,
    now: UtcDateTime,
) -> CanvasSpec {
    CanvasSpec {
        id,
        next_shape_id_base: 0,
        width,
        height,
        name,
        time_created: now,
        time_last_modified: now,
        shapes: Map::empty(),
        allowed_users: Some(allowed_users.to_set()),
    }
}

/// The step for `create_canvas`: an empty canvas under the fresh id,
/// created at `now`; the answer shows it.
pub open spec fn create_canvas_step(
    client_id: ClientIdType,
    pre: SharedWhiteboardEntrySpec,
    width: i32,
    height: i32,
    name: Seq<char>,
    allowed_users: Seq<ObjectId>,
    id: CanvasIdType,
    now: UtcDateTime,
    post: SharedWhiteboardEntrySpec,
    resp: Option<ServerSocketMessageSpec>,
) -> bool {
    let canvas = created_canvas(id, width, height, name, allowed_users, now);
    &&& post == (SharedWhiteboardEntrySpec {
        whiteboard: pre.whiteboard.with_canvas(canvas),
        diffs: pre.diffs.push(
            WhiteboardDiffSpec::CreateCanvas { canvas_id: id, name, width, height, allowed_users },
        ),
        ..pre
    })
    &&& resp matches Some(ServerSocketMessageSpec::CreateCanvas { client_id: to, canvas: shown })
    &&& to == client_id
    &&& shows_canvas(shown, canvas)
}

/// The step for `delete_canvases`: the canvases named leave the
/// whiteboard; the answer repeats the ids that were asked for.
pub open spec fn delete_canvases_step(
    client_id: ClientIdType,
    pre: SharedWhiteboardEntrySpec,
    canvas_ids: Seq<CanvasIdType>,
    post: SharedWhiteboardEntrySpec,
    resp: Option<ServerSocketMessageSpec>,
) -> bool {
    &&& post == (SharedWhiteboardEntrySpec {
        whiteboard: pre.whiteboard.without_canvases(canvas_ids.to_set()),
        diffs: pre.diffs.push(WhiteboardDiffSpec::DeleteCanvases { canvas_ids }),
        ..pre
    })
    &&& resp == Some(
        ServerSocketMessageSpec::DeleteCanvases { client_id, canvas_ids: ids_as_text(canvas_ids) },
    )
}

/// The step for `update_canvas_allowed_users`: where every user listed is
/// an editor of the whiteboard and the canvas exists, the list replaces the
/// canvas's allow-list.
pub open spec fn update_allowed_users_step(
    client_id: ClientIdType,
    pre: SharedWhiteboardEntrySpec,
    canvas_id: CanvasIdType,
    allowed_users: Seq<ObjectId>,
    post: SharedWhiteboardEntrySpec,
    resp: Option<ServerSocketMessageSpec>,
) -> bool {
    let index = pre.whiteboard.permissions_by_user_id;
    match first_non_editor(index, allowed_users) {
        Some(user) => {
            &&& post == pre
            &&& resp == individual_error(
                client_id,
                ClientErrorSpec::Other { message: non_editor_message(index, user) },
            )
        },
        None => if pre.whiteboard.canvases.contains_key(canvas_id) {
            &&& post == (SharedWhiteboardEntrySpec {
                whiteboard: pre.whiteboard.with_allowed_users(canvas_id, allowed_users.to_set()),
                diffs: pre.diffs.push(
                    WhiteboardDiffSpec::UpdateCanvasAllowedUsers { canvas_id, allowed_users },
                ),
                ..pre
            })
            &&& resp == Some(
                ServerSocketMessageSpec::UpdateCanvasAllowedUsers {
                    client_id,
                    canvas_id: object_id_hex(canvas_id),
                    allowed_users: ids_as_text(allowed_users),
                },
            )
        } else {
            &&& post == pre
            &&& resp == individual_error(
                client_id,
                ClientErrorSpec::CanvasNotFound { canvas_id: object_id_hex(canvas_id) },
            )
        },
    }
}

/// The step for a message of a connection whose tier allows changes.
pub open spec fn mutation_step(
    client_id: ClientIdType,
    pre: SharedWhiteboardEntrySpec,
    msg: ClientSocketMessageSpec,
    ids: Seq<ObjectId>,
    now: UtcDateTime,
    post: SharedWhiteboardEntrySpec,
    resp: Option<ServerSocketMessageSpec>,
) -> bool {
    match msg {
        ClientSocketMessageSpec::Login { .. } => {
            &&& post == pre
            &&& resp == individual_error(client_id, ClientErrorSpec::AlreadyAuthorized)
        },
        ClientSocketMessageSpec::CreateShapes { canvas_id, shapes } => create_shapes_step(
            client_id,
            pre,
            canvas_id,
            shapes,
            ids,
            post,
            resp,
        ),
        ClientSocketMessageSpec::UpdateShapes { canvas_id, shapes } => update_shapes_step(
            client_id,
            pre,
            canvas_id,
            shapes,
            post,
            resp,
        ),
        ClientSocketMessageSpec::CreateCanvas { width, height, name, allowed_users } => {
            create_canvas_step(
                client_id,
                pre,
                width,
                height,
                name,
                allowed_users,
                ids[0],
                now,
                post,
                resp,
            )
        },
        ClientSocketMessageSpec::DeleteCanvases { canvas_ids } => delete_canvases_step(
            client_id,
            pre,
            canvas_ids,
            post,
            resp,
        ),
        ClientSocketMessageSpec::UpdateCanvasAllowedUsers { canvas_id, allowed_users } => {
            update_allowed_users_step(client_id, pre, canvas_id, allowed_users, post, resp)
        },
    }
}

/// The step of a connection that has logged in, on one message: `msg` is
/// the message as it was read from the text `raw`, or nothing where the text
/// could not be read; `ids` are the fresh durable ids and `now` the instant
/// that the step may use. `post` is the session after the step and `resp`
/// the answer.
///
/// A text that could not be read is answered with `InvalidMessage`, a
/// message from a connection without the tier `Edit` or `Own` with
/// `ActionForbidden`; neither changes the session.
pub open spec fn authenticated_step(
    client: ClientStateSpec,
    pre: SharedWhiteboardEntrySpec,
    raw: Seq<char>,
    msg: Option<ClientSocketMessageSpec>,
    ids: Seq<ObjectId>,
    now: UtcDateTime,
    post: SharedWhiteboardEntrySpec,
    resp: Option<ServerSocketMessageSpec>,
) -> bool {
    match msg {
        None => {
            &&& post == pre
            &&& resp == individual_error(
                client.client_id,
                ClientErrorSpec::InvalidMessage { client_message_raw: raw },
            )
        },
        Some(m) => if !may_mutate(client.user_whiteboard_permission) {
            &&& post == pre
            &&& resp == individual_error(
                client.client_id,
                ClientErrorSpec::ActionForbidden { action: m.type_tag() },
            )
        } else {
            mutation_step(client.client_id, pre, m, ids, now, post, resp)
        },
    }
}

/// The first of `users` that is no editor of `whiteboard`, if there is one.
pub fn find_non_editor(whiteboard: &Whiteboard, users: &Vec<UserIdType>) -> (r: Option<UserIdType>)
    ensures
        r == first_non_editor(whiteboard@.permissions_by_user_id, users@),
{
    let n: usize = users.len();
    let mut i: usize = 0;
    let ghost index = whiteboard@.permissions_by_user_id;
    assert(users@.skip(0) =~= users@);
    while i < n
        invariant
            n == users@.len(),
            i <= n,
            index == whiteboard@.permissions_by_user_id,
            first_non_editor(index, users@) == first_non_editor(index, users@.skip(i as int)),
        decreases n - i,
    {
        let user: UserIdType = users[i];
        proof {
            assert(users@.skip(i as int)[0] == user);
            assert(users@.skip(i as int).drop_first() =~= users@.skip(i + 1));
        }
        let editor = match whiteboard.permission_of(user) {
            Some(tier) => tier.can_edit(),
            None => false,
        };
        if !editor {
            return Some(user);
        }
        i = i + 1;
    }
    assert(users@.skip(n as int).len() == 0);
    None
}

/// The text that tells why the account `user` cannot be put on an
/// allow-list.
pub fn describe_non_editor(whiteboard: &Whiteboard, user: UserIdType) -> (r: String)
    ensures
        r@ == non_editor_message(whiteboard@.permissions_by_user_id, user),
{
    let head = "User ".to_owned().concat(encode_object_id(user).as_str());
    match whiteboard.permission_of(user) {
        Some(_) => head.concat(" does not have edit permission"),
        None => head.concat(" not found"),
    }
}

fn error_to(client_id: ClientIdType, error: ClientError) -> (r: Option<ServerSocketMessage>)
    ensures
        response_view(r) == individual_error(client_id, error@),
{
    Some(ServerSocketMessage::IndividualError { client_id, error })
}

fn canvas_not_found(client_id: ClientIdType, canvas_id: CanvasIdType) -> (r: Option<
    ServerSocketMessage,
>)
    ensures
        response_view(r) == individual_error(
            client_id,
            ClientErrorSpec::CanvasNotFound { canvas_id: object_id_hex(canvas_id) },
        ),
{
    error_to(client_id, ClientError::CanvasNotFound { canvas_id: encode_object_id(canvas_id) })
}

/// Performs the step of a connection that has logged in, with the fresh
/// ids `ids` and the instant `now`.
pub fn apply_client_message(
    client_state: &ClientState,
    session: &mut SharedWhiteboardEntry,
    client_msg_s: &str,
    client_msg: Option<ClientSocketMessage>,
    ids: &Vec<ObjectId>,
    now: UtcDateTime,
) -> (resp: Option<ServerSocketMessage>)
    requires
        client_msg matches Some(m) ==> ids@.len() == m@.fresh_ids_needed(),
    ensures
        authenticated_step(
            client_state@,
            old(session)@,
            client_msg_s@,
            message_view(client_msg),
            ids@,
            now,
            final(session)@,
            response_view(resp),
        ),
{
    let client_id: ClientIdType = client_state.client_id;
    let msg = match client_msg {
        None => {
            return error_to(
                client_id,
                ClientError::InvalidMessage { client_message_raw: client_msg_s.to_owned() },
            );
        },
        Some(m) => m,
    };
    let permitted = match client_state.user_whiteboard_permission {
        Some(tier) => tier.can_edit(),
        None => false,
    };
    if !permitted {
        return error_to(client_id, ClientError::ActionForbidden { action: msg.type_tag() });
    }
    match msg {
        ClientSocketMessage::Login { .. } => error_to(client_id, ClientError::AlreadyAuthorized),
        ClientSocketMessage::CreateShapes { canvas_id, shapes } => {
            let entries = pair_ids_with_shapes(ids, &shapes);
            if session.whiteboard.put_shapes(canvas_id, &entries) {
                let shown = render_entries(&entries);
                session.push_diff(WhiteboardDiff::CreateShapes { canvas_id, shapes: entries });
                Some(
                    ServerSocketMessage::CreateShapes {
                        client_id,
                        canvas_id: encode_object_id(canvas_id),
                        shapes: shown,
                    },
                )
            } else {
                canvas_not_found(client_id, canvas_id)
            }
        },
        ClientSocketMessage::UpdateShapes { canvas_id, shapes } => {
            match session.whiteboard.update_shapes(canvas_id, &shapes) {
                Some(applied) => {
                    let shown = render_entries(&applied);
                    session.push_diff(WhiteboardDiff::UpdateShapes { canvas_id, shapes: applied });
                    Some(
                        ServerSocketMessage::UpdateShapes {
                            client_id,
                            canvas_id: encode_object_id(canvas_id),
                            shapes: shown,
                        },
                    )
                },
                None => canvas_not_found(client_id, canvas_id),
            }
        },
        ClientSocketMessage::CreateCanvas { width, height, name, allowed_users } => {
            let id: CanvasIdType = ids[0];
            let canvas = Canvas::new(
                id,
                width,
                height,
                name.clone(),
                now,
                Some(id_set_of(&allowed_users)),
            );
            let shown = canvas.to_client_view();
            session.whiteboard.insert_canvas(canvas);
            session.push_diff(
                WhiteboardDiff::CreateCanvas { canvas_id: id, name, width, height, allowed_users },
            );
            Some(ServerSocketMessage::CreateCanvas { client_id, canvas: shown })
        },
        ClientSocketMessage::DeleteCanvases { canvas_ids } => {
            session.whiteboard.delete_canvases(&canvas_ids);
            let shown = render_ids(&canvas_ids);
            session.push_diff(WhiteboardDiff::DeleteCanvases { canvas_ids });
            Some(ServerSocketMessage::DeleteCanvases { client_id, canvas_ids: shown })
        },
        ClientSocketMessage::UpdateCanvasAllowedUsers { canvas_id, allowed_users } => {
            match find_non_editor(&session.whiteboard, &allowed_users) {
                Some(user) => {
                    let message = describe_non_editor(&session.whiteboard, user);
                    error_to(client_id, ClientError::Other { message })
                },
                None => {
                    if session.whiteboard.set_allowed_users(canvas_id, &allowed_users) {
                        let shown = render_ids(&allowed_users);
                        session.push_diff(
                            WhiteboardDiff::UpdateCanvasAllowedUsers { canvas_id, allowed_users },
                        );
                        Some(
                            ServerSocketMessage::UpdateCanvasAllowedUsers {
                                client_id,
                                canvas_id: encode_object_id(canvas_id),
                                allowed_users: shown,
                            },
                        )
                    } else {
                        canvas_not_found(client_id, canvas_id)
                    }
                },
            }
        },
    }
}

/// The error that tells a connection why it could not attach to the
/// whiteboard `whiteboard_id`.
pub open spec fn load_failure(whiteboard_id: WhiteboardIdType, error: LoadError) -> ClientErrorSpec {
    match error {
        LoadError::NotFound => ClientErrorSpec::WhiteboardNotFound {
            whiteboard_id: object_id_hex(whiteboard_id),
        },
        LoadError::StoreError => ClientErrorSpec::Other {
            message: "Error occurred fetching whiteboard "@ + object_id_hex(whiteboard_id),
        },
    }
}

/// The answer to a connection that could not attach to the whiteboard
/// `whiteboard_id`.
pub fn load_failure_reply(
    client_id: ClientIdType,
    whiteboard_id: WhiteboardIdType,
    error: LoadError,
) -> (r: ServerSocketMessage)
    ensures
        r@ == (ServerSocketMessageSpec::IndividualError {
            client_id,
            error: load_failure(whiteboard_id, error),
        }),
{
    let text = encode_object_id(whiteboard_id);
    let error = match error {
        LoadError::NotFound => ClientError::WhiteboardNotFound { whiteboard_id: text },
        LoadError::StoreError => ClientError::Other {
            message: "Error occurred fetching whiteboard ".to_owned().concat(text.as_str()),
        },
    };
    ServerSocketMessage::IndividualError { client_id, error }
}

/// As many fresh durable ids as asked for.
pub fn fresh_object_ids(count: usize) -> (r: Vec<ObjectId>)
    ensures
        r@.len() == count,
        forall|i: int| 0 <= i < r@.len() ==> r@[i] < OBJECT_ID_LIMIT,
{
    let mut out: Vec<ObjectId> = Vec::new();
    let mut i: usize = 0;
    while i < count
        invariant
            i <= count,
            out@.len() == i,
            forall|j: int| 0 <= j < out@.len() ==> out@[j] < OBJECT_ID_LIMIT,
        decreases count - i,
    {
        out.push(generate_object_id());
        i = i + 1;
    }
    out
}

/// Handles one message of a connection that has logged in: `client_msg` is
/// the message as it was read from the text `client_msg_s`, or nothing
/// where the text could not be read. The fresh ids and the instant that the
/// step takes are drawn here, so the contract holds for whichever came.
pub fn handle_authenticated_client_message(
    client_state: &ClientState,
    session: &mut SharedWhiteboardEntry,
    client_msg_s: &str,
    client_msg: Option<ClientSocketMessage>,
) -> (resp: Option<ServerSocketMessage>)
    ensures
        exists|ids: Seq<ObjectId>, now: UtcDateTime| #[trigger]
            authenticated_step(
                client_state@,
                old(session)@,
                client_msg_s@,
                message_view(client_msg),
                ids,
                now,
                final(session)@,
                response_view(resp),
            ) && fresh_ids_fit(message_view(client_msg), ids),
{
    let count: usize = match &client_msg {
        Some(m) => m.fresh_ids_needed(),
        None => 0,
    };
    let ids = fresh_object_ids(count);
    let now = UtcDateTime::now();
    let resp = apply_client_message(client_state, session, client_msg_s, client_msg, &ids, now);
    proof {
        assert(authenticated_step(
            client_state@,
            old(session)@,
            client_msg_s@,
            message_view(client_msg),
            ids@,
            now,
            session@,
            response_view(resp),
        ) && fresh_ids_fit(message_view(client_msg), ids@));
    }
    resp
}

/// Whether `ids` are fresh ids for the message: as many as it takes, each
/// a durable id.
pub open spec fn fresh_ids_fit(msg: Option<ClientSocketMessageSpec>, ids: Seq<ObjectId>) -> bool {
    &&& msg matches Some(m) ==> ids.len() == m.fresh_ids_needed()
    &&& forall|i: int| 0 <= i < ids.len() ==> ids[i] < OBJECT_ID_LIMIT
}

} // verus!
