//! What clients send, what the server answers, and the record of each
//! committed change.

use vstd::prelude::*;
use crate::canvas::{
    id_entries_view, text_entries_view, texts_view, CanvasClientView, CanvasClientViewSpec,
};
use crate::ids::{CanvasIdType, ClientIdType, ObjectId};
use crate::shape::{shapes_view, ShapeModel, ShapeSpec};
use crate::users::{UserSummary, UserSummarySpec};
use crate::whiteboard::{WhiteboardClientView, WhiteboardClientViewSpec};

verus! {

/// An atomic change to a whiteboard that was committed in memory and is
/// still to be written to the store.
#[derive(Debug, Clone)]
#[allow(inconsistent_fields)]
pub enum WhiteboardDiff {
    CreateCanvas {
        canvas_id: CanvasIdType,
        name: String,
        width: i32,
        height: i32,
        allowed_users: Vec<ObjectId>,
    },
    DeleteCanvases { canvas_ids: Vec<CanvasIdType> },
    CreateShapes { canvas_id: CanvasIdType, shapes: Vec<(ObjectId, ShapeModel)> },
    UpdateShapes { canvas_id: CanvasIdType, shapes: Vec<(ObjectId, ShapeModel)> },
    UpdateCanvasAllowedUsers { canvas_id: CanvasIdType, allowed_users: Vec<ObjectId> },
}

#[allow(inconsistent_fields)]
pub enum WhiteboardDiffSpec {
    CreateCanvas {
        canvas_id: CanvasIdType,
        name: Seq<char>,
        width: i32,
        height: i32,
        allowed_users: Seq<ObjectId>,
    },
    DeleteCanvases { canvas_ids: Seq<CanvasIdType> },
    CreateShapes { canvas_id: CanvasIdType, shapes: Seq<(ObjectId, ShapeSpec)> },
    UpdateShapes { canvas_id: CanvasIdType, shapes: Seq<(ObjectId, ShapeSpec)> },
    UpdateCanvasAllowedUsers { canvas_id: CanvasIdType, allowed_users: Seq<ObjectId> },
}

impl View for WhiteboardDiff {
    type V = WhiteboardDiffSpec;

    open spec fn view(&self) -> WhiteboardDiffSpec {
        match *self {
            WhiteboardDiff::CreateCanvas { canvas_id, name, width, height, allowed_users } => {
                WhiteboardDiffSpec::CreateCanvas {
                    canvas_id,
                    name: name@,
                    width,
                    height,
                    allowed_users: allowed_users@,
                }
            },
            WhiteboardDiff::DeleteCanvases { canvas_ids } => WhiteboardDiffSpec::DeleteCanvases {
                canvas_ids: canvas_ids@,
            },
            WhiteboardDiff::CreateShapes { canvas_id, shapes } => WhiteboardDiffSpec::CreateShapes {
                canvas_id,
                shapes: id_entries_view(shapes@),
            },
            WhiteboardDiff::UpdateShapes { canvas_id, shapes } => WhiteboardDiffSpec::UpdateShapes {
                canvas_id,
                shapes: id_entries_view(shapes@),
            },
            WhiteboardDiff::UpdateCanvasAllowedUsers { canvas_id, allowed_users } => {
                WhiteboardDiffSpec::UpdateCanvasAllowedUsers {
                    canvas_id,
                    allowed_users: allowed_users@,
                }
            },
        }
    }
}

/// The views of a queue of diffs, oldest first.
pub open spec fn diffs_view(diffs: Seq<WhiteboardDiff>) -> Seq<WhiteboardDiffSpec> {
    diffs.map_values(|d: WhiteboardDiff| d@)
}

/// The errors that the server reports to clients.
#[derive(Debug, Clone, PartialEq, Eq)]
pub enum ClientError {
    /// The message could not be read.
    InvalidMessage { client_message_raw: String },
    /// The connection has not logged in.
    NotAuthenticated,
    /// The user has no access to the whiteboard.
    Unauthorized,
    /// The connection has logged in already.
    AlreadyAuthorized,
    /// The credential is malformed.
    InvalidAuth,
    /// The credential has expired.
    AuthTokenExpired,
    UserNotFound { user_id: String },
    WhiteboardNotFound { whiteboard_id: String },
    CanvasNotFound { canvas_id: String },
    /// The user's tier does not allow the action.
    ActionForbidden { action: String },
    Other { message: String },
}

pub enum ClientErrorSpec {
    InvalidMessage { client_message_raw: Seq<char> },
    NotAuthenticated,
    Unauthorized,
    AlreadyAuthorized,
    InvalidAuth,
    AuthTokenExpired,
    UserNotFound { user_id: Seq<char> },
    WhiteboardNotFound { whiteboard_id: Seq<char> },
    CanvasNotFound { canvas_id: Seq<char> },
    ActionForbidden { action: Seq<char> },
    Other { message: Seq<char> },
}

impl View for ClientError {
    type V = ClientErrorSpec;

    open spec fn view(&self) -> ClientErrorSpec {
        match *self {
            ClientError::InvalidMessage { client_message_raw } => ClientErrorSpec::InvalidMessage {
                client_message_raw: client_message_raw@,
            },
            ClientError::NotAuthenticated => ClientErrorSpec::NotAuthenticated,
            ClientError::Unauthorized => ClientErrorSpec::Unauthorized,
            ClientError::AlreadyAuthorized => ClientErrorSpec::AlreadyAuthorized,
            ClientError::InvalidAuth => ClientErrorSpec::InvalidAuth,
            ClientError::AuthTokenExpired => ClientErrorSpec::AuthTokenExpired,
            ClientError::UserNotFound { user_id } => ClientErrorSpec::UserNotFound {
                user_id: user_id@,
            },
            ClientError::WhiteboardNotFound { whiteboard_id } => {
                ClientErrorSpec::WhiteboardNotFound { whiteboard_id: whiteboard_id@ }
            },
            ClientError::CanvasNotFound { canvas_id } => ClientErrorSpec::CanvasNotFound {
                canvas_id: canvas_id@,
            },
            ClientError::ActionForbidden { action } => ClientErrorSpec::ActionForbidden {
                action: action@,
            },
            ClientError::Other { message } => ClientErrorSpec::Other { message: message@ },
        }
    }
}

/// What the server sends.
#[derive(Debug, Clone, PartialEq)]
#[allow(inconsistent_fields)]
pub enum ServerSocketMessage {
    InitClient { client_id: ClientIdType, whiteboard: WhiteboardClientView },
    ActiveUsers { users: Vec<UserSummary> },
    CreateShapes { client_id: ClientIdType, canvas_id: String, shapes: Vec<(String, ShapeModel)> },
    UpdateShapes { client_id: ClientIdType, canvas_id: String, shapes: Vec<(String, ShapeModel)> },
    CreateCanvas { client_id: ClientIdType, canvas: CanvasClientView },
    DeleteCanvases { client_id: ClientIdType, canvas_ids: Vec<String> },
    UpdateCanvasAllowedUsers {
        client_id: ClientIdType,
        canvas_id: String,
        allowed_users: Vec<String>,
    },
    /// An error for the connection `client_id` alone.
    IndividualError { client_id: ClientIdType, error: ClientError },
    /// An error for every connection of the session.
    BroadcastError { error: ClientError },
}

#[allow(inconsistent_fields)]
pub enum ServerSocketMessageSpec {
    InitClient { client_id: ClientIdType, whiteboard: WhiteboardClientViewSpec },
    ActiveUsers { users: Seq<UserSummarySpec> },
    CreateShapes {
        client_id: ClientIdType,
        canvas_id: Seq<char>,
        shapes: Seq<(Seq<char>, ShapeSpec)>,
    },
    UpdateShapes {
        client_id: ClientIdType,
        canvas_id: Seq<char>,
        shapes: Seq<(Seq<char>, ShapeSpec)>,
    },
    CreateCanvas { client_id: ClientIdType, canvas: CanvasClientViewSpec },
    DeleteCanvases { client_id: ClientIdType, canvas_ids: Seq<Seq<char>> },
    UpdateCanvasAllowedUsers {
        client_id: ClientIdType,
        canvas_id: Seq<char>,
        allowed_users: Seq<Seq<char>>,
    },
    IndividualError { client_id: ClientIdType, error: ClientErrorSpec },
    BroadcastError { error: ClientErrorSpec },
}

/// The views of a list of user summaries, in order.
pub open spec fn summaries_view(users: Seq<UserSummary>) -> Seq<UserSummarySpec> {
    users.map_values(|u: UserSummary| u@)
}

impl View for ServerSocketMessage {
    type V = ServerSocketMessageSpec;

    open spec fn view(&self) -> ServerSocketMessageSpec {
        match *self {
            ServerSocketMessage::InitClient { client_id, whiteboard } => {
                ServerSocketMessageSpec::InitClient { client_id, whiteboard: whiteboard@ }
            },
            ServerSocketMessage::ActiveUsers { users } => ServerSocketMessageSpec::ActiveUsers {
                users: summaries_view(users@),
            },
            ServerSocketMessage::CreateShapes { client_id, canvas_id, shapes } => {
                ServerSocketMessageSpec::CreateShapes {
                    client_id,
                    canvas_id: canvas_id@,
                    shapes: text_entries_view(shapes@),
                }
            },
            ServerSocketMessage::UpdateShapes { client_id, canvas_id, shapes } => {
                ServerSocketMessageSpec::UpdateShapes {
                    client_id,
                    canvas_id: canvas_id@,
                    shapes: text_entries_view(shapes@),
                }
            },
            ServerSocketMessage::CreateCanvas { client_id, canvas } => {
                ServerSocketMessageSpec::CreateCanvas { client_id, canvas: canvas@ }
            },
            ServerSocketMessage::DeleteCanvases { client_id, canvas_ids } => {
                ServerSocketMessageSpec::DeleteCanvases {
                    client_id,
                    canvas_ids: texts_view(canvas_ids@),
                }
            },
            ServerSocketMessage::UpdateCanvasAllowedUsers { client_id, canvas_id, allowed_users } => {
                ServerSocketMessageSpec::UpdateCanvasAllowedUsers {
                    client_id,
                    canvas_id: canvas_id@,
                    allowed_users: texts_view(allowed_users@),
                }
            },
            ServerSocketMessage::IndividualError { client_id, error } => {
                ServerSocketMessageSpec::IndividualError { client_id, error: error@ }
            },
            ServerSocketMessage::BroadcastError { error } => {
                ServerSocketMessageSpec::BroadcastError { error: error@ }
            },
        }
    }
}

impl ServerSocketMessageSpec {
    /// Whether the message is meant for the connection `client_id`: an
    /// individual error is meant for the connection it names, every other
    /// message for all connections of the session.
    pub open spec fn is_for(self, client_id: ClientIdType) -> bool {
        match self {
            ServerSocketMessageSpec::IndividualError { client_id: to, .. } => to == client_id,
            _ => true,
        }
    }
}

impl ServerSocketMessage {
    /// Whether the message is to be forwarded to the connection
    /// `client_id`.
    pub fn is_for(&self, client_id: ClientIdType) -> (r: bool)
        ensures
            r == self@.is_for(client_id),
    {
        match self {
            ServerSocketMessage::IndividualError { client_id: to, .. } => *to == client_id,
            _ => true,
        }
    }
}

/// The view of an answer, where there is one.
pub open spec fn response_view(resp: Option<ServerSocketMessage>) -> Option<
    ServerSocketMessageSpec,
> {
    match resp {
        Some(m) => Some(m@),
        None => None,
    }
}

/// What a client sends. The updates of `UpdateShapes` are keyed by the text
/// of a shape's id and come in the order in which they are to be applied.
#[derive(Debug, Clone)]
#[allow(inconsistent_fields)]
pub enum ClientSocketMessage {
    CreateShapes { canvas_id: CanvasIdType, shapes: Vec<ShapeModel> },
    UpdateShapes { canvas_id: CanvasIdType, shapes: Vec<(String, ShapeModel)> },
    CreateCanvas { width: i32, height: i32, name: String, allowed_users: Vec<ObjectId> },
    DeleteCanvases { canvas_ids: Vec<CanvasIdType> },
    Login { jwt: String },
    UpdateCanvasAllowedUsers { canvas_id: CanvasIdType, allowed_users: Vec<ObjectId> },
}

#[allow(inconsistent_fields)]
pub enum ClientSocketMessageSpec {
    CreateShapes { canvas_id: CanvasIdType, shapes: Seq<ShapeSpec> },
    UpdateShapes { canvas_id: CanvasIdType, shapes: Seq<(Seq<char>, ShapeSpec)> },
    CreateCanvas { width: i32, height: i32, name: Seq<char>, allowed_users: Seq<ObjectId> },
    DeleteCanvases { canvas_ids: Seq<CanvasIdType> },
    Login { jwt: Seq<char> },
    UpdateCanvasAllowedUsers { canvas_id: CanvasIdType, allowed_users: Seq<ObjectId> },
}

impl View for ClientSocketMessage {
    type V = ClientSocketMessageSpec;

    open spec fn view(&self) -> ClientSocketMessageSpec {
        match *self {
            ClientSocketMessage::CreateShapes { canvas_id, shapes } => {
                ClientSocketMessageSpec::CreateShapes { canvas_id, shapes: shapes_view(shapes@) }
            },
            ClientSocketMessage::UpdateShapes { canvas_id, shapes } => {
                ClientSocketMessageSpec::UpdateShapes {
                    canvas_id,
                    shapes: text_entries_view(shapes@),
                }
            },
            ClientSocketMessage::CreateCanvas { width, height, name, allowed_users } => {
                ClientSocketMessageSpec::CreateCanvas {
                    width,
                    height,
                    name: name@,
                    allowed_users: allowed_users@,
                }
            },
            ClientSocketMessage::DeleteCanvases { canvas_ids } => {
                ClientSocketMessageSpec::DeleteCanvases { canvas_ids: canvas_ids@ }
            },
            ClientSocketMessage::Login { jwt } => ClientSocketMessageSpec::Login { jwt: jwt@ },
            ClientSocketMessage::UpdateCanvasAllowedUsers { canvas_id, allowed_users } => {
                ClientSocketMessageSpec::UpdateCanvasAllowedUsers {
                    canvas_id,
                    allowed_users: allowed_users@,
                }
            },
        }
    }
}

impl ClientSocketMessageSpec {
    /// The tag under which the message travels.
    pub open spec fn type_tag(self) -> Seq<char> {
        match self {
            ClientSocketMessageSpec::CreateShapes { .. } => "create_shapes"@,
            ClientSocketMessageSpec::UpdateShapes { .. } => "update_shapes"@,
            ClientSocketMessageSpec::CreateCanvas { .. } => "create_canvas"@,
            ClientSocketMessageSpec::DeleteCanvases { .. } => "delete_canvases"@,
            ClientSocketMessageSpec::Login { .. } => "login"@,
            ClientSocketMessageSpec::UpdateCanvasAllowedUsers { .. } => {
                "update_canvas_allowed_users"@
            },
        }
    }

    /// How many fresh durable ids the message takes: one for each shape to
    /// create, one for a canvas to create.
    pub open spec fn fresh_ids_needed(self) -> nat {
        match self {
            ClientSocketMessageSpec::CreateShapes { shapes, .. } => shapes.len(),
            ClientSocketMessageSpec::CreateCanvas { .. } => 1,
            _ => 0,
        }
    }
}

impl ClientSocketMessage {
    /// The tag under which the message travels.
    pub fn type_tag(&self) -> (r: String)
        ensures
            r@ == self@.type_tag(),
    {
        match self {
            ClientSocketMessage::CreateShapes { .. } => "create_shapes".to_owned(),
            ClientSocketMessage::UpdateShapes { .. } => "update_shapes".to_owned(),
            ClientSocketMessage::CreateCanvas { .. } => "create_canvas".to_owned(),
            ClientSocketMessage::DeleteCanvases { .. } => "delete_canvases".to_owned(),
            ClientSocketMessage::Login { .. } => "login".to_owned(),
            ClientSocketMessage::UpdateCanvasAllowedUsers { .. } => {
                "update_canvas_allowed_users".to_owned()
            },
        }
    }

    /// How many fresh durable ids the message takes.
    pub fn fresh_ids_needed(&self) -> (r: usize)
        ensures
            r == self@.fresh_ids_needed(),
    {
        match self {
            ClientSocketMessage::CreateShapes { shapes, .. } => shapes.len(),
            ClientSocketMessage::CreateCanvas { .. } => 1,
            _ => 0,
        }
    }
}

/// The view of a message, where one was read.
pub open spec fn message_view(msg: Option<ClientSocketMessage>) -> Option<
    ClientSocketMessageSpec,
> {
    match msg {
        Some(m) => Some(m@),
        None => None,
    }
}

} // verus!
