//! The synchronization engine of a collaborative whiteboard server: the
//! document that a session holds in memory, the login and permission state
//! of each connection, the answer to each message, and the record of changes
//! that awaits the durable store.

pub mod auth;
pub mod canvas;
pub mod handlers;
pub mod ids;
pub mod laws;
pub mod listing;
pub mod login;
pub mod messages;
pub mod session;
pub mod shape;
pub mod store;
pub mod time;
pub mod users;
pub mod whiteboard;

pub use auth::{get_user_id_from_jwt, JWTClaims, JWTExpiredError, RawClaims, TokenError};
pub use canvas::{Canvas, CanvasClientView};
pub use handlers::{
    apply_client_message, handle_authenticated_client_message, load_failure_reply,
};
pub use ids::{
    object_id_to_hex, parse_object_id, CanvasIdType, CanvasObjectIdType,
    ClientIdType, InvalidObjectId, ObjectId,
    UserIdType, WhiteboardIdType,
};
pub use login::{
    begin_login, finish_login, handle_unauthenticated_client_message, LoginStep, UserStore,
    UserStoreError,
};
pub use messages::{ClientError, ClientSocketMessage, ServerSocketMessage, WhiteboardDiff};
pub use session::{
    ClientState, ConnectionState, LoadError, LoadOutcome, ProgramState, SharedWhiteboardEntry,
};
pub use shape::{Scalar, ShapeModel};
pub use store::{
    assemble_whiteboard, dt_bson_to_chrono_utc, dt_chrono_utc_to_bson, plan_store_operations,
    try_dt_bson_to_chrono_utc, CanvasMongoDBView, CanvasObject, CanvasObjectMongoDBView,
    StoreOperation, WhiteboardMongoDBView,
};
pub use time::UtcDateTime;
pub use users::{
    User, UserClientView, UserMongoDBView, UserPermission, UserPermissionEnum, UserSummary,
    WhiteboardPermission, WhiteboardPermissionEnum, WhiteboardPermissionMongoDBView,
    WhiteboardPermissionType,
};
pub use whiteboard::{Whiteboard, WhiteboardClientView};
