//! Login: the one message that a connection may send before it is known,
//! and what becomes of it.

use vstd::prelude::*;
use vstd::string::StringExecFns;
use crate::auth::{get_user_id_from_jwt, token_outcome, verified_claims, TokenError};
use crate::handlers::individual_error;
use crate::ids::{encode_object_id, object_id_hex, ClientIdType, ObjectId, UserIdType};
use crate::messages::{
    message_view, response_view, ClientError, ClientErrorSpec, ClientSocketMessage,
    ClientSocketMessageSpec, ServerSocketMessage, ServerSocketMessageSpec,
};
use crate::session::{ClientState, ClientStateSpec, SharedWhiteboardEntry, SharedWhiteboardEntrySpec};
use crate::users::{User, UserSpec, UserSummary, UserSummarySpec};
use crate::whiteboard::shows_whiteboard;

verus! {

broadcast use vstd::std_specs::hash::group_hash_axioms;

/// A failure of the store of users.
#[derive(Clone, Debug, PartialEq, Eq)]
pub struct UserStoreError {
    pub message: String,
}

/// A source of accounts, by id. It only reads.
pub trait UserStore {
    fn get_user_by_id(&self, user_id: &UserIdType) -> (r: Result<Option<User>, UserStoreError>);
}

/// What a lookup of an account gave.
pub enum UserLookupSpec {
    Failed,
    Missing,
    Found(UserSpec),
}

/// What a lookup of an account gave.
pub open spec fn lookup_view(lookup: Result<Option<User>, UserStoreError>) -> UserLookupSpec {
    match lookup {
        Err(_) => UserLookupSpec::Failed,
        Ok(None) => UserLookupSpec::Missing,
        Ok(Some(user)) => UserLookupSpec::Found(user@),
    }
}

/// What follows the first look at a message of a connection that has not
/// logged in: an answer, or the lookup of the account that the credential
/// names.
#[derive(Clone, Debug, PartialEq)]
pub enum LoginStep {
    Respond(ServerSocketMessage),
    LookUpUser(UserIdType),
}

pub enum LoginStepSpec {
    Respond(ServerSocketMessageSpec),
    LookUpUser(UserIdType),
}

impl View for LoginStep {
    type V = LoginStepSpec;

    open spec fn view(&self) -> LoginStepSpec {
        match *self {
            LoginStep::Respond(m) => LoginStepSpec::Respond(m@),
            LoginStep::LookUpUser(id) => LoginStepSpec::LookUpUser(id),
        }
    }
}

/// The error that answers a credential that names no user.
pub open spec fn token_error_reply(error: TokenError) -> ClientErrorSpec {
    match error {
        TokenError::Expired(_) => ClientErrorSpec::AuthTokenExpired,
        _ => ClientErrorSpec::InvalidAuth,
    }
}

/// What follows the check of a login's credential.
pub open spec fn step_after_token(
    client_id: ClientIdType,
    token: Result<ObjectId, TokenError>,
) -> LoginStepSpec {
    match token {
        Ok(user_id) => LoginStepSpec::LookUpUser(user_id),
        Err(e) => LoginStepSpec::Respond(
            ServerSocketMessageSpec::IndividualError { client_id, error: token_error_reply(e) },
        ),
    }
}

/// The answer to what is no login: a text that could not be read is
/// answered with `InvalidMessage`, any message but a login with
/// `NotAuthenticated`.
pub open spec fn refusal(
    client_id: ClientIdType,
    raw: Seq<char>,
    msg: Option<ClientSocketMessageSpec>,
) -> ServerSocketMessageSpec {
    match msg {
        None => ServerSocketMessageSpec::IndividualError {
            client_id,
            error: ClientErrorSpec::InvalidMessage { client_message_raw: raw },
        },
        Some(_) => ServerSocketMessageSpec::IndividualError {
            client_id,
            error: ClientErrorSpec::NotAuthenticated,
        },
    }
}

/// What follows the first look at a message, where `token` is what the
/// check of the credential gave, if the message is a login.
pub open spec fn first_phase(
    client_id: ClientIdType,
    raw: Seq<char>,
    msg: Option<ClientSocketMessageSpec>,
    token: Result<ObjectId, TokenError>,
) -> LoginStepSpec {
    match msg {
        Some(ClientSocketMessageSpec::Login { .. }) => step_after_token(client_id, token),
        _ => LoginStepSpec::Respond(refusal(client_id, raw, msg)),
    }
}

/// Whether `token` is what the check of the credential of `msg` can give
/// under the key `secret`. Of a message that is no login nothing is
/// checked.
pub open spec fn token_checked(
    secret: Seq<char>,
    msg: Option<ClientSocketMessageSpec>,
    token: Result<ObjectId, TokenError>,
) -> bool {
    msg matches Some(ClientSocketMessageSpec::Login { jwt }) ==> exists|now: i64| #[trigger]
        token_outcome(verified_claims(jwt, secret), now, token)
}

/// The text that tells of a failed lookup of the account `user_id`.
pub open spec fn lookup_failure_message(user_id: UserIdType) -> Seq<char> {
    "Error fetching user "@ + object_id_hex(user_id)
}

/// The end of a login, once the account `user_id` was looked up: without
/// an account, or without a tier for it on the whiteboard, the login fails
/// and nothing changes; else the connection is registered with the
/// session, takes the tier, and is sent the whiteboard.
pub open spec fn login_completion(
    client_pre: ClientStateSpec,
    pre: SharedWhiteboardEntrySpec,
    user_id: UserIdType,
    lookup: UserLookupSpec,
    client_post: ClientStateSpec,
    post: SharedWhiteboardEntrySpec,
    resp: Option<ServerSocketMessageSpec>,
) -> bool {
    let client_id = client_pre.client_id;
    let index = pre.whiteboard.permissions_by_user_id;
    match lookup {
        UserLookupSpec::Failed => {
            &&& client_post == client_pre
            &&& post == pre
            &&& resp == individual_error(
                client_id,
                ClientErrorSpec::Other { message: lookup_failure_message(user_id) },
            )
        },
        UserLookupSpec::Missing => {
            &&& client_post == client_pre
            &&& post == pre
            &&& resp == individual_error(
                client_id,
                ClientErrorSpec::UserNotFound { user_id: object_id_hex(user_id) },
            )
        },
        UserLookupSpec::Found(user) => if index.contains_key(user_id) {
            &&& client_post == (ClientStateSpec {
                user_whiteboard_permission: Some(index[user_id]),
                ..client_pre
            })
            &&& post == (SharedWhiteboardEntrySpec {
                active_clients: pre.active_clients.insert(
                    client_id,
                    UserSummarySpec { user_id: object_id_hex(user_id), username: user.username },
                ),
                ..pre
            })
            &&& resp matches Some(
                ServerSocketMessageSpec::InitClient { client_id: to, whiteboard: shown },
            )
            &&& to == client_id
            &&& shows_whiteboard(shown, pre.whiteboard)
        } else {
            &&& client_post == client_pre
            &&& post == pre
            &&& resp == individual_error(client_id, ClientErrorSpec::Unauthorized)
        },
    }
}

/// The step of a connection that has not logged in, on one message, where
/// `token` is what the check of the credential gave and `lookup` what the
/// lookup of the account gave.
pub open spec fn unauthenticated_step(
    client_pre: ClientStateSpec,
    pre: SharedWhiteboardEntrySpec,
    raw: Seq<char>,
    msg: Option<ClientSocketMessageSpec>,
    token: Result<ObjectId, TokenError>,
    lookup: UserLookupSpec,
    client_post: ClientStateSpec,
    post: SharedWhiteboardEntrySpec,
    resp: Option<ServerSocketMessageSpec>,
) -> bool {
    match first_phase(client_pre.client_id, raw, msg, token) {
        LoginStepSpec::Respond(m) => {
            &&& client_post == client_pre
            &&& post == pre
            &&& resp == Some(m)
        },
        LoginStepSpec::LookUpUser(user_id) => login_completion(
            client_pre,
            pre,
            user_id,
            lookup,
            client_post,
            post,
            resp,
        ),
    }
}

/// What follows the check of a login's credential.
pub fn login_step_after_token(client_id: ClientIdType, token: Result<ObjectId, TokenError>) -> (step:
    LoginStep)
    ensures
        step@ == step_after_token(client_id, token),
{
    match token {
        Ok(user_id) => LoginStep::LookUpUser(user_id),
        Err(TokenError::Expired(_)) => LoginStep::Respond(
            ServerSocketMessage::IndividualError {
                client_id,
                error: ClientError::AuthTokenExpired,
            },
        ),
        Err(_) => LoginStep::Respond(
            ServerSocketMessage::IndividualError { client_id, error: ClientError::InvalidAuth },
        ),
    }
}

/// Looks at a message of a connection that has not logged in, and checks
/// the credential of a login.
pub fn begin_login(
    client_state: &ClientState,
    client_msg_s: &str,
    client_msg: Option<ClientSocketMessage>,
) -> (step: LoginStep)
    ensures
        exists|token: Result<ObjectId, TokenError>| #[trigger]
            token_checked(client_state@.jwt_secret, message_view(client_msg), token) && step@
                == first_phase(
                client_state.client_id,
                client_msg_s@,
                message_view(client_msg),
                token,
            ),
{
    let client_id: ClientIdType = client_state.client_id;
    match client_msg {
        Some(ClientSocketMessage::Login { jwt }) => {
            let token = get_user_id_from_jwt(jwt.as_str(), client_state.jwt_secret.as_str());
            let step = login_step_after_token(client_id, token);
            assert(token_checked(client_state@.jwt_secret, message_view(client_msg), token));
            step
        },
        Some(_) => {
            let step = LoginStep::Respond(
                ServerSocketMessage::IndividualError {
                    client_id,
                    error: ClientError::NotAuthenticated,
                },
            );
            let ghost token = Err::<ObjectId, TokenError>(TokenError::Rejected);
            assert(token_checked(client_state@.jwt_secret, message_view(client_msg), token));
            step
        },
        None => {
            let step = LoginStep::Respond(
                ServerSocketMessage::IndividualError {
                    client_id,
                    error: ClientError::InvalidMessage {
                        client_message_raw: client_msg_s.to_owned(),
                    },
                },
            );
            let ghost token = Err::<ObjectId, TokenError>(TokenError::Rejected);
            assert(token_checked(client_state@.jwt_secret, message_view(client_msg), token));
            step
        },
    }
}

/// Ends a login, once the account `user_id` was looked up.
pub fn finish_login(
    client_state: &mut ClientState,
    session: &mut SharedWhiteboardEntry,
    user_id: UserIdType,
    lookup: Result<Option<User>, UserStoreError>,
) -> (resp: Option<ServerSocketMessage>)
    ensures
        login_completion(
            old(client_state)@,
            old(session)@,
            user_id,
            lookup_view(lookup),
            final(client_state)@,
            final(session)@,
            response_view(resp),
        ),
{
    let client_id: ClientIdType = client_state.client_id;
    let user = match lookup {
        Err(_) => {
            let message = "Error fetching user ".to_owned().concat(
                encode_object_id(user_id).as_str(),
            );
            return Some(
                ServerSocketMessage::IndividualError {
                    client_id,
                    error: ClientError::Other { message },
                },
            );
        },
        Ok(None) => {
            return Some(
                ServerSocketMessage::IndividualError {
                    client_id,
                    error: ClientError::UserNotFound { user_id: encode_object_id(user_id) },
                },
            );
        },
        Ok(Some(user)) => user,
    };
    match session.whiteboard.permission_of(user_id) {
        Some(tier) => {
            session.register_connection(
                client_id,
                UserSummary { user_id: encode_object_id(user_id), username: user.username },
            );
            client_state.user_whiteboard_permission = Some(tier);
            Some(
                ServerSocketMessage::InitClient {
                    client_id,
                    whiteboard: session.whiteboard.to_client_view(),
                },
            )
        },
        None => Some(
            ServerSocketMessage::IndividualError { client_id, error: ClientError::Unauthorized },
        ),
    }
}

/// Handles one message of a connection that has not logged in:
/// `client_msg` is the message as it was read from the text
/// `client_msg_s`, or nothing where the text could not be read. The clock
/// and the store of users decide with it, so the contract holds for
/// whatever they gave.
pub fn handle_unauthenticated_client_message<S: UserStore>(
    client_state: &mut ClientState,
    session: &mut SharedWhiteboardEntry,
    user_store: &S,
    client_msg_s: &str,
    client_msg: Option<ClientSocketMessage>,
) -> (resp: Option<ServerSocketMessage>)
    ensures
        exists|token: Result<ObjectId, TokenError>, lookup: UserLookupSpec|
            token_checked(old(client_state)@.jwt_secret, message_view(client_msg), token)
                && #[trigger] unauthenticated_step(
                old(client_state)@,
                old(session)@,
                client_msg_s@,
                message_view(client_msg),
                token,
                lookup,
                final(client_state)@,
                final(session)@,
                response_view(resp),
            ),
{
    let step = begin_login(client_state, client_msg_s, client_msg);
    let ghost token = choose|token: Result<ObjectId, TokenError>| #[trigger]
        token_checked(client_state@.jwt_secret, message_view(client_msg), token) && step@
            == first_phase(
            client_state.client_id,
            client_msg_s@,
            message_view(client_msg),
            token,
        );
    match step {
        LoginStep::Respond(m) => {
            let resp = Some(m);
            assert(unauthenticated_step(
                old(client_state)@,
                old(session)@,
                client_msg_s@,
                message_view(client_msg),
                token,
                UserLookupSpec::Missing,
                client_state@,
                session@,
                response_view(resp),
            ));
            resp
        },
        LoginStep::LookUpUser(user_id) => {
            let lookup = user_store.get_user_by_id(&user_id);
            let resp = finish_login(client_state, session, user_id, lookup);
            assert(unauthenticated_step(
                old(client_state)@,
                old(session)@,
                client_msg_s@,
                message_view(client_msg),
                token,
                lookup_view(lookup),
                client_state@,
                session@,
                response_view(resp),
            ));
            resp
        },
    }
}

} // verus!
