//! Users, and the access that a whiteboard grants them.

use vstd::prelude::*;
use crate::ids::{
    encode_object_id, object_id_hex, parse_object_id, spec_parse_object_id, InvalidObjectId,
    ObjectId, UserIdType,
};

verus! {

/// Access tier that a principal holds on a whiteboard: `View < Edit < Own`.
#[derive(Copy, Clone, Debug, PartialEq, Eq, Structural)]
pub enum WhiteboardPermissionEnum {
    View,
    Edit,
    Own,
}

impl WhiteboardPermissionEnum {
    /// Position of the tier in the order `View < Edit < Own`.
    pub open spec fn rank(self) -> nat {
        match self {
            WhiteboardPermissionEnum::View => 0,
            WhiteboardPermissionEnum::Edit => 1,
            WhiteboardPermissionEnum::Own => 2,
        }
    }

    /// Whether the tier authorizes mutations of the document: `Edit` and
    /// `Own` do, and to the same extent.
    pub open spec fn spec_can_edit(self) -> bool {
        self.rank() >= 1
    }

    pub fn can_edit(self) -> (r: bool)
        ensures
            r == self.spec_can_edit(),
    {
        match self {
            WhiteboardPermissionEnum::View => false,
            WhiteboardPermissionEnum::Edit => true,
            WhiteboardPermissionEnum::Own => true,
        }
    }
}

/// The principal of a grant: an account, or an email address that no
/// account is bound to yet.
#[derive(Clone, Debug, PartialEq, Eq)]
pub enum WhiteboardPermissionType {
    User { user: ObjectId },
    Email { email: String },
}

pub enum WhiteboardPermissionTypeSpec {
    User { user: ObjectId },
    Email { email: Seq<char> },
}

impl View for WhiteboardPermissionType {
    type V = WhiteboardPermissionTypeSpec;

    open spec fn view(&self) -> WhiteboardPermissionTypeSpec {
        match *self {
            WhiteboardPermissionType::User { user } => WhiteboardPermissionTypeSpec::User { user },
            WhiteboardPermissionType::Email { email } => WhiteboardPermissionTypeSpec::Email {
                email: email@,
            },
        }
    }
}

/// One entry of a whiteboard's list of shared users.
#[derive(Clone, Debug, PartialEq, Eq)]
pub struct WhiteboardPermission {
    pub permission_type: WhiteboardPermissionType,
    pub permission: WhiteboardPermissionEnum,
}

pub struct WhiteboardPermissionSpec {
    pub permission_type: WhiteboardPermissionTypeSpec,
    pub permission: WhiteboardPermissionEnum,
}

impl View for WhiteboardPermission {
    type V = WhiteboardPermissionSpec;

    open spec fn view(&self) -> WhiteboardPermissionSpec {
        WhiteboardPermissionSpec {
            permission_type: self.permission_type@,
            permission: self.permission,
        }
    }
}

pub type WhiteboardPermissionMongoDBView = WhiteboardPermission;

impl WhiteboardPermission {
    /// A copy of the entry.
    pub fn duplicate(&self) -> (r: WhiteboardPermission)
        ensures
            r@ == self@,
    {
        let permission_type = match &self.permission_type {
            WhiteboardPermissionType::User { user } => WhiteboardPermissionType::User {
                user: *user,
            },
            WhiteboardPermissionType::Email { email } => WhiteboardPermissionType::Email {
                email: email.clone(),
            },
        };
        WhiteboardPermission { permission_type, permission: self.permission }
    }
}

/// The views of a list of grants, in order.
pub open spec fn permissions_view(shared: Seq<WhiteboardPermission>) -> Seq<
    WhiteboardPermissionSpec,
> {
    shared.map_values(|p: WhiteboardPermission| p@)
}

/// The tier of each account that a list of grants names. Grants to an email
/// address name no account; of two grants to one account the later counts.
pub open spec fn permission_index(shared: Seq<WhiteboardPermissionSpec>) -> Map<
    ObjectId,
    WhiteboardPermissionEnum,
>
    decreases shared.len(),
{
    if shared.len() == 0 {
        Map::empty()
    } else {
        let rest = permission_index(shared.drop_last());
        match shared.last().permission_type {
            WhiteboardPermissionTypeSpec::User { user } => rest.insert(
                user,
                shared.last().permission,
            ),
            WhiteboardPermissionTypeSpec::Email { .. } => rest,
        }
    }
}

/// Access tier as the user records of the store name it.
#[derive(Clone, Copy, Debug, PartialEq, Eq, Structural)]
pub enum UserPermissionEnum {
    Own,
    Edit,
    View,
}

/// A grant as a user record holds it.
#[derive(Clone, Debug, PartialEq, Eq)]
pub enum UserPermission {
    Id { user_id: ObjectId, permission: UserPermissionEnum },
    Email { email: String, permission: UserPermissionEnum },
}

/// An account.
#[derive(Debug, Clone, PartialEq, Eq)]
pub struct User {
    pub id: UserIdType,
    pub username: String,
    pub email: String,
}

pub struct UserSpec {
    pub id: UserIdType,
    pub username: Seq<char>,
    pub email: Seq<char>,
}

impl View for User {
    type V = UserSpec;

    open spec fn view(&self) -> UserSpec {
        UserSpec { id: self.id, username: self.username@, email: self.email@ }
    }
}

/// An account as clients see it: the id as text.
#[derive(Debug, Clone, PartialEq, Eq)]
pub struct UserClientView {
    pub id: String,
    pub username: String,
    pub email: String,
}

pub struct UserClientViewSpec {
    pub id: Seq<char>,
    pub username: Seq<char>,
    pub email: Seq<char>,
}

impl View for UserClientView {
    type V = UserClientViewSpec;

    open spec fn view(&self) -> UserClientViewSpec {
        UserClientViewSpec { id: self.id@, username: self.username@, email: self.email@ }
    }
}

impl UserClientView {
    pub fn from_user(user: &User) -> (r: UserClientView)
        ensures
            r@ == (UserClientViewSpec {
                id: object_id_hex(user.id),
                username: user.username@,
                email: user.email@,
            }),
    {
        UserClientView {
            id: encode_object_id(user.id),
            username: user.username.clone(),
            email: user.email.clone(),
        }
    }

    /// The account that the view shows, unless its id is no durable id.
    pub fn to_user(&self) -> (r: Result<User, InvalidObjectId>)
        ensures
            match spec_parse_object_id(self.id@) {
                Some(id) => r is Ok && r->Ok_0@ == (UserSpec {
                    id,
                    username: self.username@,
                    email: self.email@,
                }),
                None => r is Err,
            },
    {
        match parse_object_id(self.id.as_str()) {
            Ok(id) => Ok(User { id, username: self.username.clone(), email: self.email.clone() }),
            Err(e) => Err(e),
        }
    }
}

/// An account as the store holds it.
#[derive(Debug, Clone, PartialEq, Eq)]
pub struct UserMongoDBView {
    pub id: ObjectId,
    pub username: String,
    pub email: String,
}

impl View for UserMongoDBView {
    type V = UserSpec;

    open spec fn view(&self) -> UserSpec {
        UserSpec { id: self.id, username: self.username@, email: self.email@ }
    }
}

impl UserMongoDBView {
    pub fn from_user(user: &User) -> (r: UserMongoDBView)
        ensures
            r@ == user@,
    {
        UserMongoDBView {
            id: user.id,
            username: user.username.clone(),
            email: user.email.clone(),
        }
    }

    pub fn to_user(&self) -> (r: User)
        ensures
            r@ == self@,
    {
        User { id: self.id, username: self.username.clone(), email: self.email.clone() }
    }
}

/// The identity shown in presence lists.
#[derive(Debug, Clone, PartialEq, Eq)]
pub struct UserSummary {
    pub user_id: String,
    pub username: String,
}

pub struct UserSummarySpec {
    pub user_id: Seq<char>,
    pub username: Seq<char>,
}

impl View for UserSummary {
    type V = UserSummarySpec;

    open spec fn view(&self) -> UserSummarySpec {
        UserSummarySpec { user_id: self.user_id@, username: self.username@ }
    }
}

impl UserSummary {
    /// A copy of the summary.
    pub fn duplicate(&self) -> (r: UserSummary)
        ensures
            r@ == self@,
    {
        UserSummary { user_id: self.user_id.clone(), username: self.username.clone() }
    }
}

} // verus!
