use vstd::prelude::*;
use crate::time::ResDateTime;

verus! {

/// How a login request proves who is asking: with the account's password,
/// or with the token of an earlier session.
#[derive(Clone, Debug, PartialEq, Eq)]
pub enum UserSessionsAuthReq {
    Credentials { _type: String, password: String },
    Token { _type: String, session_token: String },
}

/// Whether `sent` is the credential `given` under the tag that belongs to
/// its variant: `password` for a password, `sessionToken` for the token of
/// an earlier session.
pub open spec fn is_tagged(sent: UserSessionsAuthReq, given: UserSessionsAuthReq) -> bool {
    match given {
        UserSessionsAuthReq::Credentials { _type: _, password } => {
            &&& sent matches UserSessionsAuthReq::Credentials { _type, password: p }
            &&& _type@ == "password"@
            &&& p@ == password@
        },
        UserSessionsAuthReq::Token { _type: _, session_token } => {
            &&& sent matches UserSessionsAuthReq::Token { _type, session_token: t }
            &&& _type@ == "sessionToken"@
            &&& t@ == session_token@
        },
    }
}

impl UserSessionsAuthReq {
    /// This credential under the tag that belongs to its variant, whatever
    /// tag it came with.
    pub fn tagged(self) -> (r: Self)
        ensures
            is_tagged(r, self),
    {
        match self {
            UserSessionsAuthReq::Credentials { _type, password } => UserSessionsAuthReq::Credentials {
                _type: "password".to_owned(),
                password,
            },
            UserSessionsAuthReq::Token { _type, session_token } => UserSessionsAuthReq::Token {
                _type: "sessionToken".to_owned(),
                session_token,
            },
        }
    }
}

/// The body of a login request.
#[derive(Clone, Debug, PartialEq, Eq)]
pub struct UserSessionsReq {
    pub username: String,
    pub authentication: UserSessionsAuthReq,
    pub secret_machine_id: String,
    pub remember_me: bool,
}

/// What the platform grants on a login: the user's id and a bearer token.
#[derive(Clone, Debug, PartialEq, Eq)]
pub struct SessionGrant {
    pub user_id: String,
    pub token: String,
}

/// The public profile of a user.
#[derive(Debug, PartialEq, Eq)]
pub struct UserProfile {
    pub icon_url: String,
    pub display_badges: Vec<()>,
}

/// The mathematical value of a `UserProfile`.
pub struct UserProfileView {
    pub icon_url: Seq<char>,
    pub display_badges: nat,
}

impl View for UserProfile {
    type V = UserProfileView;

    open spec fn view(&self) -> UserProfileView {
        UserProfileView { icon_url: self.icon_url@, display_badges: self.display_badges@.len() }
    }
}

impl Clone for UserProfile {
    fn clone(&self) -> (r: Self)
        ensures
            r@ == self@,
    {
        let mut badges: Vec<()> = Vec::new();
        let mut i: usize = 0;
        while i < self.display_badges.len()
            invariant
                0 <= i <= self.display_badges.len(),
                badges@.len() == i,
            decreases self.display_badges.len() - i,
        {
            badges.push(());
            i += 1;
        }
        UserProfile { icon_url: self.icon_url.clone(), display_badges: badges }
    }
}

/// The value of an optional profile.
pub open spec fn profile_view(profile: Option<UserProfile>) -> Option<UserProfileView> {
    match profile {
        Some(p) => Some(p@),
        None => None,
    }
}

/// A copy of an optional profile.
pub fn clone_profile(profile: &Option<UserProfile>) -> (r: Option<UserProfile>)
    ensures
        profile_view(r) == profile_view(*profile),
{
    match profile {
        Some(p) => Some(p.clone()),
        None => None,
    }
}

/// What the platform tells of a user.
#[derive(Debug, PartialEq, Eq)]
pub struct UserInfo {
    pub id: String,
    pub username: String,
    pub normalized_username: String,
    pub registration_date: String,
    pub is_verified: bool,
    pub is_locked: bool,
    pub supress_ban_evasion: bool,
    pub twofactor_login: bool,
    pub profile: Option<UserProfile>,
}

/// The mathematical value of a `UserInfo`.
pub struct UserInfoView {
    pub id: Seq<char>,
    pub username: Seq<char>,
    pub normalized_username: Seq<char>,
    pub registration_date: Seq<char>,
    pub is_verified: bool,
    pub is_locked: bool,
    pub supress_ban_evasion: bool,
    pub twofactor_login: bool,
    pub profile: Option<UserProfileView>,
}

impl View for UserInfo {
    type V = UserInfoView;

    open spec fn view(&self) -> UserInfoView {
        UserInfoView {
            id: self.id@,
            username: self.username@,
            normalized_username: self.normalized_username@,
            registration_date: self.registration_date@,
            is_verified: self.is_verified,
            is_locked: self.is_locked,
            supress_ban_evasion: self.supress_ban_evasion,
            twofactor_login: self.twofactor_login,
            profile: profile_view(self.profile),
        }
    }
}

impl Clone for UserInfo {
    fn clone(&self) -> (r: Self)
        ensures
            r@ == self@,
    {
        UserInfo {
            id: self.id.clone(),
            username: self.username.clone(),
            normalized_username: self.normalized_username.clone(),
            registration_date: self.registration_date.clone(),
            is_verified: self.is_verified,
            is_locked: self.is_locked,
            supress_ban_evasion: self.supress_ban_evasion,
            twofactor_login: self.twofactor_login,
            profile: clone_profile(&self.profile),
        }
    }
}

/// An entry of a user's contact list.
#[derive(Clone, Debug, PartialEq, Eq)]
pub struct Contact {
    pub id: String,
    pub contact_username: String,
    pub contact_status: String,
    pub is_accepted: bool,
    pub profile: Option<UserProfile>,
    pub latest_message_time: ResDateTime,
    pub is_migrated: bool,
    pub is_counterpart_migrated: bool,
    pub owner_id: String,
}

/// What a message carries.
#[derive(Clone, Copy, Debug, PartialEq, Eq, Structural)]
pub enum MessageType {
    Text,
    Object,
    Sound,
    SessionInvite,
}

/// A message between the user and a peer. `other_id` names the peer, the
/// participant who is not the owner.
#[derive(Clone, Debug, PartialEq, Eq)]
pub struct Message {
    pub id: String,
    pub sender_id: String,
    pub recipient_id: String,
    pub other_id: String,
    pub message_type: MessageType,
    pub content: String,
    pub send_time: ResDateTime,
    pub last_update_time: ResDateTime,
    pub read_time: Option<ResDateTime>,
    pub is_migrated: bool,
    pub owner_id: String,
}

/// Why a login did not give a token.
#[derive(Clone, Copy, Debug, PartialEq, Eq, Structural)]
pub enum LoginError {
    /// The platform answered that the credentials are wrong.
    InvalidCredentials,
    /// The answer was not the JSON record of a granted session.
    JsonParseFailed,
    /// The request could not be sent, or its answer could not be read.
    RequestFailed,
    /// There is no HTTP client to send the request with.
    ReachedTheEnd,
}

/// Why a user lookup gave nothing.
#[derive(Clone, Copy, Debug, PartialEq, Eq, Structural)]
pub enum UserInfoError {
    /// Profile JSON parsing failed
    JsonParseFailed,
    /// Request failed to send
    RequestFailed,
    /// Either no profile for UID, or no matches for username
    NoResults,
    /// No API connector is present
    NoClient,
}

impl LoginError {
    /// The name of the error, as it is shown to the user.
    pub fn name(&self) -> (r: &'static str)
        ensures
            r@ == match *self {
                LoginError::InvalidCredentials => "InvalidCredentials"@,
                LoginError::JsonParseFailed => "JsonParseFailed"@,
                LoginError::RequestFailed => "RequestFailed"@,
                LoginError::ReachedTheEnd => "ReachedTheEnd"@,
            },
    {
        match self {
            LoginError::InvalidCredentials => "InvalidCredentials",
            LoginError::JsonParseFailed => "JsonParseFailed",
            LoginError::RequestFailed => "RequestFailed",
            LoginError::ReachedTheEnd => "ReachedTheEnd",
        }
    }
}

} // verus!
