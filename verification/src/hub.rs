use vstd::prelude::*;
use crate::digest::random_uuid_text;
use crate::tags::TagSet;
use crate::time::ResDateTime;

verus! {

/// To whom a status is broadcast.
#[derive(Clone, Copy, Debug, PartialEq, Eq, Structural)]
pub enum BroadcastGroup {
    Public,
    AllContacts,
    SpecificContacts,
    BroadcastKey,
    ConnectionIds,
}

/// The kind of program a user's session runs in.
#[derive(Clone, Copy, Debug, PartialEq, Eq, Structural)]
pub enum UserSessionType {
    Unknown,
    GraphicalClient,
    ChatClient,
    Headless,
    Bot,
}

/// The device a user's session is shown on.
#[derive(Clone, Copy, Debug, PartialEq, Eq, Structural)]
pub enum OutputDevice {
    Unknown,
    Screen,
    VR,
    Camera,
}

/// How reachable a user is, from `Offline`, the least, to `Sociable`.
#[derive(Clone, Copy, Debug, PartialEq, Eq, Structural, PartialOrd, Ord)]
pub enum OnlineStatus {
    Offline,
    Invisible,
    Away,
    Busy,
    Online,
    Sociable,
}

impl OnlineStatus {
    /// The place of a status in the order of reachability.
    pub open spec fn spec_rank(self) -> nat {
        match self {
            OnlineStatus::Offline => 0,
            OnlineStatus::Invisible => 1,
            OnlineStatus::Away => 2,
            OnlineStatus::Busy => 3,
            OnlineStatus::Online => 4,
            OnlineStatus::Sociable => 5,
        }
    }

    /// The place of a status in the order of reachability.
    pub fn rank(self) -> (r: u8)
        ensures
            r == self.spec_rank(),
    {
        match self {
            OnlineStatus::Offline => 0,
            OnlineStatus::Invisible => 1,
            OnlineStatus::Away => 2,
            OnlineStatus::Busy => 3,
            OnlineStatus::Online => 4,
            OnlineStatus::Sociable => 5,
        }
    }

    /// Whether this status is less reachable than `other`.
    pub fn is_below(self, other: OnlineStatus) -> (r: bool)
        ensures
            r == (self.spec_rank() < other.spec_rank()),
    {
        self.rank() < other.rank()
    }
}

/// The receivers of a broadcast: a group and, where the group asks for
/// them, the ids of its members.
#[derive(Clone, Debug, PartialEq, Eq)]
pub struct BroadcastTarget {
    pub group: BroadcastGroup,
    pub target_ids: Vec<String>,
}

impl BroadcastTarget {
    /// A broadcast to everybody.
    pub fn new() -> (r: Self)
        ensures
            r.group == BroadcastGroup::Public,
            r.target_ids@.len() == 0,
    {
        Self { group: BroadcastGroup::Public, target_ids: Vec::new() }
    }
}

/// The parts of a public RSA key. Each optional part is kept as the JSON
/// text in which it came.
#[derive(Debug, PartialEq, Eq)]
pub struct RSAParametersData {
    pub exponent: String,
    pub modulus: String,
    pub p: Option<String>,
    pub q: Option<String>,
    pub dp: Option<String>,
    pub dq: Option<String>,
    pub inverse_q: Option<String>,
    pub d: Option<String>,
}

/// The mathematical value of an `RSAParametersData`.
pub struct RSAParametersDataView {
    pub exponent: Seq<char>,
    pub modulus: Seq<char>,
    pub p: Option<Seq<char>>,
    pub q: Option<Seq<char>>,
    pub dp: Option<Seq<char>>,
    pub dq: Option<Seq<char>>,
    pub inverse_q: Option<Seq<char>>,
    pub d: Option<Seq<char>>,
}

impl View for RSAParametersData {
    type V = RSAParametersDataView;

    open spec fn view(&self) -> RSAParametersDataView {
        RSAParametersDataView {
            exponent: self.exponent@,
            modulus: self.modulus@,
            p: opt_text(self.p),
            q: opt_text(self.q),
            dp: opt_text(self.dp),
            dq: opt_text(self.dq),
            inverse_q: opt_text(self.inverse_q),
            d: opt_text(self.d),
        }
    }
}

impl Clone for RSAParametersData {
    fn clone(&self) -> (r: Self)
        ensures
            r@ == self@,
    {
        RSAParametersData {
            exponent: self.exponent.clone(),
            modulus: self.modulus.clone(),
            p: clone_opt_text(&self.p),
            q: clone_opt_text(&self.q),
            dp: clone_opt_text(&self.dp),
            dq: clone_opt_text(&self.dq),
            inverse_q: clone_opt_text(&self.inverse_q),
            d: clone_opt_text(&self.d),
        }
    }
}

/// The value of optional key material.
pub open spec fn key_view(key: Option<RSAParametersData>) -> Option<RSAParametersDataView> {
    match key {
        Some(k) => Some(k@),
        None => None,
    }
}

/// Who may join a session.
#[derive(Clone, Copy, Debug, PartialEq, Eq, Structural)]
pub enum SessionAccessLevel {
    Private,
    LAN,
    Contacts,
    ContactsPlus,
    RegisteredUsers,
    Anyone,
}

/// A user's membership of one session.
#[derive(Debug, PartialEq, Eq)]
pub struct UserSessionMetadata {
    pub session_hash: String,
    pub access_level: SessionAccessLevel,
    pub session_hidden: bool,
    pub is_host: bool,
    pub broadcast_key: Option<String>,
}

/// The characters of an optional text.
pub open spec fn opt_text(text: Option<String>) -> Option<Seq<char>> {
    match text {
        Some(t) => Some(t@),
        None => None,
    }
}

/// A copy of an optional text.
pub fn clone_opt_text(text: &Option<String>) -> (r: Option<String>)
    ensures
        opt_text(r) == opt_text(*text),
{
    match text {
        Some(t) => Some(t.clone()),
        None => None,
    }
}

/// The mathematical value of a `UserSessionMetadata`.
pub struct UserSessionMetadataView {
    pub session_hash: Seq<char>,
    pub access_level: SessionAccessLevel,
    pub session_hidden: bool,
    pub is_host: bool,
    pub broadcast_key: Option<Seq<char>>,
}

impl View for UserSessionMetadata {
    type V = UserSessionMetadataView;

    open spec fn view(&self) -> UserSessionMetadataView {
        UserSessionMetadataView {
            session_hash: self.session_hash@,
            access_level: self.access_level,
            session_hidden: self.session_hidden,
            is_host: self.is_host,
            broadcast_key: opt_text(self.broadcast_key),
        }
    }
}

impl Clone for UserSessionMetadata {
    fn clone(&self) -> (r: Self)
        ensures
            r@ == self@,
    {
        UserSessionMetadata {
            session_hash: self.session_hash.clone(),
            access_level: self.access_level,
            session_hidden: self.session_hidden,
            is_host: self.is_host,
            broadcast_key: clone_opt_text(&self.broadcast_key),
        }
    }
}

/// The values of a list of session memberships.
pub open spec fn memberships_view(sessions: Seq<UserSessionMetadata>) -> Seq<
    UserSessionMetadataView,
> {
    Seq::new(sessions.len(), |i: int| sessions[i]@)
}

/// The presence of a user, as the hub pushes it.
#[derive(Debug, PartialEq, Eq)]
pub struct UserStatus {
    pub user_id: String,
    pub user_session_id: String,
    pub session_type: UserSessionType,
    pub output_device: Option<OutputDevice>,
    pub is_mobile: bool,
    pub online_status: Option<OnlineStatus>,
    pub is_present: bool,
    pub last_presence_timestamp: Option<ResDateTime>,
    pub last_status_change: ResDateTime,
    pub hash_salt: Option<String>,
    pub app_version: String,
    pub compatibility_hash: Option<String>,
    pub public_r_s_a_key: Option<RSAParametersData>,
    pub sessions: Vec<UserSessionMetadata>,
    pub current_session_index: i64,
}

/// The mathematical value of a `UserStatus`.
pub struct UserStatusView {
    pub user_id: Seq<char>,
    pub user_session_id: Seq<char>,
    pub session_type: UserSessionType,
    pub output_device: Option<OutputDevice>,
    pub is_mobile: bool,
    pub online_status: Option<OnlineStatus>,
    pub is_present: bool,
    pub last_presence_timestamp: Option<ResDateTime>,
    pub last_status_change: ResDateTime,
    pub hash_salt: Option<Seq<char>>,
    pub app_version: Seq<char>,
    pub compatibility_hash: Option<Seq<char>>,
    pub public_r_s_a_key: Option<RSAParametersDataView>,
    pub sessions: Seq<UserSessionMetadataView>,
    pub current_session_index: int,
}

impl View for UserStatus {
    type V = UserStatusView;

    open spec fn view(&self) -> UserStatusView {
        UserStatusView {
            user_id: self.user_id@,
            user_session_id: self.user_session_id@,
            session_type: self.session_type,
            output_device: self.output_device,
            is_mobile: self.is_mobile,
            online_status: self.online_status,
            is_present: self.is_present,
            last_presence_timestamp: self.last_presence_timestamp,
            last_status_change: self.last_status_change,
            hash_salt: opt_text(self.hash_salt),
            app_version: self.app_version@,
            compatibility_hash: opt_text(self.compatibility_hash),
            public_r_s_a_key: key_view(self.public_r_s_a_key),
            sessions: memberships_view(self.sessions@),
            current_session_index: self.current_session_index as int,
        }
    }
}

/// The version text of a status that this client makes.
pub open spec fn client_app_version() -> Seq<char> {
    "0.0.0 of null"@
}

impl Clone for UserStatus {
    fn clone(&self) -> (r: Self)
        ensures
            r@ == self@,
    {
        let mut sessions: Vec<UserSessionMetadata> = Vec::new();
        let mut i: usize = 0;
        while i < self.sessions.len()
            invariant
                0 <= i <= self.sessions.len(),
                sessions@.len() == i,
                forall|j: int| 0 <= j < i ==> sessions@[j]@ == self.sessions@[j]@,
            decreases self.sessions.len() - i,
        {
            sessions.push(self.sessions[i].clone());
            i += 1;
        }
        assert(memberships_view(sessions@) =~= memberships_view(self.sessions@));
        let key = match &self.public_r_s_a_key {
            Some(k) => Some(k.clone()),
            None => None,
        };
        UserStatus {
            user_id: self.user_id.clone(),
            user_session_id: self.user_session_id.clone(),
            session_type: self.session_type,
            output_device: self.output_device,
            is_mobile: self.is_mobile,
            online_status: self.online_status,
            is_present: self.is_present,
            last_presence_timestamp: self.last_presence_timestamp,
            last_status_change: self.last_status_change,
            hash_salt: clone_opt_text(&self.hash_salt),
            app_version: self.app_version.clone(),
            compatibility_hash: clone_opt_text(&self.compatibility_hash),
            public_r_s_a_key: key,
            sessions,
            current_session_index: self.current_session_index,
        }
    }
}

impl UserStatus {
    /// The index of the current session is -1, for none, or the place of one
    /// of the status's sessions.
    pub open spec fn well_formed(&self) -> bool {
        self.current_session_index == -1 || 0 <= self.current_session_index
            < self.sessions@.len()
    }

    /// Whether the index of the current session is -1 or the place of one of
    /// the status's sessions.
    pub fn is_well_formed(&self) -> (r: bool)
        ensures
            r == self.well_formed(),
    {
        self.current_session_index == -1 || self.current_session().is_some()
    }

    /// The session that the user is in now, if the index names one.
    pub fn current_session(&self) -> (r: Option<&UserSessionMetadata>)
        ensures
            r is Some <==> 0 <= self.current_session_index < self.sessions@.len(),
            r matches Some(s) ==> *s == self.sessions@[self.current_session_index as int],
    {
        if 0 <= self.current_session_index && self.sessions.len() > 0 {
            let at = self.current_session_index as u64;
            if at < self.sessions.len() as u64 {
                return Some(&self.sessions[at as usize]);
            }
        }
        None
    }

    /// The status with which this client announces itself: a chat client
    /// that is online and present since `now`, in no session, for a user
    /// still to be named, under the session id `session_id`.
    pub fn with(session_id: String, now: ResDateTime) -> (r: Self)
        ensures
            r.well_formed(),
            r@ == (UserStatusView {
                user_id: Seq::<char>::empty(),
                user_session_id: session_id@,
                session_type: UserSessionType::ChatClient,
                output_device: Some(OutputDevice::Unknown),
                is_mobile: false,
                online_status: Some(OnlineStatus::Online),
                is_present: true,
                last_presence_timestamp: Some(now),
                last_status_change: now,
                hash_salt: None,
                app_version: client_app_version(),
                compatibility_hash: None,
                public_r_s_a_key: None,
                sessions: Seq::<UserSessionMetadataView>::empty(),
                current_session_index: -1,
            }),
    {
        let r = Self {
            user_id: String::new(),
            user_session_id: session_id,
            session_type: UserSessionType::ChatClient,
            output_device: Some(OutputDevice::Unknown),
            is_mobile: false,
            online_status: Some(OnlineStatus::Online),
            is_present: true,
            last_presence_timestamp: Some(now),
            last_status_change: now,
            hash_salt: None,
            app_version: "0.0.0 of null".to_owned(),
            compatibility_hash: None,
            public_r_s_a_key: None,
            sessions: Vec::new(),
            current_session_index: -1,
        };
        assert(r@.sessions =~= Seq::<UserSessionMetadataView>::empty());
        assert(r@.user_id =~= Seq::<char>::empty());
        r
    }

    /// The status with which this client announces itself now, under a
    /// fresh random session id. The id and the instant are whatever the
    /// random source and the clock gave; every other field is as in `with`.
    pub fn new() -> (r: Self)
        ensures
            r.well_formed(),
            r@ == (UserStatusView {
                user_id: Seq::<char>::empty(),
                user_session_id: r@.user_session_id,
                session_type: UserSessionType::ChatClient,
                output_device: Some(OutputDevice::Unknown),
                is_mobile: false,
                online_status: Some(OnlineStatus::Online),
                is_present: true,
                last_presence_timestamp: Some(r@.last_status_change),
                last_status_change: r@.last_status_change,
                hash_salt: None,
                app_version: client_app_version(),
                compatibility_hash: None,
                public_r_s_a_key: None,
                sessions: Seq::<UserSessionMetadataView>::empty(),
                current_session_index: -1,
            }),
    {
        let now = ResDateTime::now();
        Self::with(random_uuid_text(), now)
    }

    /// This status for the user `id`.
    pub fn id(self, id: String) -> (r: Self)
        ensures
            r@ == (UserStatusView { user_id: id@, ..self@ }),
            r.sessions == self.sessions,
            r.public_r_s_a_key == self.public_r_s_a_key,
    {
        let mut r = self;
        r.user_id = id;
        r
    }
}

/// A session (a world that users can join), as the hub lists it.
#[derive(Clone, Debug, PartialEq, Eq)]
pub struct SessionUpdate {
    pub name: String,
    pub description: Option<String>,
    pub tags: TagSet,
    pub session_id: String,
    pub normalized_session_id: String,
    pub host_user_id: Option<String>,
    pub host_user_session_id: Option<String>,
    pub host_machine_id: String,
    pub host_username: String,
    pub compatibility_hash: String,
    pub universe_id: Option<String>,
    pub app_version: String,
    pub headless_host: bool,
    pub session_urls: Vec<String>,
    pub parent_session_ids: Vec<String>,
    pub nested_session_ids: Vec<String>,
    pub thumbnail_url: Option<String>,
    pub joined_users: u32,
    pub active_users: u32,
    pub total_joined_users: u32,
    pub total_active_users: u32,
    pub max_users: u32,
    pub mobile_friendly: bool,
    pub session_begin_time: ResDateTime,
    pub last_update: String,
    pub hide_from_listing: bool,
    pub broadcast_key: Option<String>,
    pub has_ended: bool,
    pub is_valid: bool,
}

/// Why the hub could not be reached.
#[derive(Clone, Debug, PartialEq, Eq)]
pub enum ConnectFailure {
    /// The negotiation request failed.
    NegotiateRequest,
    /// The answer to the negotiation could not be read.
    NegotiateDeserialization,
    /// The server offers nothing this client can use.
    NegotiateUnsupported,
    /// The address of the hub is no URL.
    Url,
    /// The transport failed; the text says how.
    Transport(String),
}

/// Why a call on the hub failed.
#[derive(Clone, Debug, PartialEq, Eq)]
pub enum RequestFailure {
    Malformed,
    HubGeneric,
    HubExtraction,
    HubUnsupported,
    HubUnprocessable,
    HubIncomprehensible,
    ProtocolError,
    NoResponse,
    /// The server answered with an error; the text is its message.
    Result(String),
    TransportInavailable,
    Handshake(String),
}

/// The line that reports a diagnostic text that the hub pushed.
pub fn server_log(message: &str) -> (r: String)
    ensures
        r@ == "Reso server: "@ + message@,
{
    crate::text::join("Reso server: ", message)
}

} // verus!
