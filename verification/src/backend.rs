use vstd::prelude::*;
use crate::api::{
    Contact, LoginError, Message, MessageType, SessionGrant, UserInfo, UserSessionsAuthReq,
};
use crate::client::{
    fetched_text, fetched_values, login_outcome, lookup_outcome, Client, HttpReply, HttpRequest,
    LoginRequest,
};
use crate::hub::{opt_text, BroadcastTarget, ConnectFailure, RequestFailure, UserStatus};
use crate::store::{with_contacts, with_messages, without_owner, SharedCaches};
use crate::time::ResDateTime;

verus! {

/// A command from the interface to the backend.
#[derive(Clone, Debug, PartialEq, Eq)]
pub enum UiToReso {
    /// Log in with a username, a password and the wish to be remembered.
    TokenRequestCredentials(String, String, bool),
    /// Look users up, by id or by name.
    UserInfoRequest(String),
    /// Fetch the status of a user over REST.
    UserStatusRequest(String),
    /// Connect to the hub as the user with this id and token.
    SignalConnectRequest(String, String),
    SignalInitializeStatus,
    SignalListenOnKey(String),
    /// Ask the hub for the status of one user, or of all contacts.
    SignalRequestStatus(Option<String>, bool),
    SignalBroadcastStatus(UserStatus, BroadcastTarget),
    /// Send a text to a user.
    SignalSendMessage(String, String),
    ShutdownRequest,
}

/// An event from the backend to the interface.
#[derive(Debug, PartialEq, Eq)]
pub enum ResoToUi {
    /// A login succeeded; the token and the user's id.
    LoggedInResponse(String, String),
    LoginFailedResponse(LoginError),
    PreviousTokenInvalidResponse,
    SignalConnectedResponse,
    SignalConnectFailedResponse(ConnectFailure),
    SignalRequestFailedResponse(RequestFailure),
    SignalUninitialized,
    /// What is known of the user with an id.
    UserInfoResponse(String, UserInfo),
    ThreadCrashedResponse(String),
}

/// With what the backend starts: nothing, or the token of an earlier
/// session to resume.
#[derive(Clone, Debug, PartialEq, Eq)]
pub enum InitialLoginType {
    Fresh,
    PreviousToken { username: String, session_token: String },
}

/// A call of a method of the hub.
#[derive(Debug, PartialEq, Eq)]
pub enum HubCall {
    InitializeStatus,
    RequestStatus(Option<String>, bool),
    BroadcastStatus(UserStatus, BroadcastTarget),
    SendMessage(Message),
    ListenOnKey(String),
}

/// What became of a call of a method of the hub.
#[derive(Clone, Debug, PartialEq, Eq)]
pub enum HubReply {
    /// The hub took the call.
    Done,
    /// An argument of the call could not be made ready to send.
    ArgumentRefused(RequestFailure),
    /// The call was sent and failed.
    Failed(RequestFailure),
}

/// What a fetch is for; it tells how the answer is to be decoded.
#[derive(Clone, Copy, Debug, PartialEq, Eq, Structural)]
pub enum FetchKind {
    User,
    Users,
    Contacts,
    Messages,
    Status,
}

/// What the backend asks of the world around it. After a `Login`, a
/// `Fetch`, a `Connect` or an `Invoke` the backend waits for the event that
/// tells how it went.
#[derive(Debug, PartialEq, Eq)]
pub enum Action {
    /// Hand an event to the interface.
    Emit(ResoToUi),
    /// Ask the interface to draw itself anew.
    Repaint,
    /// Write a line to the log.
    Log(String),
    /// Send a login request; answer with `Event::LoginReply`.
    Login(LoginRequest),
    /// Send a GET request; answer with the reply event of its kind.
    Fetch(FetchKind, HttpRequest),
    /// Connect to the hub; answer with `Event::Connected`.
    Connect { uid: String, id: String, token: String },
    /// Call a method of the hub; answer with `Event::Invoked`.
    Invoke(HubCall),
    /// Leave the loop.
    Stop,
}

/// What happened in the world around the backend.
#[derive(Debug, PartialEq, Eq)]
pub enum Event {
    /// The interface sent a command.
    Command(UiToReso),
    /// The loop went round once with no command at hand.
    Tick,
    LoginReply(HttpReply<SessionGrant>),
    UserReply(HttpReply<UserInfo>),
    UsersReply(HttpReply<Vec<UserInfo>>),
    ContactsReply(HttpReply<Vec<Contact>>),
    MessagesReply(HttpReply<Vec<Message>>),
    StatusReply(HttpReply<String>),
    Connected(Option<ConnectFailure>),
    Invoked(HubReply),
    /// Something broke that the loop cannot mend; the text says what.
    Failure(String),
}

/// What the backend waits for.
#[derive(Clone, Debug, PartialEq, Eq)]
pub enum Pending {
    /// The next command or tick.
    Idle,
    /// The answer to a login; `resume` tells a login with an earlier
    /// session's token from one with a password.
    Login { resume: bool },
    /// The answer to the lookup of the user who just logged in.
    SelfInfo { id: String },
    /// The answer to the fetch of that user's contacts.
    Contacts { id: String },
    /// The answer to the fetch of that user's messages.
    Messages,
    /// The answer to a lookup of users.
    Users,
    /// The answer to a fetch of a status.
    Status,
    /// The end of an attempt to connect to the hub.
    Connect,
    /// The end of a call on the hub; `quiet` holds for a status request,
    /// of which a refused argument is not reported.
    Invoke { quiet: bool },
    /// Nothing: the loop has ended.
    Stopped,
}

/// The seconds between two status refreshes.
pub const POLL_SECONDS: i64 = 10;

/// The instant of the status refresh that follows one at `now`.
pub open spec fn poll_after(now: ResDateTime) -> ResDateTime {
    ResDateTime {
        secs: if now.secs + POLL_SECONDS > i64::MAX {
            i64::MAX
        } else {
            (now.secs + POLL_SECONDS) as i64
        },
        nanos: now.nanos,
    }
}

impl UiToReso {
    /// Whether a command is carried out by a call on the hub.
    pub open spec fn needs_hub(&self) -> bool {
        match self {
            UiToReso::SignalInitializeStatus => true,
            UiToReso::SignalListenOnKey(_) => true,
            UiToReso::SignalRequestStatus(_, _) => true,
            UiToReso::SignalBroadcastStatus(_, _) => true,
            UiToReso::SignalSendMessage(_, _) => true,
            _ => false,
        }
    }
}

impl Action {
    /// Whether an action reaches out to the network.
    pub open spec fn is_network(&self) -> bool {
        match self {
            Action::Login(_) => true,
            Action::Fetch(_, _) => true,
            Action::Connect { .. } => true,
            Action::Invoke(_) => true,
            _ => false,
        }
    }
}

/// The backend: the session with the platform, whether the hub is
/// connected, when the next status refresh is due, and what is awaited.
pub struct BackendThread {
    client: Client,
    hub: bool,
    next_poll: Option<ResDateTime>,
    pending: Pending,
}

impl BackendThread {
    /// The session with the platform.
    pub closed spec fn client(&self) -> Client {
        self.client
    }

    /// Whether the hub is connected.
    pub closed spec fn hub_connected(&self) -> bool {
        self.hub
    }

    /// When the next status refresh is due; `None` before the first tick.
    pub closed spec fn next_poll(&self) -> Option<ResDateTime> {
        self.next_poll
    }

    /// What the backend waits for.
    pub closed spec fn awaiting(&self) -> Pending {
        self.pending
    }

    /// The backend holds together: its session does, and the user whose
    /// data is being fetched is logged in.
    pub closed spec fn wf(&self) -> bool {
        &&& self.client.wf()
        &&& (self.pending is SelfInfo || self.pending is Contacts || self.pending is Messages)
            ==> self.client.is_logged_in()
    }

    /// A backend holds together only where its session does.
    pub proof fn lemma_wf(&self)
        requires
            self.wf(),
        ensures
            self.client().wf(),
    {
    }
}

/// Whether two sets of caches hold the same.
pub open spec fn same_caches(a: SharedCaches, b: SharedCaches) -> bool {
    &&& a.contacts() == b.contacts()
    &&& a.messages() == b.messages()
    &&& a.statuses() == b.statuses()
    &&& a.sessions() == b.sessions()
    &&& a.session_keys() == b.session_keys()
    &&& a.refresh_wanted() == b.refresh_wanted()
}

/// Whether two backends have the same session, hub connection and timer.
pub open spec fn same_session(a: BackendThread, b: BackendThread) -> bool {
    &&& a.client() == b.client()
    &&& a.hub_connected() == b.hub_connected()
    &&& a.next_poll() == b.next_poll()
}

/// Whether `m` is the message that carries `content` from `me` to `to`,
/// sent at `now`.
pub open spec fn is_outgoing_message(
    m: Message,
    me: Seq<char>,
    to: Seq<char>,
    content: Seq<char>,
    now: ResDateTime,
) -> bool {
    &&& m.id@ == Seq::<char>::empty()
    &&& m.sender_id@ == me
    &&& m.recipient_id@ == to
    &&& m.other_id@ == to
    &&& m.message_type == MessageType::Text
    &&& m.content@ == content
    &&& m.send_time == now
    &&& m.last_update_time == now
    &&& m.read_time is None
    &&& m.is_migrated
    &&& m.owner_id@ == me
}

/// What the backend does at its start. Without an earlier session there is
/// nothing to resume, and the interface is told so at once; with one, a
/// login with its token is sent (and where it cannot be sent, the interface
/// is told as well).
pub open spec fn started(
    client: Client,
    creds: InitialLoginType,
    post: BackendThread,
    acts: Seq<Action>,
) -> bool {
    &&& post.client() == client
    &&& !post.hub_connected()
    &&& post.next_poll() is None
    &&& match creds {
        InitialLoginType::PreviousToken { username, session_token } if client.has_transport() => {
            &&& post.awaiting() == (Pending::Login { resume: true })
            &&& acts.len() == 1
            &&& acts[0] matches Action::Login(req)
            &&& client.is_login_request(req, username@, true)
            &&& req.body.authentication matches UserSessionsAuthReq::Token { _type, session_token: t }
            &&& _type@ == "sessionToken"@
            &&& t@ == session_token@
        },
        _ => {
            &&& post.awaiting() is Idle
            &&& acts =~= seq![
                Action::Emit(ResoToUi::PreviousTokenInvalidResponse),
                Action::Repaint,
            ]
        },
    }
}

/// What the crash event says when a message is to be sent on the hub and
/// no user is logged in to send it.
pub open spec fn no_sender_text() -> Seq<char> {
    "a message was to be sent, but no user is logged in"@
}

/// What the backend does with a command that finds it idle.
pub open spec fn command_handled(
    pre: BackendThread,
    pc: SharedCaches,
    cmd: UiToReso,
    now: ResDateTime,
    post: BackendThread,
    qc: SharedCaches,
    acts: Seq<Action>,
) -> bool {
    &&& same_session(pre, post)
    &&& match cmd {
        UiToReso::SignalBroadcastStatus(status, _) => {
            &&& qc.statuses() == pc.statuses().insert(status.user_id@, status)
            &&& qc.contacts() == pc.contacts()
            &&& qc.messages() == pc.messages()
            &&& qc.sessions() == pc.sessions()
            &&& qc.session_keys() == pc.session_keys()
            &&& qc.refresh_wanted() == pc.refresh_wanted()
        },
        _ => same_caches(pc, qc),
    }
    &&& if cmd.needs_hub() && !pre.hub_connected() {
        &&& acts =~= seq![Action::Emit(ResoToUi::SignalUninitialized)]
        &&& post.awaiting() is Idle
    } else {
        match cmd {
            UiToReso::ShutdownRequest => acts =~= seq![Action::Stop] && post.awaiting() is Stopped,
            UiToReso::TokenRequestCredentials(username, password, remember) => {
                if pre.client().has_transport() {
                    &&& post.awaiting() == (Pending::Login { resume: false })
                    &&& acts.len() == 1
                    &&& acts[0] matches Action::Login(req)
                    &&& pre.client().is_login_request(req, username@, remember)
                    &&& req.body.authentication matches UserSessionsAuthReq::Credentials {
                        _type,
                        password: p,
                    }
                    &&& _type@ == "password"@
                    &&& p@ == password@
                } else {
                    &&& post.awaiting() is Idle
                    &&& acts =~= seq![
                        Action::Emit(ResoToUi::LoginFailedResponse(LoginError::ReachedTheEnd)),
                        Action::Repaint,
                    ]
                }
            },
            UiToReso::UserInfoRequest(query) => {
                if pre.client().can_fetch() {
                    &&& post.awaiting() is Users
                    &&& acts.len() == 1
                    &&& acts[0] matches Action::Fetch(FetchKind::Users, req)
                    &&& pre.client().is_fetch_request(req, crate::client::users_endpoint(query@))
                } else {
                    post.awaiting() is Idle && acts =~= Seq::<Action>::empty()
                }
            },
            UiToReso::UserStatusRequest(id) => {
                if pre.client().can_fetch() {
                    &&& post.awaiting() is Status
                    &&& acts.len() == 1
                    &&& acts[0] matches Action::Fetch(FetchKind::Status, req)
                    &&& pre.client().is_fetch_request(req, "users/"@ + id@ + "/status"@)
                } else {
                    post.awaiting() is Idle && acts =~= Seq::<Action>::empty()
                }
            },
            UiToReso::SignalConnectRequest(id, token) => {
                &&& post.awaiting() is Connect
                &&& acts.len() == 1
                &&& acts[0] matches Action::Connect { uid, id: i, token: t }
                &&& uid@ == pre.client().hwid_text()
                &&& i@ == id@
                &&& t@ == token@
            },
            UiToReso::SignalInitializeStatus => {
                &&& post.awaiting() == (Pending::Invoke { quiet: false })
                &&& acts =~= seq![Action::Invoke(HubCall::InitializeStatus)]
            },
            UiToReso::SignalListenOnKey(key) => {
                &&& post.awaiting() == (Pending::Invoke { quiet: false })
                &&& acts.len() == 1
                &&& acts[0] matches Action::Invoke(HubCall::ListenOnKey(k))
                &&& k@ == key@
            },
            UiToReso::SignalRequestStatus(id, invisible) => {
                &&& post.awaiting() == (Pending::Invoke { quiet: true })
                &&& acts.len() == 1
                &&& acts[0] matches Action::Invoke(HubCall::RequestStatus(i, v))
                &&& opt_text(i) == opt_text(id)
                &&& v == invisible
            },
            UiToReso::SignalBroadcastStatus(status, target) => {
                &&& post.awaiting() == (Pending::Invoke { quiet: false })
                &&& acts.len() == 1
                &&& acts[0] matches Action::Invoke(HubCall::BroadcastStatus(s, t))
                &&& s@ == status@
                &&& t == target
            },
            UiToReso::SignalSendMessage(to, content) => {
                match pre.client().user_id_text() {
                    Some(me) => {
                        &&& post.awaiting() == (Pending::Invoke { quiet: false })
                        &&& acts.len() == 1
                        &&& acts[0] matches Action::Invoke(HubCall::SendMessage(m))
                        &&& is_outgoing_message(m, me, to@, content@, now)
                    },
                    None => {
                        &&& post.awaiting() is Stopped
                        &&& acts.len() == 2
                        &&& acts[0] matches Action::Emit(ResoToUi::ThreadCrashedResponse(text))
                        &&& text@ == no_sender_text()
                        &&& acts[1] == Action::Stop
                    },
                }
            },
        }
    }
}

/// What the backend does on a tick that finds it idle. The timer is set on
/// the first tick. When it has run out it is set anew, and where the hub is
/// connected the statuses are asked for. A redraw that the push handlers
/// asked for is passed on, and the request taken back.
pub open spec fn tick_handled(
    pre: BackendThread,
    pc: SharedCaches,
    now: ResDateTime,
    post: BackendThread,
    qc: SharedCaches,
    acts: Seq<Action>,
) -> bool {
    let due = pre.next_poll() matches Some(t) && t.not_after(now);
    let asks = due && pre.hub_connected();
    &&& post.client() == pre.client()
    &&& post.hub_connected() == pre.hub_connected()
    &&& post.next_poll() == if pre.next_poll() is None || due {
        Some(poll_after(now))
    } else {
        pre.next_poll()
    }
    &&& post.awaiting() == if asks {
        Pending::Invoke { quiet: true }
    } else {
        Pending::Idle
    }
    &&& acts =~= (if asks {
        seq![Action::Invoke(HubCall::RequestStatus(None, false))]
    } else {
        Seq::<Action>::empty()
    }) + (if pc.refresh_wanted() {
        seq![Action::Repaint]
    } else {
        Seq::<Action>::empty()
    })
    &&& !qc.refresh_wanted()
    &&& qc.contacts() == pc.contacts()
    &&& qc.messages() == pc.messages()
    &&& qc.statuses() == pc.statuses()
    &&& qc.sessions() == pc.sessions()
    &&& qc.session_keys() == pc.session_keys()
}

/// What the backend does with the answer to a login. A granted session is
/// announced to the interface and the user's own record is asked for; a
/// failed resume is reported as an invalid earlier token, a failed password
/// login with its error.
pub open spec fn login_reply_handled(
    pre: BackendThread,
    reply: HttpReply<SessionGrant>,
    post: BackendThread,
    acts: Seq<Action>,
) -> bool {
    &&& post.hub_connected() == pre.hub_connected()
    &&& post.next_poll() == pre.next_poll()
    &&& match login_outcome(reply) {
        Ok(grant) => {
            &&& post.client().user_id_text() == Some(grant.0)
            &&& post.client().token_text() == Some(grant.1)
            &&& post.client().is_logged_in()
            &&& post.client().has_transport() == pre.client().has_transport()
            &&& post.client().hwid_text() == pre.client().hwid_text()
            &&& post.client().machine_uuid_text() == pre.client().machine_uuid_text()
            &&& acts.len() == 2
            &&& acts[0] matches Action::Emit(ResoToUi::LoggedInResponse(t, u))
            &&& t@ == grant.1
            &&& u@ == grant.0
            &&& if post.client().can_fetch() {
                &&& acts[1] matches Action::Fetch(FetchKind::User, req)
                &&& post.client().is_fetch_request(req, "users/"@ + grant.0)
                &&& post.awaiting() matches Pending::SelfInfo { id }
                &&& id@ == grant.0
            } else {
                acts[1] == Action::Repaint && post.awaiting() is Idle
            }
        },
        Err(e) => {
            &&& post.client() == pre.client()
            &&& post.awaiting() is Idle
            &&& pre.awaiting() matches Pending::Login { resume }
            &&& acts =~= if resume {
                seq![Action::Emit(ResoToUi::PreviousTokenInvalidResponse), Action::Repaint]
            } else {
                seq![Action::Emit(ResoToUi::LoginFailedResponse(e)), Action::Repaint]
            }
        },
    }
}

/// What the backend does with the answer to the lookup of the user who
/// just logged in: the record is handed to the interface and the user's
/// contacts are asked for. Without a record the fetches are given up.
pub open spec fn user_reply_handled(
    pre: BackendThread,
    reply: HttpReply<UserInfo>,
    post: BackendThread,
    acts: Seq<Action>,
) -> bool {
    &&& same_session(pre, post)
    &&& pre.awaiting() matches Pending::SelfInfo { id: me }
    &&& match lookup_outcome(reply) {
        Ok(you) => {
            &&& acts.len() == 2
            &&& acts[0] matches Action::Emit(ResoToUi::UserInfoResponse(i, u))
            &&& i@ == me@
            &&& u == you
            &&& if pre.client().can_fetch() {
                &&& acts[1] matches Action::Fetch(FetchKind::Contacts, req)
                &&& pre.client().is_fetch_request(req, "users/"@ + me@ + "/contacts"@)
                &&& post.awaiting() matches Pending::Contacts { id }
                &&& id@ == me@
            } else {
                acts[1] == Action::Repaint && post.awaiting() is Idle
            }
        },
        Err(_) => acts =~= seq![Action::Repaint] && post.awaiting() is Idle,
    }
}

/// What the backend does with the answer to the fetch of the contacts:
/// they take the place of the user's cached contacts, and the user's
/// messages are asked for.
pub open spec fn contacts_reply_handled(
    pre: BackendThread,
    pc: SharedCaches,
    reply: HttpReply<Vec<Contact>>,
    post: BackendThread,
    qc: SharedCaches,
    acts: Seq<Action>,
) -> bool {
    &&& same_session(pre, post)
    &&& pre.awaiting() matches Pending::Contacts { id: me }
    &&& qc.contacts() == match fetched_values(reply) {
        Some(batch) => with_contacts(without_owner(pc.contacts(), me@), batch@),
        None => pc.contacts(),
    }
    &&& qc.messages() == pc.messages()
    &&& qc.statuses() == pc.statuses()
    &&& qc.sessions() == pc.sessions()
    &&& qc.session_keys() == pc.session_keys()
    &&& qc.refresh_wanted() == pc.refresh_wanted()
    &&& acts.len() == 1
    &&& if pre.client().can_fetch() {
        &&& acts[0] matches Action::Fetch(FetchKind::Messages, req)
        &&& pre.client().is_fetch_request(req, "users/"@ + me@ + "/messages"@)
        &&& post.awaiting() is Messages
    } else {
        acts[0] == Action::Repaint && post.awaiting() is Idle
    }
}

/// What the backend does with the answer to the fetch of the messages:
/// each is added to the cached list of its peer, and a redraw is asked for.
pub open spec fn messages_reply_handled(
    pre: BackendThread,
    pc: SharedCaches,
    reply: HttpReply<Vec<Message>>,
    post: BackendThread,
    qc: SharedCaches,
    acts: Seq<Action>,
) -> bool {
    &&& same_session(pre, post)
    &&& post.awaiting() is Idle
    &&& qc.messages() == match fetched_values(reply) {
        Some(batch) => with_messages(pc.messages(), batch@),
        None => pc.messages(),
    }
    &&& qc.contacts() == pc.contacts()
    &&& qc.statuses() == pc.statuses()
    &&& qc.sessions() == pc.sessions()
    &&& qc.session_keys() == pc.session_keys()
    &&& qc.refresh_wanted() == pc.refresh_wanted()
    &&& acts =~= seq![Action::Repaint]
}

/// What the backend does with the answer to a lookup of users: one event
/// for each user found, in the order of the answer, and then a redraw. An
/// answer without users gives nothing.
pub open spec fn users_reply_handled(
    pre: BackendThread,
    reply: HttpReply<Vec<UserInfo>>,
    post: BackendThread,
    acts: Seq<Action>,
) -> bool {
    &&& same_session(pre, post)
    &&& post.awaiting() is Idle
    &&& match lookup_outcome(reply) {
        Ok(users) => {
            &&& acts.len() == users@.len() + 1
            &&& forall|k: int|
                0 <= k < users@.len() ==> (#[trigger] acts[k] matches Action::Emit(
                    ResoToUi::UserInfoResponse(i, u),
                ) && i@ == users@[k].id@ && u == users@[k])
            &&& acts[users@.len() as int] == Action::Repaint
        },
        Err(_) => acts =~= Seq::<Action>::empty(),
    }
}

/// What the backend does with the answer to a fetch of a status: the text
/// of the answer is logged.
pub open spec fn status_reply_handled(
    pre: BackendThread,
    reply: HttpReply<String>,
    post: BackendThread,
    acts: Seq<Action>,
) -> bool {
    &&& same_session(pre, post)
    &&& post.awaiting() is Idle
    &&& match fetched_text(reply) {
        Some(t) => {
            &&& acts.len() == 1
            &&& acts[0] matches Action::Log(line)
            &&& line@ == "user: "@ + t
        },
        None => acts =~= Seq::<Action>::empty(),
    }
}

/// What the backend does when an attempt to connect to the hub has ended.
pub open spec fn connected_handled(
    pre: BackendThread,
    outcome: Option<ConnectFailure>,
    post: BackendThread,
    acts: Seq<Action>,
) -> bool {
    &&& post.client() == pre.client()
    &&& post.next_poll() == pre.next_poll()
    &&& post.awaiting() is Idle
    &&& match outcome {
        None => post.hub_connected() && acts =~= seq![
            Action::Emit(ResoToUi::SignalConnectedResponse),
            Action::Repaint,
        ],
        Some(failure) => post.hub_connected() == pre.hub_connected() && acts =~= seq![
            Action::Emit(ResoToUi::SignalConnectFailedResponse(failure)),
            Action::Repaint,
        ],
    }
}

/// What the backend does when a call on the hub has ended: a failure is
/// reported to the interface, but for an argument of a status request that
/// could not be made ready, which is passed over.
pub open spec fn invoked_handled(
    pre: BackendThread,
    reply: HubReply,
    post: BackendThread,
    acts: Seq<Action>,
) -> bool {
    &&& same_session(pre, post)
    &&& post.awaiting() is Idle
    &&& pre.awaiting() matches Pending::Invoke { quiet }
    &&& acts =~= match reply {
        HubReply::Done => Seq::<Action>::empty(),
        HubReply::Failed(failure) => seq![
            Action::Emit(ResoToUi::SignalRequestFailedResponse(failure)),
        ],
        HubReply::ArgumentRefused(failure) => if quiet {
            Seq::<Action>::empty()
        } else {
            seq![Action::Emit(ResoToUi::SignalRequestFailedResponse(failure))]
        },
    }
}

/// What the backend does when the loop breaks: the interface is told once,
/// and the loop ends.
pub open spec fn failure_handled(
    pre: BackendThread,
    text: String,
    post: BackendThread,
    acts: Seq<Action>,
) -> bool {
    &&& same_session(pre, post)
    &&& post.awaiting() is Stopped
    &&& acts =~= seq![Action::Emit(ResoToUi::ThreadCrashedResponse(text)), Action::Stop]
}

/// Whether the backend, as it stands, waits for an event.
pub open spec fn awaited(pre: BackendThread, event: Event) -> bool {
    match event {
        Event::Command(_) => pre.awaiting() is Idle,
        Event::Tick => pre.awaiting() is Idle,
        Event::LoginReply(_) => pre.awaiting() is Login,
        Event::UserReply(_) => pre.awaiting() is SelfInfo,
        Event::UsersReply(_) => pre.awaiting() is Users,
        Event::ContactsReply(_) => pre.awaiting() is Contacts,
        Event::MessagesReply(_) => pre.awaiting() is Messages,
        Event::StatusReply(_) => pre.awaiting() is Status,
        Event::Connected(_) => pre.awaiting() is Connect,
        Event::Invoked(_) => pre.awaiting() is Invoke,
        Event::Failure(_) => !(pre.awaiting() is Stopped),
    }
}

/// An event that the backend does not wait for changes nothing.
pub open spec fn ignored(
    pre: BackendThread,
    pc: SharedCaches,
    post: BackendThread,
    qc: SharedCaches,
    acts: Seq<Action>,
) -> bool {
    post == pre && qc == pc && acts =~= Seq::<Action>::empty()
}

/// What the backend does with an event: the step that belongs to the event
/// where the backend waits for it, and nothing otherwise.
pub open spec fn handled(
    pre: BackendThread,
    pc: SharedCaches,
    event: Event,
    now: ResDateTime,
    post: BackendThread,
    qc: SharedCaches,
    acts: Seq<Action>,
) -> bool {
    match event {
        Event::Command(cmd) => if pre.awaiting() is Idle {
            command_handled(pre, pc, cmd, now, post, qc, acts)
        } else {
            ignored(pre, pc, post, qc, acts)
        },
        Event::Tick => if pre.awaiting() is Idle {
            tick_handled(pre, pc, now, post, qc, acts)
        } else {
            ignored(pre, pc, post, qc, acts)
        },
        Event::LoginReply(reply) => if pre.awaiting() is Login {
            login_reply_handled(pre, reply, post, acts) && qc == pc
        } else {
            ignored(pre, pc, post, qc, acts)
        },
        Event::UserReply(reply) => if pre.awaiting() is SelfInfo {
            user_reply_handled(pre, reply, post, acts) && qc == pc
        } else {
            ignored(pre, pc, post, qc, acts)
        },
        Event::UsersReply(reply) => if pre.awaiting() is Users {
            users_reply_handled(pre, reply, post, acts) && qc == pc
        } else {
            ignored(pre, pc, post, qc, acts)
        },
        Event::ContactsReply(reply) => if pre.awaiting() is Contacts {
            contacts_reply_handled(pre, pc, reply, post, qc, acts)
        } else {
            ignored(pre, pc, post, qc, acts)
        },
        Event::MessagesReply(reply) => if pre.awaiting() is Messages {
            messages_reply_handled(pre, pc, reply, post, qc, acts)
        } else {
            ignored(pre, pc, post, qc, acts)
        },
        Event::StatusReply(reply) => if pre.awaiting() is Status {
            status_reply_handled(pre, reply, post, acts) && qc == pc
        } else {
            ignored(pre, pc, post, qc, acts)
        },
        Event::Connected(outcome) => if pre.awaiting() is Connect {
            connected_handled(pre, outcome, post, acts) && qc == pc
        } else {
            ignored(pre, pc, post, qc, acts)
        },
        Event::Invoked(reply) => if pre.awaiting() is Invoke {
            invoked_handled(pre, reply, post, acts) && qc == pc
        } else {
            ignored(pre, pc, post, qc, acts)
        },
        Event::Failure(text) => if pre.awaiting() is Stopped {
            ignored(pre, pc, post, qc, acts)
        } else {
            failure_handled(pre, text, post, acts) && qc == pc
        },
    }
}

impl BackendThread {
    /// Starts the backend on a session with the platform.
    pub fn new(client: Client, creds: InitialLoginType) -> (r: (Self, Vec<Action>))
        requires
            client.wf(),
        ensures
            r.0.wf(),
            started(client, creds, r.0, r.1@),
    {
        let mut actions: Vec<Action> = Vec::new();
        let mut pending = Pending::Idle;
        let mut told = false;
        match creds {
            InitialLoginType::PreviousToken { username, session_token } => {
                let auth = UserSessionsAuthReq::Token {
                    _type: "sessionToken".to_owned(),
                    session_token,
                };
                if let Some(req) = client.login_request(username.as_str(), auth, true) {
                    actions.push(Action::Login(req));
                    pending = Pending::Login { resume: true };
                    told = true;
                }
            },
            InitialLoginType::Fresh => {},
        }
        if !told {
            actions.push(Action::Emit(ResoToUi::PreviousTokenInvalidResponse));
            actions.push(Action::Repaint);
        }
        (BackendThread { client, hub: false, next_poll: None, pending }, actions)
    }

    /// Whether the backend is ready for the next command or tick.
    pub fn is_idle(&self) -> (r: bool)
        ensures
            r == (self.awaiting() is Idle),
    {
        match self.pending {
            Pending::Idle => true,
            _ => false,
        }
    }

    /// Whether the loop has ended.
    pub fn is_stopped(&self) -> (r: bool)
        ensures
            r == (self.awaiting() is Stopped),
    {
        match self.pending {
            Pending::Stopped => true,
            _ => false,
        }
    }

    /// Whether the hub is connected.
    pub fn is_hub_connected(&self) -> (r: bool)
        ensures
            r == self.hub_connected(),
    {
        self.hub
    }

    /// The session with the platform.
    pub fn session(&self) -> (r: &Client)
        ensures
            *r == self.client(),
    {
        &self.client
    }

    /// Carries out a command that finds the backend idle.
    pub fn on_command(
        &mut self,
        caches: &mut SharedCaches,
        cmd: UiToReso,
        now: ResDateTime,
    ) -> (acts: Vec<Action>)
        requires
            old(self).wf(),
            old(caches).wf(),
            old(self).awaiting() is Idle,
        ensures
            final(self).wf(),
            final(caches).wf(),
            command_handled(*old(self), *old(caches), cmd, now, *final(self), *final(caches), acts@),
    {
        let mut actions: Vec<Action> = Vec::new();
        match cmd {
            UiToReso::ShutdownRequest => {
                actions.push(Action::Stop);
                self.pending = Pending::Stopped;
            },
            UiToReso::TokenRequestCredentials(username, password, remember) => {
                let auth = UserSessionsAuthReq::Credentials {
                    _type: "password".to_owned(),
                    password,
                };
                match self.client.login_request(username.as_str(), auth, remember) {
                    Some(req) => {
                        actions.push(Action::Login(req));
                        self.pending = Pending::Login { resume: false };
                    },
                    None => {
                        actions.push(
                            Action::Emit(ResoToUi::LoginFailedResponse(LoginError::ReachedTheEnd)),
                        );
                        actions.push(Action::Repaint);
                    },
                }
            },
            UiToReso::UserInfoRequest(query) => {
                if let Some(req) = self.client.get_users_request(query.as_str()) {
                    actions.push(Action::Fetch(FetchKind::Users, req));
                    self.pending = Pending::Users;
                }
            },
            UiToReso::UserStatusRequest(id) => {
                if let Some(req) = self.client.get_status_request(id.as_str()) {
                    actions.push(Action::Fetch(FetchKind::Status, req));
                    self.pending = Pending::Status;
                }
            },
            UiToReso::SignalConnectRequest(id, token) => {
                actions.push(Action::Connect { uid: self.client.hwid().clone(), id, token });
                self.pending = Pending::Connect;
            },
            UiToReso::SignalInitializeStatus => {
                if self.hub {
                    actions.push(Action::Invoke(HubCall::InitializeStatus));
                    self.pending = Pending::Invoke { quiet: false };
                } else {
                    actions.push(Action::Emit(ResoToUi::SignalUninitialized));
                }
            },
            UiToReso::SignalListenOnKey(key) => {
                if self.hub {
                    actions.push(Action::Invoke(HubCall::ListenOnKey(key)));
                    self.pending = Pending::Invoke { quiet: false };
                } else {
                    actions.push(Action::Emit(ResoToUi::SignalUninitialized));
                }
            },
            UiToReso::SignalRequestStatus(id, invisible) => {
                if self.hub {
                    actions.push(Action::Invoke(HubCall::RequestStatus(id, invisible)));
                    self.pending = Pending::Invoke { quiet: true };
                } else {
                    actions.push(Action::Emit(ResoToUi::SignalUninitialized));
                }
            },
            UiToReso::SignalBroadcastStatus(status, target) => {
                if self.hub {
                    let copy = status.clone();
                    caches.cache_status(status);
                    actions.push(Action::Invoke(HubCall::BroadcastStatus(copy, target)));
                    self.pending = Pending::Invoke { quiet: false };
                } else {
                    caches.cache_status(status);
                    actions.push(Action::Emit(ResoToUi::SignalUninitialized));
                }
            },
            UiToReso::SignalSendMessage(to, content) => {
                if !self.hub {
                    actions.push(Action::Emit(ResoToUi::SignalUninitialized));
                } else {
                    match self.client.user_id() {
                        Some(me) => {
                            let message = Message {
                                id: String::new(),
                                sender_id: me.clone(),
                                recipient_id: to.clone(),
                                other_id: to,
                                message_type: MessageType::Text,
                                content,
                                send_time: now,
                                last_update_time: now,
                                read_time: None,
                                is_migrated: true,
                                owner_id: me.clone(),
                            };
                            actions.push(Action::Invoke(HubCall::SendMessage(message)));
                            self.pending = Pending::Invoke { quiet: false };
                        },
                        None => {
                            actions.push(
                                Action::Emit(
                                    ResoToUi::ThreadCrashedResponse(
                                        "a message was to be sent, but no user is logged in".to_owned(),
                                    ),
                                ),
                            );
                            actions.push(Action::Stop);
                            self.pending = Pending::Stopped;
                        },
                    }
                }
            },
        }
        actions
    }

    /// Goes round the loop once with no command at hand.
    pub fn on_tick(&mut self, caches: &mut SharedCaches, now: ResDateTime) -> (acts: Vec<Action>)
        requires
            old(self).wf(),
            old(caches).wf(),
            old(self).awaiting() is Idle,
        ensures
            final(self).wf(),
            final(caches).wf(),
            tick_handled(*old(self), *old(caches), now, *final(self), *final(caches), acts@),
    {
        let mut actions: Vec<Action> = Vec::new();
        let due = match &self.next_poll {
            Some(t) => t.is_not_after(&now),
            None => false,
        };
        if self.next_poll.is_none() || due {
            let secs = if now.secs > i64::MAX - POLL_SECONDS {
                i64::MAX
            } else {
                now.secs + POLL_SECONDS
            };
            self.next_poll = Some(ResDateTime::new(secs, now.nanos));
        }
        if due && self.hub {
            actions.push(Action::Invoke(HubCall::RequestStatus(None, false)));
            self.pending = Pending::Invoke { quiet: true };
        }
        if caches.take_refresh() {
            actions.push(Action::Repaint);
        }
        actions
    }

    /// Asks for the record of the user who just logged in, or gives the
    /// fetches up where no request can be made.
    fn begin_self_info(&mut self, id: String, actions: &mut Vec<Action>)
        requires
            old(self).client.wf(),
            old(self).client.is_logged_in(),
        ensures
            final(self).wf(),
            final(self).client == old(self).client,
            final(self).hub == old(self).hub,
            final(self).next_poll == old(self).next_poll,
            final(actions)@.len() == old(actions)@.len() + 1,
            final(actions)@.subrange(0, old(actions)@.len() as int) == old(actions)@,
            if old(self).client.can_fetch() {
                &&& final(actions)@.last() matches Action::Fetch(FetchKind::User, req)
                &&& old(self).client.is_fetch_request(req, "users/"@ + id@)
                &&& final(self).pending matches Pending::SelfInfo { id: i }
                &&& i@ == id@
            } else {
                final(actions)@.last() == Action::Repaint && final(self).pending is Idle
            },
    {
        match self.client.get_user_request(id.as_str()) {
            Some(req) => {
                actions.push(Action::Fetch(FetchKind::User, req));
                self.pending = Pending::SelfInfo { id };
            },
            None => {
                actions.push(Action::Repaint);
                self.pending = Pending::Idle;
            },
        }
        assert(final(actions)@.subrange(0, old(actions)@.len() as int) =~= old(actions)@);
    }

    /// Takes the answer to a login.
    pub fn on_login_reply(&mut self, reply: HttpReply<SessionGrant>) -> (acts: Vec<Action>)
        requires
            old(self).wf(),
            old(self).awaiting() is Login,
        ensures
            final(self).wf(),
            login_reply_handled(*old(self), reply, *final(self), acts@),
    {
        let mut actions: Vec<Action> = Vec::new();
        let resume = match self.pending {
            Pending::Login { resume } => resume,
            _ => false,
        };
        match self.client.login(reply) {
            Ok(token) => {
                proof {
                    self.client.lemma_credentials_together();
                }
                let id = match self.client.user_id() {
                    Some(id) => id.clone(),
                    None => String::new(),
                };
                actions.push(Action::Emit(ResoToUi::LoggedInResponse(token, id.clone())));
                self.begin_self_info(id, &mut actions);
                assert(actions@[0] == actions@.subrange(0, 1)[0]);
            },
            Err(e) => {
                if resume {
                    actions.push(Action::Emit(ResoToUi::PreviousTokenInvalidResponse));
                } else {
                    actions.push(Action::Emit(ResoToUi::LoginFailedResponse(e)));
                }
                actions.push(Action::Repaint);
                self.pending = Pending::Idle;
            },
        }
        actions
    }

    /// Takes the answer to the lookup of the user who just logged in.
    pub fn on_user_reply(&mut self, reply: HttpReply<UserInfo>) -> (acts: Vec<Action>)
        requires
            old(self).wf(),
            old(self).awaiting() is SelfInfo,
        ensures
            final(self).wf(),
            user_reply_handled(*old(self), reply, *final(self), acts@),
    {
        let mut actions: Vec<Action> = Vec::new();
        let me = match &self.pending {
            Pending::SelfInfo { id } => id.clone(),
            _ => String::new(),
        };
        match self.client.get_user(reply) {
            Ok(you) => {
                actions.push(Action::Emit(ResoToUi::UserInfoResponse(me.clone(), you)));
                match self.client.get_contacts_request(me.as_str()) {
                    Some(req) => {
                        actions.push(Action::Fetch(FetchKind::Contacts, req));
                        self.pending = Pending::Contacts { id: me };
                    },
                    None => {
                        actions.push(Action::Repaint);
                        self.pending = Pending::Idle;
                    },
                }
            },
            Err(_) => {
                actions.push(Action::Repaint);
                self.pending = Pending::Idle;
            },
        }
        actions
    }

    /// Takes the answer to the fetch of the contacts.
    pub fn on_contacts_reply(
        &mut self,
        caches: &mut SharedCaches,
        reply: HttpReply<Vec<Contact>>,
    ) -> (acts: Vec<Action>)
        requires
            old(self).wf(),
            old(caches).wf(),
            old(self).awaiting() is Contacts,
        ensures
            final(self).wf(),
            final(caches).wf(),
            contacts_reply_handled(
                *old(self),
                *old(caches),
                reply,
                *final(self),
                *final(caches),
                acts@,
            ),
    {
        let mut actions: Vec<Action> = Vec::new();
        let me = match &self.pending {
            Pending::Contacts { id } => id.clone(),
            _ => String::new(),
        };
        self.client.get_contacts(caches, me.as_str(), reply);
        match self.client.get_messages_request(me.as_str()) {
            Some(req) => {
                actions.push(Action::Fetch(FetchKind::Messages, req));
                self.pending = Pending::Messages;
            },
            None => {
                actions.push(Action::Repaint);
                self.pending = Pending::Idle;
            },
        }
        actions
    }

    /// Takes the answer to the fetch of the messages.
    pub fn on_messages_reply(
        &mut self,
        caches: &mut SharedCaches,
        reply: HttpReply<Vec<Message>>,
    ) -> (acts: Vec<Action>)
        requires
            old(self).wf(),
            old(caches).wf(),
            old(self).awaiting() is Messages,
        ensures
            final(self).wf(),
            final(caches).wf(),
            messages_reply_handled(
                *old(self),
                *old(caches),
                reply,
                *final(self),
                *final(caches),
                acts@,
            ),
    {
        let mut actions: Vec<Action> = Vec::new();
        self.client.get_messages(caches, reply);
        actions.push(Action::Repaint);
        self.pending = Pending::Idle;
        actions
    }

    /// Takes the answer to a lookup of users.
    pub fn on_users_reply(&mut self, reply: HttpReply<Vec<UserInfo>>) -> (acts: Vec<Action>)
        requires
            old(self).wf(),
            old(self).awaiting() is Users,
        ensures
            final(self).wf(),
            users_reply_handled(*old(self), reply, *final(self), acts@),
    {
        let mut actions: Vec<Action> = Vec::new();
        self.pending = Pending::Idle;
        if let Ok(users) = self.client.get_users(reply) {
            let ghost all = users@;
            for user in it: users
                invariant
                    it.seq() == all,
                    actions@.len() == it.index(),
                    forall|k: int|
                        0 <= k < it.index() ==> (#[trigger] actions@[k] matches Action::Emit(
                            ResoToUi::UserInfoResponse(i, u),
                        ) && i@ == all[k].id@ && u == all[k]),
            {
                let id = user.id.clone();
                actions.push(Action::Emit(ResoToUi::UserInfoResponse(id, user)));
            }
            actions.push(Action::Repaint);
        }
        actions
    }

    /// Takes the answer to a fetch of a status.
    pub fn on_status_reply(&mut self, reply: HttpReply<String>) -> (acts: Vec<Action>)
        requires
            old(self).wf(),
            old(self).awaiting() is Status,
        ensures
            final(self).wf(),
            status_reply_handled(*old(self), reply, *final(self), acts@),
    {
        let mut actions: Vec<Action> = Vec::new();
        self.pending = Pending::Idle;
        if let Some(line) = self.client.get_status(reply) {
            actions.push(Action::Log(line));
        }
        actions
    }

    /// Takes the end of an attempt to connect to the hub.
    pub fn on_connected(&mut self, outcome: Option<ConnectFailure>) -> (acts: Vec<Action>)
        requires
            old(self).wf(),
            old(self).awaiting() is Connect,
        ensures
            final(self).wf(),
            connected_handled(*old(self), outcome, *final(self), acts@),
    {
        let mut actions: Vec<Action> = Vec::new();
        self.pending = Pending::Idle;
        match outcome {
            None => {
                self.hub = true;
                actions.push(Action::Emit(ResoToUi::SignalConnectedResponse));
            },
            Some(failure) => {
                actions.push(Action::Emit(ResoToUi::SignalConnectFailedResponse(failure)));
            },
        }
        actions.push(Action::Repaint);
        actions
    }

    /// Takes the end of a call on the hub.
    pub fn on_invoked(&mut self, reply: HubReply) -> (acts: Vec<Action>)
        requires
            old(self).wf(),
            old(self).awaiting() is Invoke,
        ensures
            final(self).wf(),
            invoked_handled(*old(self), reply, *final(self), acts@),
    {
        let mut actions: Vec<Action> = Vec::new();
        let quiet = match self.pending {
            Pending::Invoke { quiet } => quiet,
            _ => false,
        };
        self.pending = Pending::Idle;
        match reply {
            HubReply::Done => {},
            HubReply::Failed(failure) => {
                actions.push(Action::Emit(ResoToUi::SignalRequestFailedResponse(failure)));
            },
            HubReply::ArgumentRefused(failure) => {
                if !quiet {
                    actions.push(Action::Emit(ResoToUi::SignalRequestFailedResponse(failure)));
                }
            },
        }
        actions
    }

    /// Ends the loop after something broke.
    pub fn on_failure(&mut self, text: String) -> (acts: Vec<Action>)
        requires
            old(self).wf(),
        ensures
            final(self).wf(),
            failure_handled(*old(self), text, *final(self), acts@),
    {
        let mut actions: Vec<Action> = Vec::new();
        self.pending = Pending::Stopped;
        actions.push(Action::Emit(ResoToUi::ThreadCrashedResponse(text)));
        actions.push(Action::Stop);
        actions
    }

    /// Takes an event that came at the instant `now` and says what is to be
    /// done next.
    pub fn handle(
        &mut self,
        caches: &mut SharedCaches,
        event: Event,
        now: ResDateTime,
    ) -> (acts: Vec<Action>)
        requires
            old(self).wf(),
            old(caches).wf(),
        ensures
            final(self).wf(),
            final(caches).wf(),
            handled(*old(self), *old(caches), event, now, *final(self), *final(caches), acts@),
    {
        match event {
            Event::Command(cmd) => {
                if self.is_idle() {
                    return self.on_command(caches, cmd, now);
                }
            },
            Event::Tick => {
                if self.is_idle() {
                    return self.on_tick(caches, now);
                }
            },
            Event::LoginReply(reply) => {
                if let Pending::Login { .. } = self.pending {
                    return self.on_login_reply(reply);
                }
            },
            Event::UserReply(reply) => {
                if let Pending::SelfInfo { .. } = self.pending {
                    return self.on_user_reply(reply);
                }
            },
            Event::UsersReply(reply) => {
                if let Pending::Users = self.pending {
                    return self.on_users_reply(reply);
                }
            },
            Event::ContactsReply(reply) => {
                if let Pending::Contacts { .. } = self.pending {
                    return self.on_contacts_reply(caches, reply);
                }
            },
            Event::MessagesReply(reply) => {
                if let Pending::Messages = self.pending {
                    return self.on_messages_reply(caches, reply);
                }
            },
            Event::StatusReply(reply) => {
                if let Pending::Status = self.pending {
                    return self.on_status_reply(reply);
                }
            },
            Event::Connected(outcome) => {
                if let Pending::Connect = self.pending {
                    return self.on_connected(outcome);
                }
            },
            Event::Invoked(reply) => {
                if let Pending::Invoke { .. } = self.pending {
                    return self.on_invoked(reply);
                }
            },
            Event::Failure(text) => {
                if !self.is_stopped() {
                    return self.on_failure(text);
                }
            },
        }
        Vec::new()
    }

    /// Takes an event that came just now: reads the clock and hands the
    /// event on to `handle`.
    pub fn step(&mut self, caches: &mut SharedCaches, event: Event) -> (acts: Vec<Action>)
        requires
            old(self).wf(),
            old(caches).wf(),
        ensures
            final(self).wf(),
            final(caches).wf(),
            exists|now: ResDateTime|
                handled(*old(self), *old(caches), event, now, *final(self), *final(caches), acts@),
    {
        let now = ResDateTime::now();
        self.handle(caches, event, now)
    }
}

/// A command that is carried out on the hub, when it finds the backend
/// idle and the hub not connected, gives exactly one event, which says that
/// the hub is not initialized, and reaches out to no network; the backend
/// stays idle and unconnected.
pub proof fn lemma_hub_command_without_hub(
    pre: BackendThread,
    pc: SharedCaches,
    cmd: UiToReso,
    now: ResDateTime,
    post: BackendThread,
    qc: SharedCaches,
    acts: Seq<Action>,
)
    requires
        handled(pre, pc, Event::Command(cmd), now, post, qc, acts),
        pre.awaiting() is Idle,
        cmd.needs_hub(),
        !pre.hub_connected(),
    ensures
        acts.len() == 1,
        acts[0] == Action::Emit(ResoToUi::SignalUninitialized),
        forall|i: int| 0 <= i < acts.len() ==> !(#[trigger] acts[i]).is_network(),
        post.awaiting() is Idle,
        !post.hub_connected(),
{
}

/// A broadcast of a status, when it finds the backend idle, puts the
/// status in the cache under its user's id before anything is known of the
/// network: also where the hub is not connected and the broadcast ends in
/// the event that says so.
pub proof fn lemma_broadcast_is_cached(
    pre: BackendThread,
    pc: SharedCaches,
    status: UserStatus,
    target: BroadcastTarget,
    now: ResDateTime,
    post: BackendThread,
    qc: SharedCaches,
    acts: Seq<Action>,
)
    requires
        handled(
            pre,
            pc,
            Event::Command(UiToReso::SignalBroadcastStatus(status, target)),
            now,
            post,
            qc,
            acts,
        ),
        pre.awaiting() is Idle,
    ensures
        qc.statuses().contains_key(status.user_id@),
        qc.statuses()[status.user_id@] == status,
        qc.statuses() == pc.statuses().insert(status.user_id@, status),
        !pre.hub_connected() ==> acts.len() == 1 && acts[0] == Action::Emit(
            ResoToUi::SignalUninitialized,
        ),
{
}

/// A status request, when it finds the backend idle and the hub connected,
/// gives one call on the hub with the user and the flag of the request. No
/// request is held back because of an earlier one, nor because of the timer.
pub proof fn lemma_status_request_goes_out(
    pre: BackendThread,
    pc: SharedCaches,
    id: Option<String>,
    invisible: bool,
    now: ResDateTime,
    post: BackendThread,
    qc: SharedCaches,
    acts: Seq<Action>,
)
    requires
        handled(
            pre,
            pc,
            Event::Command(UiToReso::SignalRequestStatus(id, invisible)),
            now,
            post,
            qc,
            acts,
        ),
        pre.awaiting() is Idle,
        pre.hub_connected(),
    ensures
        acts.len() == 1,
        acts[0] matches Action::Invoke(HubCall::RequestStatus(i, v)) && opt_text(i) == opt_text(id)
            && v == invisible,
        post.hub_connected(),
        post.next_poll() == pre.next_poll(),
{
}

/// The backend asks for one thing at a time. Whatever event it waited for,
/// it asks the network for at most one thing in answer, and it waits for
/// an answer exactly when it has asked: so the next command is taken up
/// only when the one before is done with.
pub proof fn lemma_one_request_at_a_time(
    pre: BackendThread,
    pc: SharedCaches,
    event: Event,
    now: ResDateTime,
    post: BackendThread,
    qc: SharedCaches,
    acts: Seq<Action>,
)
    requires
        handled(pre, pc, event, now, post, qc, acts),
        awaited(pre, event),
    ensures
        forall|i: int, j: int|
            0 <= i < acts.len() && 0 <= j < acts.len() && (#[trigger] acts[i]).is_network() && (
            #[trigger] acts[j]).is_network() ==> i == j,
        (post.awaiting() is Idle || post.awaiting() is Stopped) <==> forall|i: int|
            0 <= i < acts.len() ==> !(#[trigger] acts[i]).is_network(),
{
    match event {
        Event::UsersReply(reply) => {
            match lookup_outcome(reply) {
                Ok(users) => {
                    assert forall|i: int| 0 <= i < acts.len() implies !(#[trigger] acts[i]).is_network() by {
                        if i < users@.len() {
                        } else {
                        }
                    }
                },
                Err(_) => {},
            }
        },
        Event::Command(cmd) => {
            if !(post.awaiting() is Idle || post.awaiting() is Stopped) {
                assert(acts[0].is_network());
            }
        },
        Event::Tick => {
            if !(post.awaiting() is Idle) {
                assert(acts[0].is_network());
            }
        },
        Event::LoginReply(reply) => {
            if !(post.awaiting() is Idle) {
                assert(acts[1].is_network());
            }
        },
        Event::UserReply(reply) => {
            if !(post.awaiting() is Idle) {
                assert(acts[1].is_network());
            }
        },
        Event::ContactsReply(reply) => {
            if !(post.awaiting() is Idle) {
                assert(acts[0].is_network());
            }
        },
        _ => {},
    }
}

} // verus!
