use vstd::prelude::*;
use crate::api::{LoginError, UserInfo};
use crate::backend::{InitialLoginType, ResoToUi, UiToReso};
use crate::cache::KeyedCache;
use crate::hub::{
    BroadcastGroup, ConnectFailure, OnlineStatus, OutputDevice, RequestFailure, UserSessionType,
    UserStatus, BroadcastTarget, client_app_version,
};
use crate::text::{decimal, decimal_text, join};

verus! {

/// A page of the interface.
#[derive(Clone, Debug, PartialEq, Eq)]
pub enum FrontendPage {
    SignInPage,
    ProfilePage(String),
    ConversationPage(String),
    FriendsPage,
    UserSearchPage,
    SessionsPage,
    MessagesPage,
    NotificationsPage,
    LoadingPage,
    SettingsPage,
    UnknownPage,
}

/// What a notification shows beside its text: a glyph of the icon font, or
/// the image at an address.
#[derive(Clone, Debug, PartialEq, Eq)]
pub enum FrontendNotificationIcon {
    SegoeIcon(String),
    LoadableImage(String),
}

/// A notification: an icon, a title and a detail.
#[derive(Clone, Debug, PartialEq, Eq)]
pub struct FrontendNotification {
    pub icon: FrontendNotificationIcon,
    pub text: String,
    pub sub: String,
}

/// What is kept of a login between two runs.
#[derive(Clone, Debug, PartialEq, Eq)]
pub struct LoginSettings {
    pub username: String,
}

/// What the user typed into the sign-in page.
#[derive(Clone, Debug, PartialEq, Eq)]
pub struct LoginDetails {
    pub username: String,
    pub password: String,
    pub remember_me: bool,
}

/// What the user typed into the pages, and what the search gave.
#[derive(Clone, Debug, PartialEq, Eq)]
pub struct TemporaryEntryFields {
    pub user_info_query: String,
    pub user_info_query_results: Vec<String>,
    pub login_details: LoginDetails,
    pub message_buffer: String,
}

/// What the credential store said when it was asked for the stored token.
#[derive(Clone, Debug, PartialEq, Eq)]
pub enum StoredToken {
    /// The store could not be opened.
    NoStore,
    /// The store holds no token.
    Missing,
    /// The stored token.
    Found(String),
}

/// Why the credential store could not do what it was asked.
#[derive(Clone, Debug, PartialEq, Eq)]
pub enum KeyringFailure {
    PlatformFailure,
    NoStorageAccess,
    NoEntry,
    BadEncoding,
    /// An attribute is too long; its name and the greatest length.
    TooLong(String, u32),
    /// An attribute is invalid; its name and the reason.
    Invalid(String, String),
    Ambiguous,
    Other,
}

/// What the bridge asks of the world around the interface.
#[derive(Debug, PartialEq, Eq)]
pub enum BridgeAction {
    /// Send a command to the backend.
    Send(UiToReso),
    /// Delete the stored token. Where `report` holds, a failure is handed
    /// to `keyring_delete_failed`; else it is passed over.
    ForgetToken { report: bool },
    /// Store the token; a failure is handed to `keyring_store_failed`.
    StoreToken(String),
}

/// Whether `n` is the notification with a glyph, a title and a detail.
pub open spec fn is_icon_notification(
    n: FrontendNotification,
    icon: Seq<char>,
    text: Seq<char>,
    sub: Seq<char>,
) -> bool {
    &&& n.icon matches FrontendNotificationIcon::SegoeIcon(i)
    &&& i@ == icon
    &&& n.text@ == text
    &&& n.sub@ == sub
}

/// The notification with a glyph, a title and a detail.
pub fn icon_notification(icon: &str, header: &str, details: &str) -> (r: FrontendNotification)
    ensures
        is_icon_notification(r, icon@, header@, details@),
{
    FrontendNotification {
        icon: FrontendNotificationIcon::SegoeIcon(icon.to_owned()),
        text: header.to_owned(),
        sub: details.to_owned(),
    }
}

/// With what the backend is started. A remembered user name and a stored
/// token resume the earlier session. Anything less starts afresh; where the
/// store could not be opened for a remembered name, a notification says so.
pub fn initial_login(name: &str, stored: StoredToken) -> (r: (
    InitialLoginType,
    Option<FrontendNotification>,
))
    ensures
        match stored {
            StoredToken::Found(token) if name@.len() > 0 => {
                &&& r.0 matches InitialLoginType::PreviousToken { username, session_token }
                &&& username@ == name@
                &&& session_token@ == token@
                &&& r.1 is None
            },
            StoredToken::NoStore if name@.len() > 0 => {
                &&& r.0 is Fresh
                &&& r.1 matches Some(n)
                &&& is_icon_notification(n, "\u{e25b}"@, "No Keyring"@, "Entry retrival failed"@)
            },
            _ => r.0 is Fresh && r.1 is None,
        },
{
    if name.is_empty() {
        return (InitialLoginType::Fresh, None);
    }
    match stored {
        StoredToken::Found(token) => (
            InitialLoginType::PreviousToken { username: name.to_owned(), session_token: token },
            None,
        ),
        StoredToken::Missing => (InitialLoginType::Fresh, None),
        StoredToken::NoStore => (
            InitialLoginType::Fresh,
            Some(icon_notification("\u{e25b}", "No Keyring", "Entry retrival failed")),
        ),
    }
}

/// The state of the interface that the events of the backend bear on.
pub struct TemplateApp {
    /// Whether the sign-in page may send a login.
    pub can_attempt_login: bool,
    pub logged_in: bool,
    pub you: Option<UserInfo>,
    pub user_id: Option<String>,
    pub token: String,
    pub notifications: Vec<FrontendNotification>,
    /// The pages that were visited.
    pub page_stack: Vec<FrontendPage>,
    /// The place in `page_stack` of the page that is shown.
    pub current_page: usize,
    pub entry_fields: TemporaryEntryFields,
    pub cached_user_infos: KeyedCache<UserInfo>,
}

impl TemplateApp {
    /// The state holds together: the cache of user records is well-formed.
    pub open spec fn wf(&self) -> bool {
        self.cached_user_infos.wf()
    }

    /// The page that is shown: the one whose place `current_page` names,
    /// or the unknown page where it names none.
    pub open spec fn shown(&self) -> FrontendPage {
        if self.current_page < self.page_stack@.len() {
            self.page_stack@[self.current_page as int]
        } else {
            FrontendPage::UnknownPage
        }
    }

    /// Whether `id` is the id of the user who is logged in.
    pub open spec fn names_you(&self, id: Seq<char>) -> bool {
        self.user_id matches Some(me) && me@ == id
    }

    /// The state at the start: the loading page is shown, nobody is logged
    /// in, no login may be sent yet, and the remembered user name, if there
    /// is one, stands in the sign-in page with the wish to be remembered.
    pub fn new(name: String, notifications: Vec<FrontendNotification>) -> (r: Self)
        ensures
            r.wf(),
            !r.can_attempt_login,
            !r.logged_in,
            r.you is None,
            r.user_id is None,
            r.token@.len() == 0,
            r.notifications == notifications,
            r.page_stack@ =~= seq![FrontendPage::LoadingPage],
            r.current_page == 0,
            r.entry_fields.login_details.username == name,
            r.entry_fields.login_details.password@.len() == 0,
            r.entry_fields.login_details.remember_me == (name@.len() > 0),
            r.entry_fields.user_info_query@.len() == 0,
            r.entry_fields.user_info_query_results@.len() == 0,
            r.entry_fields.message_buffer@.len() == 0,
            r.cached_user_infos@ == Map::<Seq<char>, UserInfo>::empty(),
    {
        let mut page_stack: Vec<FrontendPage> = Vec::new();
        page_stack.push(FrontendPage::LoadingPage);
        let remember_me = !name.as_str().is_empty();
        TemplateApp {
            can_attempt_login: false,
            logged_in: false,
            you: None,
            user_id: None,
            token: String::new(),
            notifications,
            page_stack,
            current_page: 0,
            entry_fields: TemporaryEntryFields {
                user_info_query: String::new(),
                user_info_query_results: Vec::new(),
                login_details: LoginDetails { username: name, password: String::new(), remember_me },
                message_buffer: String::new(),
            },
            cached_user_infos: KeyedCache::new(),
        }
    }

    /// The name of the user who is logged in, or `you` before it is known.
    pub fn username(&self) -> (r: String)
        ensures
            r@ == match self.you {
                Some(you) => you.username@,
                None => "you"@,
            },
    {
        match &self.you {
            Some(you) => you.username.clone(),
            None => "you".to_owned(),
        }
    }

    /// Whether `id` is the id of the user who is logged in.
    pub fn is_you(&self, id: &String) -> (r: bool)
        ensures
            r == self.names_you(id@),
    {
        match &self.user_id {
            Some(me) => crate::text::same_text(me.as_str(), id.as_str()),
            None => false,
        }
    }

    /// The page that is shown.
    pub fn current_page(&self) -> (r: &FrontendPage)
        ensures
            *r == self.shown(),
    {
        if self.current_page < self.page_stack.len() {
            &self.page_stack[self.current_page]
        } else {
            &FrontendPage::UnknownPage
        }
    }

    /// How many of the visited pages stay when a new page is shown: those
    /// up to the shown one, or all where `current_page` names none.
    pub open spec fn pages_kept(&self) -> int {
        if self.current_page < self.page_stack@.len() {
            self.current_page + 1
        } else {
            self.page_stack@.len() as int
        }
    }

    /// Shows a page. The pages that were ahead of the shown one are
    /// forgotten, and the new page comes last.
    pub fn set_page(&mut self, page: FrontendPage)
        ensures
            final(self).wf() == old(self).wf(),
            final(self).page_stack@ == old(self).page_stack@.take(old(self).pages_kept()).push(
                page,
            ),
            final(self).current_page == old(self).pages_kept(),
            final(self).shown() == page,
            *final(self) == (TemplateApp {
                page_stack: final(self).page_stack,
                current_page: final(self).current_page,
                ..*old(self)
            }),
    {
        let keep = if self.current_page < self.page_stack.len() {
            self.current_page + 1
        } else {
            self.page_stack.len()
        };
        self.page_stack.truncate(keep);
        assert(self.page_stack@ =~= old(self).page_stack@.take(keep as int));
        self.current_page = keep;
        self.page_stack.push(page);
    }

    /// Goes back one page, where there is one.
    pub fn page_back(&mut self)
        ensures
            final(self).wf() == old(self).wf(),
            final(self).current_page == if old(self).current_page > 0 {
                (old(self).current_page - 1) as usize
            } else {
                0
            },
            *final(self) == (TemplateApp { current_page: final(self).current_page, ..*old(self) }),
    {
        if self.current_page > 0 {
            self.current_page -= 1;
        }
    }

    /// Goes forward one page, where there is one.
    pub fn page_forward(&mut self)
        ensures
            final(self).wf() == old(self).wf(),
            final(self).current_page == if old(self).current_page + 1 < old(self).page_stack@.len() {
                (old(self).current_page + 1) as usize
            } else {
                old(self).current_page
            },
            *final(self) == (TemplateApp { current_page: final(self).current_page, ..*old(self) }),
    {
        if self.current_page < self.page_stack.len() && self.current_page + 1
            < self.page_stack.len() {
            self.current_page += 1;
        }
    }
}

/// Whether a list is another list with one more item at its end.
pub open spec fn grown_by_one<T>(before: Seq<T>, after: Seq<T>) -> bool {
    after.len() == before.len() + 1 && after.drop_last() =~= before
}

/// The name under which a login error is shown.
pub open spec fn login_error_text(e: LoginError) -> Seq<char> {
    match e {
        LoginError::InvalidCredentials => "InvalidCredentials"@,
        LoginError::JsonParseFailed => "JsonParseFailed"@,
        LoginError::RequestFailed => "RequestFailed"@,
        LoginError::ReachedTheEnd => "ReachedTheEnd"@,
    }
}

/// What is shown of a failure to connect to the hub.
pub open spec fn connect_failure_text(f: ConnectFailure) -> Seq<char> {
    match f {
        ConnectFailure::NegotiateRequest => "Negotiation Request error"@,
        ConnectFailure::NegotiateDeserialization => "Negotiation Deserialization error"@,
        ConnectFailure::NegotiateUnsupported => "Negotiation Unsupported"@,
        ConnectFailure::Url => "Url"@,
        ConnectFailure::Transport(source) => "Transport error: "@ + source@,
    }
}

/// What is shown of a failed call on the hub.
pub open spec fn request_failure_text(f: RequestFailure) -> Seq<char> {
    match f {
        RequestFailure::Malformed => "Malformed request"@,
        RequestFailure::HubGeneric => "Generic hub error"@,
        RequestFailure::HubExtraction => "Message extraction failed"@,
        RequestFailure::HubUnsupported => "Hub feature unsupported"@,
        RequestFailure::HubUnprocessable => "Message could not be processed"@,
        RequestFailure::HubIncomprehensible => "Message could not be understood"@,
        RequestFailure::ProtocolError => "Protocol violated"@,
        RequestFailure::NoResponse => "No response"@,
        RequestFailure::Result(_) => "Server error"@,
        RequestFailure::TransportInavailable => "Cannot reach transport"@,
        RequestFailure::Handshake(_) => "Handshake"@,
    }
}

/// What is shown of a failure to store the token.
pub open spec fn keyring_failure_text(f: KeyringFailure) -> Seq<char> {
    match f {
        KeyringFailure::PlatformFailure => "Platform failure"@,
        KeyringFailure::NoStorageAccess => "No storage access"@,
        KeyringFailure::NoEntry => "No entry"@,
        KeyringFailure::BadEncoding => "Bad encoding"@,
        KeyringFailure::TooLong(attr, max_len) => "attribute \""@ + attr@ + "\" too long (max "@
            + decimal(max_len as nat) + ")"@,
        KeyringFailure::Invalid(attr, reason) => "attribute \""@ + attr@ + "\": "@ + reason@,
        KeyringFailure::Ambiguous => "Ambiguous"@,
        KeyringFailure::Other => "Unknown Error"@,
    }
}

/// The text shown of a failure to connect to the hub.
pub fn describe_connect_failure(f: &ConnectFailure) -> (r: String)
    ensures
        r@ == connect_failure_text(*f),
{
    match f {
        ConnectFailure::NegotiateRequest => "Negotiation Request error".to_owned(),
        ConnectFailure::NegotiateDeserialization => "Negotiation Deserialization error".to_owned(),
        ConnectFailure::NegotiateUnsupported => "Negotiation Unsupported".to_owned(),
        ConnectFailure::Url => "Url".to_owned(),
        ConnectFailure::Transport(source) => join("Transport error: ", source.as_str()),
    }
}

/// The text shown of a failed call on the hub.
pub fn describe_request_failure(f: &RequestFailure) -> (r: &'static str)
    ensures
        r@ == request_failure_text(*f),
{
    match f {
        RequestFailure::Malformed => "Malformed request",
        RequestFailure::HubGeneric => "Generic hub error",
        RequestFailure::HubExtraction => "Message extraction failed",
        RequestFailure::HubUnsupported => "Hub feature unsupported",
        RequestFailure::HubUnprocessable => "Message could not be processed",
        RequestFailure::HubIncomprehensible => "Message could not be understood",
        RequestFailure::ProtocolError => "Protocol violated",
        RequestFailure::NoResponse => "No response",
        RequestFailure::Result(_) => "Server error",
        RequestFailure::TransportInavailable => "Cannot reach transport",
        RequestFailure::Handshake(_) => "Handshake",
    }
}

/// The text shown of a failure to store the token.
pub fn describe_keyring_failure(f: &KeyringFailure) -> (r: String)
    ensures
        r@ == keyring_failure_text(*f),
{
    match f {
        KeyringFailure::PlatformFailure => "Platform failure".to_owned(),
        KeyringFailure::NoStorageAccess => "No storage access".to_owned(),
        KeyringFailure::NoEntry => "No entry".to_owned(),
        KeyringFailure::BadEncoding => "Bad encoding".to_owned(),
        KeyringFailure::TooLong(attr, max_len) => {
            let mut text = join("attribute \"", attr.as_str());
            text.append("\" too long (max ");
            text.append(decimal_text(*max_len as u64).as_str());
            text.append(")");
            text
        },
        KeyringFailure::Invalid(attr, reason) => {
            let mut text = join("attribute \"", attr.as_str());
            text.append("\": ");
            text.append(reason.as_str());
            text
        },
        KeyringFailure::Ambiguous => "Ambiguous".to_owned(),
        KeyringFailure::Other => "Unknown Error".to_owned(),
    }
}

/// Whether `s` is the status with which this client announces itself for
/// the user `user_id`: a chat client, online and present, in no session.
pub open spec fn is_announcement(s: UserStatus, user_id: Seq<char>) -> bool {
    &&& s.well_formed()
    &&& s@ == (crate::hub::UserStatusView {
        user_id,
        user_session_id: s@.user_session_id,
        session_type: UserSessionType::ChatClient,
        output_device: Some(OutputDevice::Unknown),
        is_mobile: false,
        online_status: Some(OnlineStatus::Online),
        is_present: true,
        last_presence_timestamp: Some(s@.last_status_change),
        last_status_change: s@.last_status_change,
        hash_salt: None,
        app_version: client_app_version(),
        compatibility_hash: None,
        public_r_s_a_key: None,
        sessions: Seq::<crate::hub::UserSessionMetadataView>::empty(),
        current_session_index: -1,
    })
}

/// What a successful login does to the interface. The token and the user
/// are noted; the backend is asked to connect to the hub, to request and to
/// initialize the statuses and to announce this client; the loading page
/// gives way to the user's profile; and the token is stored where the user
/// wished to be remembered, and else deleted, with the typed name and
/// password.
pub open spec fn logged_in_done(
    pre: TemplateApp,
    token: String,
    user_id: String,
    post: TemplateApp,
    acts: Seq<BridgeAction>,
) -> bool {
    let remember = pre.entry_fields.login_details.remember_me;
    &&& post.token@ == token@
    &&& post.user_id matches Some(u)
    &&& u@ == user_id@
    &&& post.logged_in
    &&& post.can_attempt_login == pre.can_attempt_login
    &&& post.you == pre.you
    &&& post.notifications == pre.notifications
    &&& post.cached_user_infos == pre.cached_user_infos
    &&& post.current_page == pre.current_page
    &&& post.page_stack@.len() == pre.page_stack@.len()
    &&& forall|i: int|
        0 <= i < pre.page_stack@.len() && !(i == pre.current_page && pre.shown() is LoadingPage)
            ==> #[trigger] post.page_stack@[i] == pre.page_stack@[i]
    &&& pre.shown() is LoadingPage ==> (post.shown() matches FrontendPage::ProfilePage(p) && p@
        == user_id@)
    &&& post.entry_fields.login_details.remember_me == remember
    &&& if remember {
        post.entry_fields == pre.entry_fields
    } else {
        &&& post.entry_fields.login_details.username@.len() == 0
        &&& post.entry_fields.login_details.password@.len() == 0
        &&& post.entry_fields.user_info_query == pre.entry_fields.user_info_query
        &&& post.entry_fields.user_info_query_results == pre.entry_fields.user_info_query_results
        &&& post.entry_fields.message_buffer == pre.entry_fields.message_buffer
    }
    &&& acts.len() == if remember {
        5int
    } else {
        6int
    }
    &&& acts[0] matches BridgeAction::Send(UiToReso::SignalConnectRequest(i, t))
    &&& i@ == user_id@
    &&& t@ == token@
    &&& acts[1] == BridgeAction::Send(UiToReso::SignalRequestStatus(None, false))
    &&& acts[2] == BridgeAction::Send(UiToReso::SignalInitializeStatus)
    &&& acts[3] matches BridgeAction::Send(UiToReso::SignalBroadcastStatus(s, target))
    &&& is_announcement(s, user_id@)
    &&& target.group == BroadcastGroup::Public
    &&& target.target_ids@.len() == 0
    &&& if remember {
        acts[4] matches BridgeAction::StoreToken(k) && k@ == token@
    } else {
        acts[4] == (BridgeAction::ForgetToken { report: true }) && acts[5] == (
        BridgeAction::ForgetToken { report: false })
    }
}

/// A successful login as seen from the interface.
pub fn logged_in(app: &mut TemplateApp, token: String, user_id: String) -> (acts: Vec<BridgeAction>)
    ensures
        old(app).wf() ==> final(app).wf(),
        logged_in_done(*old(app), token, user_id, *final(app), acts@),
{
    let mut acts: Vec<BridgeAction> = Vec::new();
    app.token = token.clone();
    app.user_id = Some(user_id.clone());
    app.logged_in = true;
    acts.push(BridgeAction::Send(UiToReso::SignalConnectRequest(user_id.clone(), token.clone())));
    acts.push(BridgeAction::Send(UiToReso::SignalRequestStatus(None, false)));
    acts.push(BridgeAction::Send(UiToReso::SignalInitializeStatus));
    let announcement = UserStatus::new().id(user_id.clone());
    acts.push(
        BridgeAction::Send(UiToReso::SignalBroadcastStatus(announcement, BroadcastTarget::new())),
    );
    let loading = match app.current_page() {
        FrontendPage::LoadingPage => true,
        _ => false,
    };
    if loading {
        app.page_stack.remove(app.current_page);
        app.page_stack.insert(app.current_page, FrontendPage::ProfilePage(user_id));
    }
    if app.entry_fields.login_details.remember_me {
        acts.push(BridgeAction::StoreToken(token));
    } else {
        app.entry_fields.login_details.username = String::new();
        app.entry_fields.login_details.password = String::new();
        acts.push(BridgeAction::ForgetToken { report: true });
        acts.push(BridgeAction::ForgetToken { report: false });
    }
    acts
}

/// What the interface makes of an event of the backend.
pub open spec fn bridged(
    pre: TemplateApp,
    variant: ResoToUi,
    post: TemplateApp,
    acts: Seq<BridgeAction>,
) -> bool {
    match variant {
        ResoToUi::LoggedInResponse(token, user_id) => logged_in_done(
            pre,
            token,
            user_id,
            post,
            acts,
        ),
        ResoToUi::LoginFailedResponse(reason) => {
            &&& acts.len() == 0
            &&& grown_by_one(pre.notifications@, post.notifications@)
            &&& is_icon_notification(
                post.notifications@.last(),
                "\u{eb90}"@,
                "Login failed"@,
                login_error_text(reason),
            )
            &&& post == (TemplateApp {
                notifications: post.notifications,
                can_attempt_login: true,
                ..pre
            })
        },
        ResoToUi::UserInfoResponse(id, user) => {
            &&& acts.len() == 0
            &&& if pre.names_you(id@) {
                &&& post.you matches Some(u)
                &&& u@ == user@
                &&& grown_by_one(pre.notifications@, post.notifications@)
                &&& post.notifications@.last().text@ == "Hi "@ + user.username@ + "!"@
                &&& post.notifications@.last().sub@ == "You're signed in"@
                &&& match user.profile {
                    Some(profile) => post.notifications@.last().icon
                        matches FrontendNotificationIcon::LoadableImage(url) && url@
                        == profile.icon_url@,
                    None => post.notifications@.last().icon
                        matches FrontendNotificationIcon::SegoeIcon(glyph) && glyph@
                        == "\u{e13d}"@,
                }
            } else {
                post.you == pre.you && post.notifications == pre.notifications
            }
            &&& post.cached_user_infos.wf()
            &&& post.cached_user_infos@ == pre.cached_user_infos@.insert(id@, user)
            &&& if pre.shown() is UserSearchPage {
                &&& grown_by_one(
                    pre.entry_fields.user_info_query_results@,
                    post.entry_fields.user_info_query_results@,
                )
                &&& post.entry_fields.user_info_query_results@.last()@ == id@
            } else {
                post.entry_fields.user_info_query_results
                    == pre.entry_fields.user_info_query_results
            }
            &&& post == (TemplateApp {
                you: post.you,
                notifications: post.notifications,
                cached_user_infos: post.cached_user_infos,
                entry_fields: TemporaryEntryFields {
                    user_info_query_results: post.entry_fields.user_info_query_results,
                    ..pre.entry_fields
                },
                ..pre
            })
        },
        ResoToUi::SignalConnectFailedResponse(failure) => {
            &&& acts.len() == 0
            &&& grown_by_one(pre.notifications@, post.notifications@)
            &&& is_icon_notification(
                post.notifications@.last(),
                "\u{eb56}"@,
                "SignalR Connect failed"@,
                connect_failure_text(failure),
            )
            &&& post == (TemplateApp { notifications: post.notifications, ..pre })
        },
        ResoToUi::SignalRequestFailedResponse(failure) => {
            &&& acts.len() == 0
            &&& grown_by_one(pre.notifications@, post.notifications@)
            &&& is_icon_notification(
                post.notifications@.last(),
                "\u{eb56}"@,
                "SignalR Request failed"@,
                request_failure_text(failure),
            )
            &&& post == (TemplateApp { notifications: post.notifications, ..pre })
        },
        ResoToUi::SignalConnectedResponse => {
            &&& acts.len() == 0
            &&& grown_by_one(pre.notifications@, post.notifications@)
            &&& is_icon_notification(
                post.notifications@.last(),
                "\u{ed4d}"@,
                "SignalR Connected!"@,
                ""@,
            )
            &&& post == (TemplateApp { notifications: post.notifications, ..pre })
        },
        ResoToUi::SignalUninitialized => {
            &&& acts.len() == 0
            &&& grown_by_one(pre.notifications@, post.notifications@)
            &&& is_icon_notification(
                post.notifications@.last(),
                "\u{e81f}"@,
                "SignalR not initialized"@,
                "yet tried to make a call"@,
            )
            &&& post == (TemplateApp { notifications: post.notifications, ..pre })
        },
        ResoToUi::ThreadCrashedResponse(text) => {
            &&& acts.len() == 0
            &&& grown_by_one(pre.notifications@, post.notifications@)
            &&& is_icon_notification(
                post.notifications@.last(),
                "\u{e81f}"@,
                "Backend Crashed"@,
                text@,
            )
            &&& post == (TemplateApp { notifications: post.notifications, ..pre })
        },
        ResoToUi::PreviousTokenInvalidResponse => {
            &&& acts.len() == 0
            &&& post.can_attempt_login
            &&& if pre.shown() is LoadingPage {
                &&& post.page_stack@ == pre.page_stack@.take(pre.current_page + 1).push(
                    FrontendPage::SignInPage,
                )
                &&& post.current_page == pre.current_page + 1
            } else {
                post.page_stack == pre.page_stack && post.current_page == pre.current_page
            }
            &&& post == (TemplateApp {
                can_attempt_login: true,
                page_stack: post.page_stack,
                current_page: post.current_page,
                ..pre
            })
        },
    }
}

/// Takes an event of the backend into the state of the interface.
pub fn process_to_ui(app: &mut TemplateApp, variant: ResoToUi) -> (acts: Vec<BridgeAction>)
    requires
        old(app).wf(),
    ensures
        final(app).wf(),
        bridged(*old(app), variant, *final(app), acts@),
{
    match variant {
        ResoToUi::LoggedInResponse(token, user_id) => {
            return logged_in(app, token, user_id);
        },
        ResoToUi::LoginFailedResponse(reason) => {
            app.notifications.push(icon_notification("\u{eb90}", "Login failed", reason.name()));
            app.can_attempt_login = true;
        },
        ResoToUi::UserInfoResponse(id, user) => {
            if app.is_you(&id) {
                app.you = Some(user.clone());
                let mut greeting = join("Hi ", user.username.as_str());
                greeting.append("!");
                let icon = match &user.profile {
                    Some(profile) => FrontendNotificationIcon::LoadableImage(
                        profile.icon_url.clone(),
                    ),
                    None => FrontendNotificationIcon::SegoeIcon("\u{e13d}".to_owned()),
                };
                app.notifications.push(
                    FrontendNotification {
                        icon,
                        text: greeting,
                        sub: "You're signed in".to_owned(),
                    },
                );
            }
            let searching = match app.current_page() {
                FrontendPage::UserSearchPage => true,
                _ => false,
            };
            app.cached_user_infos.insert(id.clone(), user);
            if searching {
                app.entry_fields.user_info_query_results.push(id);
            }
        },
        ResoToUi::SignalConnectFailedResponse(failure) => {
            let sub = describe_connect_failure(&failure);
            app.notifications.push(
                icon_notification("\u{eb56}", "SignalR Connect failed", sub.as_str()),
            );
        },
        ResoToUi::SignalRequestFailedResponse(failure) => {
            app.notifications.push(
                icon_notification(
                    "\u{eb56}",
                    "SignalR Request failed",
                    describe_request_failure(&failure),
                ),
            );
        },
        ResoToUi::SignalConnectedResponse => {
            app.notifications.push(icon_notification("\u{ed4d}", "SignalR Connected!", ""));
        },
        ResoToUi::SignalUninitialized => {
            app.notifications.push(
                icon_notification("\u{e81f}", "SignalR not initialized", "yet tried to make a call"),
            );
        },
        ResoToUi::ThreadCrashedResponse(text) => {
            app.notifications.push(icon_notification("\u{e81f}", "Backend Crashed", text.as_str()));
        },
        ResoToUi::PreviousTokenInvalidResponse => {
            let loading = match app.current_page() {
                FrontendPage::LoadingPage => true,
                _ => false,
            };
            if loading {
                app.set_page(FrontendPage::SignInPage);
            }
            app.can_attempt_login = true;
        },
    }
    Vec::new()
}

/// The credential store could not delete the token. That there was no
/// token to delete is no failure; anything else is shown, in the words
/// `said` of the store.
pub fn keyring_delete_failed(app: &mut TemplateApp, failure: &KeyringFailure, said: &str)
    ensures
        if *failure is NoEntry {
            *final(app) == *old(app)
        } else {
            &&& grown_by_one(old(app).notifications@, final(app).notifications@)
            &&& is_icon_notification(
                final(app).notifications@.last(),
                "\u{e192}"@,
                "Keyring deletion failed"@,
                said@,
            )
            &&& *final(app) == (TemplateApp {
                notifications: final(app).notifications,
                ..*old(app)
            })
        },
{
    match failure {
        KeyringFailure::NoEntry => {},
        _ => {
            app.notifications.push(icon_notification("\u{e192}", "Keyring deletion failed", said));
        },
    }
}

/// The credential store could not store the token: the failure is shown.
pub fn keyring_store_failed(app: &mut TemplateApp, failure: &KeyringFailure)
    ensures
        grown_by_one(old(app).notifications@, final(app).notifications@),
        is_icon_notification(
            final(app).notifications@.last(),
            "\u{eb90}"@,
            "Keyring Failed"@,
            keyring_failure_text(*failure),
        ),
        *final(app) == (TemplateApp { notifications: final(app).notifications, ..*old(app) }),
{
    let text = describe_keyring_failure(failure);
    app.notifications.push(icon_notification("\u{eb90}", "Keyring Failed", text.as_str()));
}

} // verus!
