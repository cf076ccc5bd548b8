use resbox::api::{Contact, LoginError, Message, MessageType, SessionGrant, UserInfo, UserSessionsAuthReq};
use resbox::backend::{
    Action, BackendThread, Event, FetchKind, HubCall, HubReply, InitialLoginType, ResoToUi,
    UiToReso,
};
use resbox::client::{Client, HttpReply};
use resbox::hub::{
    BroadcastTarget, ConnectFailure, RSAParametersData, RequestFailure, UserStatus,
};
use resbox::store::SharedCaches;
use resbox::time::ResDateTime;

const HARDWARE: &str = "0123456789abcdef0123456789abcdef";

fn at(secs: i64) -> ResDateTime {
    ResDateTime::new(secs, 0)
}

fn fresh() -> (BackendThread, SharedCaches) {
    let client = Client::new(HARDWARE, true).unwrap();
    let (backend, actions) = BackendThread::new(client, InitialLoginType::Fresh);
    assert_eq!(
        actions,
        vec![Action::Emit(ResoToUi::PreviousTokenInvalidResponse), Action::Repaint]
    );
    (backend, SharedCaches::new())
}

fn ok<T>(decoded: T) -> HttpReply<T> {
    HttpReply::Response { status: 200, body: Some(b"{}".to_vec()), decoded: Some(decoded) }
}

fn grant() -> SessionGrant {
    SessionGrant { user_id: "U-me".to_string(), token: "tok".to_string() }
}

fn user(id: &str, name: &str) -> UserInfo {
    UserInfo {
        id: id.to_string(),
        username: name.to_string(),
        normalized_username: name.to_lowercase(),
        registration_date: "2024-01-01T00:00:00Z".to_string(),
        is_verified: true,
        is_locked: false,
        supress_ban_evasion: false,
        twofactor_login: false,
        profile: None,
    }
}

fn contact(id: &str, owner: &str) -> Contact {
    Contact {
        id: id.to_string(),
        contact_username: id.to_string(),
        contact_status: "Accepted".to_string(),
        is_accepted: true,
        profile: None,
        latest_message_time: at(0),
        is_migrated: false,
        is_counterpart_migrated: false,
        owner_id: owner.to_string(),
    }
}

fn message(id: &str, peer: &str, updated: i64) -> Message {
    Message {
        id: id.to_string(),
        sender_id: peer.to_string(),
        recipient_id: "U-me".to_string(),
        other_id: peer.to_string(),
        message_type: MessageType::Text,
        content: "hi".to_string(),
        send_time: at(updated),
        last_update_time: at(updated),
        read_time: None,
        is_migrated: false,
        owner_id: "U-me".to_string(),
    }
}

fn status(user: &str) -> UserStatus {
    UserStatus::with("sid".to_string(), at(5)).id(user.to_string())
}

fn connect(backend: &mut BackendThread, caches: &mut SharedCaches) {
    let cmd = UiToReso::SignalConnectRequest("U-me".to_string(), "tok".to_string());
    let actions = backend.handle(caches, Event::Command(cmd), at(0));
    assert_eq!(
        actions,
        vec![Action::Connect {
            uid: "3eb1bd439947eb762998e566ccc2e099c791118b2f40579cc4f7da2b5061b7f9".to_string(),
            id: "U-me".to_string(),
            token: "tok".to_string(),
        }]
    );
    assert!(!backend.is_idle());
    let actions = backend.handle(caches, Event::Connected(None), at(0));
    assert_eq!(actions, vec![Action::Emit(ResoToUi::SignalConnectedResponse), Action::Repaint]);
    assert!(backend.is_idle());
    assert!(backend.is_hub_connected());
}

fn log_in(backend: &mut BackendThread, caches: &mut SharedCaches) {
    let cmd = UiToReso::TokenRequestCredentials("name".to_string(), "pw".to_string(), false);
    let actions = backend.handle(caches, Event::Command(cmd), at(0));
    assert_eq!(actions.len(), 1);
    backend.handle(caches, Event::LoginReply(ok(grant())), at(0));
    backend.handle(caches, Event::UserReply(ok(user("U-me", "me"))), at(0));
    backend.handle(caches, Event::ContactsReply(ok(Vec::new())), at(0));
    backend.handle(caches, Event::MessagesReply(ok(Vec::new())), at(0));
    assert!(backend.is_idle());
    assert!(backend.session().logged_in());
}

#[test]
fn fresh_start_reports_that_there_is_no_earlier_token() {
    let (backend, _caches) = fresh();
    assert!(backend.is_idle());
    assert!(!backend.is_hub_connected());
    assert!(!backend.session().logged_in());
}

#[test]
fn start_with_an_earlier_token_sends_a_token_login() {
    let client = Client::new(HARDWARE, true).unwrap();
    let creds = InitialLoginType::PreviousToken {
        username: "name".to_string(),
        session_token: "old".to_string(),
    };
    let (backend, actions) = BackendThread::new(client, creds);
    assert!(!backend.is_idle());
    assert_eq!(actions.len(), 1);
    match &actions[0] {
        Action::Login(req) => {
            assert_eq!(req.url, "https://api.resonite.com/userSessions");
            assert_eq!(req.body.username, "name");
            assert_eq!(
                req.body.authentication,
                UserSessionsAuthReq::Token {
                    _type: "sessionToken".to_string(),
                    session_token: "old".to_string()
                }
            );
            assert!(req.body.remember_me);
        }
        other => panic!("unexpected action {:?}", other),
    }
}

#[test]
fn start_with_an_earlier_token_and_no_transport_reports_an_invalid_token() {
    let client = Client::new(HARDWARE, false).unwrap();
    let creds = InitialLoginType::PreviousToken {
        username: "name".to_string(),
        session_token: "old".to_string(),
    };
    let (backend, actions) = BackendThread::new(client, creds);
    assert!(backend.is_idle());
    assert_eq!(
        actions,
        vec![Action::Emit(ResoToUi::PreviousTokenInvalidResponse), Action::Repaint]
    );
}

#[test]
fn resumed_session_fetches_user_contacts_and_messages() {
    let client = Client::new(HARDWARE, true).unwrap();
    let creds = InitialLoginType::PreviousToken {
        username: "name".to_string(),
        session_token: "old".to_string(),
    };
    let (mut backend, _) = BackendThread::new(client, creds);
    let mut caches = SharedCaches::new();

    let actions = backend.handle(&mut caches, Event::LoginReply(ok(grant())), at(0));
    assert_eq!(actions.len(), 2);
    assert_eq!(
        actions[0],
        Action::Emit(ResoToUi::LoggedInResponse("tok".to_string(), "U-me".to_string()))
    );
    match &actions[1] {
        Action::Fetch(FetchKind::User, req) => {
            assert_eq!(req.url, "https://api.resonite.com/users/U-me");
            assert_eq!(req.headers[2].value, "res U-me:tok");
        }
        other => panic!("unexpected action {:?}", other),
    }

    let actions = backend.handle(&mut caches, Event::UserReply(ok(user("U-me", "me"))), at(0));
    assert_eq!(actions.len(), 2);
    assert_eq!(
        actions[0],
        Action::Emit(ResoToUi::UserInfoResponse("U-me".to_string(), user("U-me", "me")))
    );
    match &actions[1] {
        Action::Fetch(FetchKind::Contacts, req) => {
            assert_eq!(req.url, "https://api.resonite.com/users/U-me/contacts")
        }
        other => panic!("unexpected action {:?}", other),
    }

    let reply = ok(vec![contact("U-a", "U-me")]);
    let actions = backend.handle(&mut caches, Event::ContactsReply(reply), at(0));
    assert_eq!(actions.len(), 1);
    match &actions[0] {
        Action::Fetch(FetchKind::Messages, req) => {
            assert_eq!(req.url, "https://api.resonite.com/users/U-me/messages")
        }
        other => panic!("unexpected action {:?}", other),
    }
    assert!(caches.contact("U-a").is_some());

    let reply = ok(vec![message("2", "U-a", 20), message("1", "U-a", 10)]);
    let actions = backend.handle(&mut caches, Event::MessagesReply(reply), at(0));
    assert_eq!(actions, vec![Action::Repaint]);
    let cached = caches.messages_with("U-a").unwrap();
    assert_eq!(cached[0].id, "1");
    assert_eq!(cached[1].id, "2");
    assert!(backend.is_idle());
}

#[test]
fn failed_resume_reports_an_invalid_token() {
    let client = Client::new(HARDWARE, true).unwrap();
    let creds = InitialLoginType::PreviousToken {
        username: "name".to_string(),
        session_token: "old".to_string(),
    };
    let (mut backend, _) = BackendThread::new(client, creds);
    let mut caches = SharedCaches::new();
    let reply: HttpReply<SessionGrant> = HttpReply::Response {
        status: 200,
        body: Some(b"Login.InvalidCredentials".to_vec()),
        decoded: None,
    };
    let actions = backend.handle(&mut caches, Event::LoginReply(reply), at(0));
    assert_eq!(
        actions,
        vec![Action::Emit(ResoToUi::PreviousTokenInvalidResponse), Action::Repaint]
    );
    assert!(backend.is_idle());
    assert!(!backend.session().logged_in());
}

#[test]
fn password_login_sends_the_credentials() {
    let (mut backend, mut caches) = fresh();
    let cmd = UiToReso::TokenRequestCredentials("name".to_string(), "pw".to_string(), true);
    let actions = backend.handle(&mut caches, Event::Command(cmd), at(0));
    assert_eq!(actions.len(), 1);
    match &actions[0] {
        Action::Login(req) => {
            assert_eq!(req.body.username, "name");
            assert_eq!(
                req.body.authentication,
                UserSessionsAuthReq::Credentials {
                    _type: "password".to_string(),
                    password: "pw".to_string()
                }
            );
            assert!(req.body.remember_me);
            assert_eq!(
                req.body.secret_machine_id,
                "3eb1bd439947eb762998e566ccc2e099c791118b2f40579cc4f7da2b5061b7f9"
            );
        }
        other => panic!("unexpected action {:?}", other),
    }
    assert!(!backend.is_idle());
}

#[test]
fn failed_password_login_reports_the_error() {
    let (mut backend, mut caches) = fresh();
    let cmd = UiToReso::TokenRequestCredentials("name".to_string(), "pw".to_string(), true);
    backend.handle(&mut caches, Event::Command(cmd), at(0));
    let reply: HttpReply<SessionGrant> = HttpReply::Response {
        status: 200,
        body: Some(b"Login.InvalidCredentials".to_vec()),
        decoded: None,
    };
    let actions = backend.handle(&mut caches, Event::LoginReply(reply), at(0));
    assert_eq!(
        actions,
        vec![
            Action::Emit(ResoToUi::LoginFailedResponse(LoginError::InvalidCredentials)),
            Action::Repaint
        ]
    );
    assert!(backend.is_idle());

    let cmd = UiToReso::TokenRequestCredentials("name".to_string(), "pw".to_string(), true);
    backend.handle(&mut caches, Event::Command(cmd), at(0));
    let actions = backend.handle(&mut caches, Event::LoginReply(HttpReply::SendFailed), at(0));
    assert_eq!(
        actions,
        vec![
            Action::Emit(ResoToUi::LoginFailedResponse(LoginError::RequestFailed)),
            Action::Repaint
        ]
    );
}

#[test]
fn password_login_without_transport_fails_at_once() {
    let client = Client::new(HARDWARE, false).unwrap();
    let (mut backend, _) = BackendThread::new(client, InitialLoginType::Fresh);
    let mut caches = SharedCaches::new();
    let cmd = UiToReso::TokenRequestCredentials("name".to_string(), "pw".to_string(), true);
    let actions = backend.handle(&mut caches, Event::Command(cmd), at(0));
    assert_eq!(
        actions,
        vec![
            Action::Emit(ResoToUi::LoginFailedResponse(LoginError::ReachedTheEnd)),
            Action::Repaint
        ]
    );
    assert!(backend.is_idle());
}

#[test]
fn login_without_a_user_record_gives_the_fetches_up() {
    let (mut backend, mut caches) = fresh();
    let cmd = UiToReso::TokenRequestCredentials("name".to_string(), "pw".to_string(), true);
    backend.handle(&mut caches, Event::Command(cmd), at(0));
    backend.handle(&mut caches, Event::LoginReply(ok(grant())), at(0));
    let reply: HttpReply<UserInfo> = HttpReply::Response {
        status: 200,
        body: Some(b"Invalid User ID".to_vec()),
        decoded: None,
    };
    let actions = backend.handle(&mut caches, Event::UserReply(reply), at(0));
    assert_eq!(actions, vec![Action::Repaint]);
    assert!(backend.is_idle());
    assert!(backend.session().logged_in());
}

#[test]
fn hub_commands_without_hub_give_one_uninitialized_event() {
    let commands = vec![
        UiToReso::SignalInitializeStatus,
        UiToReso::SignalListenOnKey("key".to_string()),
        UiToReso::SignalRequestStatus(None, false),
        UiToReso::SignalRequestStatus(Some("U-a".to_string()), true),
        UiToReso::SignalBroadcastStatus(status("U-me"), BroadcastTarget::new()),
        UiToReso::SignalSendMessage("U-a".to_string(), "hello".to_string()),
    ];
    for cmd in commands {
        let (mut backend, mut caches) = fresh();
        let actions = backend.handle(&mut caches, Event::Command(cmd), at(0));
        assert_eq!(actions, vec![Action::Emit(ResoToUi::SignalUninitialized)]);
        assert!(backend.is_idle());
        assert!(!backend.is_hub_connected());
    }
}

#[test]
fn broadcast_is_cached_also_without_hub() {
    let (mut backend, mut caches) = fresh();
    let mine = status("U-me");
    let cmd = UiToReso::SignalBroadcastStatus(mine, BroadcastTarget::new());
    let actions = backend.handle(&mut caches, Event::Command(cmd), at(0));
    assert_eq!(actions, vec![Action::Emit(ResoToUi::SignalUninitialized)]);
    assert_eq!(caches.status_of("U-me"), Some(&status("U-me")));
    assert!(!caches.take_refresh());
}

#[test]
fn broadcast_with_hub_is_cached_and_sent() {
    let (mut backend, mut caches) = fresh();
    connect(&mut backend, &mut caches);
    let mut target = BroadcastTarget::new();
    target.target_ids.push("U-a".to_string());
    let cmd = UiToReso::SignalBroadcastStatus(status("U-me"), target.clone());
    let actions = backend.handle(&mut caches, Event::Command(cmd), at(0));
    assert_eq!(actions, vec![Action::Invoke(HubCall::BroadcastStatus(status("U-me"), target))]);
    assert_eq!(caches.status_of("U-me"), Some(&status("U-me")));
    assert!(!backend.is_idle());
    let actions = backend.handle(&mut caches, Event::Invoked(HubReply::Done), at(0));
    assert_eq!(actions, Vec::new());
    assert!(backend.is_idle());
}

#[test]
fn two_status_requests_give_two_calls() {
    let (mut backend, mut caches) = fresh();
    connect(&mut backend, &mut caches);
    for _ in 0..2 {
        let cmd = UiToReso::SignalRequestStatus(None, false);
        let actions = backend.handle(&mut caches, Event::Command(cmd), at(1));
        assert_eq!(actions, vec![Action::Invoke(HubCall::RequestStatus(None, false))]);
        let actions = backend.handle(&mut caches, Event::Invoked(HubReply::Done), at(1));
        assert_eq!(actions, Vec::new());
        assert!(backend.is_idle());
    }
}

#[test]
fn status_request_names_its_user() {
    let (mut backend, mut caches) = fresh();
    connect(&mut backend, &mut caches);
    let cmd = UiToReso::SignalRequestStatus(Some("U-a".to_string()), true);
    let actions = backend.handle(&mut caches, Event::Command(cmd), at(1));
    assert_eq!(
        actions,
        vec![Action::Invoke(HubCall::RequestStatus(Some("U-a".to_string()), true))]
    );
}

#[test]
fn failed_hub_call_is_reported() {
    let (mut backend, mut caches) = fresh();
    connect(&mut backend, &mut caches);
    backend.handle(&mut caches, Event::Command(UiToReso::SignalInitializeStatus), at(0));
    let reply = HubReply::Failed(RequestFailure::NoResponse);
    let actions = backend.handle(&mut caches, Event::Invoked(reply), at(0));
    assert_eq!(
        actions,
        vec![Action::Emit(ResoToUi::SignalRequestFailedResponse(RequestFailure::NoResponse))]
    );
    assert!(backend.is_idle());
    assert!(backend.is_hub_connected());
}

#[test]
fn refused_argument_is_reported_but_for_a_status_request() {
    let (mut backend, mut caches) = fresh();
    connect(&mut backend, &mut caches);
    backend.handle(&mut caches, Event::Command(UiToReso::SignalListenOnKey("k".to_string())), at(0));
    let reply = HubReply::ArgumentRefused(RequestFailure::Malformed);
    let actions = backend.handle(&mut caches, Event::Invoked(reply), at(0));
    assert_eq!(
        actions,
        vec![Action::Emit(ResoToUi::SignalRequestFailedResponse(RequestFailure::Malformed))]
    );

    backend.handle(&mut caches, Event::Command(UiToReso::SignalRequestStatus(None, false)), at(0));
    let reply = HubReply::ArgumentRefused(RequestFailure::Malformed);
    let actions = backend.handle(&mut caches, Event::Invoked(reply), at(0));
    assert_eq!(actions, Vec::new());

    backend.handle(&mut caches, Event::Command(UiToReso::SignalRequestStatus(None, false)), at(0));
    let reply = HubReply::Failed(RequestFailure::Result("no".to_string()));
    let actions = backend.handle(&mut caches, Event::Invoked(reply), at(0));
    assert_eq!(
        actions,
        vec![Action::Emit(ResoToUi::SignalRequestFailedResponse(RequestFailure::Result(
            "no".to_string()
        )))]
    );
}

#[test]
fn failed_connect_is_reported_and_leaves_the_hub_unconnected() {
    let (mut backend, mut caches) = fresh();
    let cmd = UiToReso::SignalConnectRequest("U-me".to_string(), "tok".to_string());
    backend.handle(&mut caches, Event::Command(cmd), at(0));
    let failure = ConnectFailure::Transport("refused".to_string());
    let actions = backend.handle(&mut caches, Event::Connected(Some(failure.clone())), at(0));
    assert_eq!(
        actions,
        vec![Action::Emit(ResoToUi::SignalConnectFailedResponse(failure)), Action::Repaint]
    );
    assert!(!backend.is_hub_connected());
    assert!(backend.is_idle());
}

#[test]
fn message_is_sent_from_the_user_who_is_logged_in() {
    let (mut backend, mut caches) = fresh();
    log_in(&mut backend, &mut caches);
    connect(&mut backend, &mut caches);
    let cmd = UiToReso::SignalSendMessage("U-a".to_string(), "hello".to_string());
    let actions = backend.handle(&mut caches, Event::Command(cmd), ResDateTime::new(77, 9));
    let expected = Message {
        id: String::new(),
        sender_id: "U-me".to_string(),
        recipient_id: "U-a".to_string(),
        other_id: "U-a".to_string(),
        message_type: MessageType::Text,
        content: "hello".to_string(),
        send_time: ResDateTime::new(77, 9),
        last_update_time: ResDateTime::new(77, 9),
        read_time: None,
        is_migrated: true,
        owner_id: "U-me".to_string(),
    };
    assert_eq!(actions, vec![Action::Invoke(HubCall::SendMessage(expected))]);
}

#[test]
fn message_with_hub_but_without_login_ends_the_loop() {
    let (mut backend, mut caches) = fresh();
    connect(&mut backend, &mut caches);
    let cmd = UiToReso::SignalSendMessage("U-a".to_string(), "hello".to_string());
    let actions = backend.handle(&mut caches, Event::Command(cmd), at(0));
    assert_eq!(actions.len(), 2);
    assert!(matches!(actions[0], Action::Emit(ResoToUi::ThreadCrashedResponse(_))));
    assert_eq!(actions[1], Action::Stop);
    assert!(backend.is_stopped());
}

#[test]
fn user_search_gives_one_event_for_each_user() {
    let (mut backend, mut caches) = fresh();
    log_in(&mut backend, &mut caches);
    let cmd = UiToReso::UserInfoRequest("someone".to_string());
    let actions = backend.handle(&mut caches, Event::Command(cmd), at(0));
    assert_eq!(actions.len(), 1);
    match &actions[0] {
        Action::Fetch(FetchKind::Users, req) => {
            assert_eq!(req.url, "https://api.resonite.com/users?name=someone")
        }
        other => panic!("unexpected action {:?}", other),
    }
    let found = vec![user("U-a", "someone"), user("U-b", "someone else")];
    let actions = backend.handle(&mut caches, Event::UsersReply(ok(found)), at(0));
    assert_eq!(
        actions,
        vec![
            Action::Emit(ResoToUi::UserInfoResponse("U-a".to_string(), user("U-a", "someone"))),
            Action::Emit(ResoToUi::UserInfoResponse(
                "U-b".to_string(),
                user("U-b", "someone else")
            )),
            Action::Repaint,
        ]
    );
    assert!(backend.is_idle());
}

#[test]
fn user_search_without_results_gives_nothing() {
    let (mut backend, mut caches) = fresh();
    log_in(&mut backend, &mut caches);
    let cmd = UiToReso::UserInfoRequest("U-nobody".to_string());
    backend.handle(&mut caches, Event::Command(cmd), at(0));
    let reply: HttpReply<Vec<UserInfo>> = HttpReply::Response {
        status: 404,
        body: Some(b"Invalid User ID".to_vec()),
        decoded: None,
    };
    let actions = backend.handle(&mut caches, Event::UsersReply(reply), at(0));
    assert_eq!(actions, Vec::new());
    assert!(backend.is_idle());
}

#[test]
fn user_search_without_login_sends_nothing() {
    let (mut backend, mut caches) = fresh();
    let cmd = UiToReso::UserInfoRequest("someone".to_string());
    let actions = backend.handle(&mut caches, Event::Command(cmd), at(0));
    assert_eq!(actions, Vec::new());
    assert!(backend.is_idle());
    let cmd = UiToReso::UserStatusRequest("U-a".to_string());
    let actions = backend.handle(&mut caches, Event::Command(cmd), at(0));
    assert_eq!(actions, Vec::new());
    assert!(backend.is_idle());
}

#[test]
fn status_fetch_logs_the_answer() {
    let (mut backend, mut caches) = fresh();
    log_in(&mut backend, &mut caches);
    let cmd = UiToReso::UserStatusRequest("U-a".to_string());
    let actions = backend.handle(&mut caches, Event::Command(cmd), at(0));
    match &actions[0] {
        Action::Fetch(FetchKind::Status, req) => {
            assert_eq!(req.url, "https://api.resonite.com/users/U-a/status")
        }
        other => panic!("unexpected action {:?}", other),
    }
    let reply: HttpReply<String> =
        HttpReply::Response { status: 200, body: Some(b"{\"a\":1}".to_vec()), decoded: None };
    let actions = backend.handle(&mut caches, Event::StatusReply(reply), at(0));
    assert_eq!(actions, vec![Action::Log("user: {\"a\":1}".to_string())]);
    assert!(backend.is_idle());
}

#[test]
fn timer_asks_for_the_statuses_every_ten_seconds_while_connected() {
    let (mut backend, mut caches) = fresh();
    connect(&mut backend, &mut caches);
    assert_eq!(backend.handle(&mut caches, Event::Tick, at(100)), Vec::new());
    assert_eq!(backend.handle(&mut caches, Event::Tick, at(109)), Vec::new());
    let actions = backend.handle(&mut caches, Event::Tick, at(110));
    assert_eq!(actions, vec![Action::Invoke(HubCall::RequestStatus(None, false))]);
    assert!(!backend.is_idle());
    backend.handle(&mut caches, Event::Invoked(HubReply::Done), at(110));
    assert_eq!(backend.handle(&mut caches, Event::Tick, at(119)), Vec::new());
    let actions = backend.handle(&mut caches, Event::Tick, at(125));
    assert_eq!(actions, vec![Action::Invoke(HubCall::RequestStatus(None, false))]);
    backend.handle(&mut caches, Event::Invoked(HubReply::Done), at(125));
    assert_eq!(backend.handle(&mut caches, Event::Tick, at(134)), Vec::new());
    let actions = backend.handle(&mut caches, Event::Tick, at(135));
    assert_eq!(actions, vec![Action::Invoke(HubCall::RequestStatus(None, false))]);
}

#[test]
fn explicit_status_request_and_timer_are_not_merged() {
    let (mut backend, mut caches) = fresh();
    connect(&mut backend, &mut caches);
    backend.handle(&mut caches, Event::Tick, at(100));
    let cmd = UiToReso::SignalRequestStatus(None, false);
    let actions = backend.handle(&mut caches, Event::Command(cmd), at(110));
    assert_eq!(actions, vec![Action::Invoke(HubCall::RequestStatus(None, false))]);
    backend.handle(&mut caches, Event::Invoked(HubReply::Done), at(110));
    let actions = backend.handle(&mut caches, Event::Tick, at(110));
    assert_eq!(actions, vec![Action::Invoke(HubCall::RequestStatus(None, false))]);
}

#[test]
fn timer_without_hub_asks_for_nothing() {
    let (mut backend, mut caches) = fresh();
    assert_eq!(backend.handle(&mut caches, Event::Tick, at(100)), Vec::new());
    assert_eq!(backend.handle(&mut caches, Event::Tick, at(200)), Vec::new());
    assert!(backend.is_idle());
}

#[test]
fn timer_at_the_end_of_time_does_not_overflow() {
    let (mut backend, mut caches) = fresh();
    connect(&mut backend, &mut caches);
    assert_eq!(backend.handle(&mut caches, Event::Tick, at(i64::MAX - 3)), Vec::new());
    assert_eq!(backend.handle(&mut caches, Event::Tick, at(i64::MAX - 1)), Vec::new());
    let actions = backend.handle(&mut caches, Event::Tick, at(i64::MAX));
    assert_eq!(actions, vec![Action::Invoke(HubCall::RequestStatus(None, false))]);
}

#[test]
fn tick_passes_a_wanted_redraw_on() {
    let (mut backend, mut caches) = fresh();
    caches.message_receive("x");
    assert_eq!(backend.handle(&mut caches, Event::Tick, at(1)), vec![Action::Repaint]);
    assert_eq!(backend.handle(&mut caches, Event::Tick, at(2)), Vec::new());
}

#[test]
fn shutdown_ends_the_loop() {
    let (mut backend, mut caches) = fresh();
    let actions = backend.handle(&mut caches, Event::Command(UiToReso::ShutdownRequest), at(0));
    assert_eq!(actions, vec![Action::Stop]);
    assert!(backend.is_stopped());
    let actions =
        backend.handle(&mut caches, Event::Command(UiToReso::SignalInitializeStatus), at(0));
    assert_eq!(actions, Vec::new());
    assert_eq!(backend.handle(&mut caches, Event::Tick, at(100)), Vec::new());
    assert_eq!(
        backend.handle(&mut caches, Event::Failure("late".to_string()), at(100)),
        Vec::new()
    );
    assert!(backend.is_stopped());
}

#[test]
fn failure_gives_one_crash_event_and_ends_the_loop() {
    let (mut backend, mut caches) = fresh();
    let actions =
        backend.handle(&mut caches, Event::Failure("channel closed".to_string()), at(0));
    assert_eq!(
        actions,
        vec![
            Action::Emit(ResoToUi::ThreadCrashedResponse("channel closed".to_string())),
            Action::Stop
        ]
    );
    assert!(backend.is_stopped());
}

#[test]
fn events_that_are_not_awaited_change_nothing() {
    let (mut backend, mut caches) = fresh();
    assert_eq!(backend.handle(&mut caches, Event::LoginReply(ok(grant())), at(0)), Vec::new());
    assert!(!backend.session().logged_in());
    assert_eq!(backend.handle(&mut caches, Event::Connected(None), at(0)), Vec::new());
    assert!(!backend.is_hub_connected());
    assert_eq!(backend.handle(&mut caches, Event::Invoked(HubReply::Done), at(0)), Vec::new());
    let reply = ok(vec![message("1", "U-a", 1)]);
    assert_eq!(backend.handle(&mut caches, Event::MessagesReply(reply), at(0)), Vec::new());
    assert_eq!(caches.messages_with("U-a"), None);
    let reply = ok(vec![contact("U-a", "U-me")]);
    assert_eq!(backend.handle(&mut caches, Event::ContactsReply(reply), at(0)), Vec::new());
    assert_eq!(caches.contact("U-a"), None);
    assert!(backend.is_idle());
}

#[test]
fn step_reads_the_clock() {
    let (mut backend, mut caches) = fresh();
    log_in(&mut backend, &mut caches);
    connect(&mut backend, &mut caches);
    let cmd = UiToReso::SignalSendMessage("U-a".to_string(), "hello".to_string());
    let actions = backend.step(&mut caches, Event::Command(cmd));
    match &actions[0] {
        Action::Invoke(HubCall::SendMessage(m)) => {
            assert!(m.send_time.secs > 1_600_000_000);
            assert_eq!(m.send_time, m.last_update_time);
            assert_eq!(m.content, "hello");
        }
        other => panic!("unexpected action {:?}", other),
    }
}

#[test]
fn broadcast_sends_the_key_material_that_it_caches() {
    let (mut backend, mut caches) = fresh();
    connect(&mut backend, &mut caches);
    let mut mine = status("U-me");
    mine.public_r_s_a_key = Some(RSAParametersData {
        exponent: "AQAB".to_string(),
        modulus: "abc".to_string(),
        p: None,
        q: None,
        dp: None,
        dq: None,
        inverse_q: None,
        d: None,
    });
    let cmd = UiToReso::SignalBroadcastStatus(mine.clone(), BroadcastTarget::new());
    let actions = backend.handle(&mut caches, Event::Command(cmd), at(0));
    assert_eq!(
        actions,
        vec![Action::Invoke(HubCall::BroadcastStatus(mine.clone(), BroadcastTarget::new()))]
    );
    assert_eq!(caches.status_of("U-me"), Some(&mine));
}
