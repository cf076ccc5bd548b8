use resbox::api::{LoginError, UserInfo, UserProfile};
use resbox::backend::{InitialLoginType, ResoToUi, UiToReso};
use resbox::bridge::{
    describe_connect_failure, describe_keyring_failure, describe_request_failure,
    icon_notification, initial_login, keyring_delete_failed, keyring_store_failed, logged_in,
    process_to_ui, BridgeAction, FrontendNotification, FrontendNotificationIcon, FrontendPage,
    KeyringFailure, StoredToken, TemplateApp,
};
use resbox::hub::{
    BroadcastTarget, ConnectFailure, OnlineStatus, RequestFailure, UserSessionType,
};

fn user(id: &str, name: &str, icon: Option<&str>) -> UserInfo {
    UserInfo {
        id: id.to_string(),
        username: name.to_string(),
        normalized_username: name.to_lowercase(),
        registration_date: "2024-01-01T00:00:00Z".to_string(),
        is_verified: true,
        is_locked: false,
        supress_ban_evasion: false,
        twofactor_login: false,
        profile: icon.map(|url| UserProfile {
            icon_url: url.to_string(),
            display_badges: vec![(), ()],
        }),
    }
}

fn notification(icon: &str, text: &str, sub: &str) -> FrontendNotification {
    FrontendNotification {
        icon: FrontendNotificationIcon::SegoeIcon(icon.to_string()),
        text: text.to_string(),
        sub: sub.to_string(),
    }
}

fn app() -> TemplateApp {
    TemplateApp::new(String::new(), Vec::new())
}

#[test]
fn new_app_shows_the_loading_page() {
    let app = TemplateApp::new("name".to_string(), vec![notification("i", "t", "s")]);
    assert!(!app.can_attempt_login);
    assert!(!app.logged_in);
    assert_eq!(app.you, None);
    assert_eq!(app.user_id, None);
    assert_eq!(app.token, "");
    assert_eq!(app.notifications, vec![notification("i", "t", "s")]);
    assert_eq!(app.page_stack, vec![FrontendPage::LoadingPage]);
    assert_eq!(app.current_page, 0);
    assert_eq!(app.current_page(), &FrontendPage::LoadingPage);
    assert_eq!(app.entry_fields.login_details.username, "name");
    assert_eq!(app.entry_fields.login_details.password, "");
    assert!(app.entry_fields.login_details.remember_me);
    assert_eq!(app.cached_user_infos.len(), 0);
    assert!(!TemplateApp::new(String::new(), Vec::new()).entry_fields.login_details.remember_me);
}

#[test]
fn icon_notification_holds_its_three_texts() {
    assert_eq!(icon_notification("\u{e81f}", "Title", "detail"), notification("\u{e81f}", "Title", "detail"));
}

#[test]
fn initial_login_resumes_only_with_name_and_token() {
    assert_eq!(
        initial_login("name", StoredToken::Found("tok".to_string())),
        (
            InitialLoginType::PreviousToken {
                username: "name".to_string(),
                session_token: "tok".to_string()
            },
            None
        )
    );
    assert_eq!(initial_login("name", StoredToken::Missing), (InitialLoginType::Fresh, None));
    assert_eq!(
        initial_login("name", StoredToken::NoStore),
        (
            InitialLoginType::Fresh,
            Some(notification("\u{e25b}", "No Keyring", "Entry retrival failed"))
        )
    );
    assert_eq!(
        initial_login("", StoredToken::Found("tok".to_string())),
        (InitialLoginType::Fresh, None)
    );
    assert_eq!(initial_login("", StoredToken::NoStore), (InitialLoginType::Fresh, None));
}

#[test]
fn pages_go_back_and_forward() {
    let mut app = app();
    app.set_page(FrontendPage::FriendsPage);
    app.set_page(FrontendPage::MessagesPage);
    assert_eq!(app.current_page, 2);
    assert_eq!(app.current_page(), &FrontendPage::MessagesPage);
    app.page_forward();
    assert_eq!(app.current_page, 2);
    app.page_back();
    assert_eq!(app.current_page(), &FrontendPage::FriendsPage);
    app.page_back();
    app.page_back();
    assert_eq!(app.current_page, 0);
    assert_eq!(app.current_page(), &FrontendPage::LoadingPage);
    app.page_forward();
    assert_eq!(app.current_page(), &FrontendPage::FriendsPage);
    // a new page from the middle forgets the pages ahead
    app.set_page(FrontendPage::SettingsPage);
    assert_eq!(
        app.page_stack,
        vec![FrontendPage::LoadingPage, FrontendPage::FriendsPage, FrontendPage::SettingsPage]
    );
    assert_eq!(app.current_page, 2);
}

#[test]
fn username_is_you_until_it_is_known() {
    let mut app = app();
    assert_eq!(app.username(), "you");
    assert!(!app.is_you(&"U-me".to_string()));
    app.user_id = Some("U-me".to_string());
    assert!(app.is_you(&"U-me".to_string()));
    assert!(!app.is_you(&"U-you".to_string()));
    app.you = Some(user("U-me", "Me", None));
    assert_eq!(app.username(), "Me");
}

#[test]
fn login_connects_the_hub_and_announces_the_client() {
    let mut app = TemplateApp::new("name".to_string(), Vec::new());
    let actions = logged_in(&mut app, "tok".to_string(), "U-me".to_string());
    assert_eq!(app.token, "tok");
    assert_eq!(app.user_id, Some("U-me".to_string()));
    assert!(app.logged_in);
    assert_eq!(app.page_stack, vec![FrontendPage::ProfilePage("U-me".to_string())]);
    assert_eq!(app.current_page, 0);
    assert_eq!(app.entry_fields.login_details.username, "name");
    assert_eq!(actions.len(), 5);
    assert_eq!(
        actions[0],
        BridgeAction::Send(UiToReso::SignalConnectRequest("U-me".to_string(), "tok".to_string()))
    );
    assert_eq!(actions[1], BridgeAction::Send(UiToReso::SignalRequestStatus(None, false)));
    assert_eq!(actions[2], BridgeAction::Send(UiToReso::SignalInitializeStatus));
    match &actions[3] {
        BridgeAction::Send(UiToReso::SignalBroadcastStatus(status, target)) => {
            assert_eq!(status.user_id, "U-me");
            assert_eq!(status.session_type, UserSessionType::ChatClient);
            assert_eq!(status.online_status, Some(OnlineStatus::Online));
            assert_eq!(status.current_session_index, -1);
            assert_eq!(target, &BroadcastTarget::new());
        }
        other => panic!("unexpected action {:?}", other),
    }
    assert_eq!(actions[4], BridgeAction::StoreToken("tok".to_string()));
}

#[test]
fn login_without_remember_me_forgets_name_password_and_token() {
    let mut app = app();
    app.entry_fields.login_details.username = "name".to_string();
    app.entry_fields.login_details.password = "pw".to_string();
    app.set_page(FrontendPage::SignInPage);
    let actions = logged_in(&mut app, "tok".to_string(), "U-me".to_string());
    assert_eq!(app.entry_fields.login_details.username, "");
    assert_eq!(app.entry_fields.login_details.password, "");
    assert!(!app.entry_fields.login_details.remember_me);
    // the sign-in page is no loading page: the pages stay
    assert_eq!(app.page_stack, vec![FrontendPage::LoadingPage, FrontendPage::SignInPage]);
    assert_eq!(actions.len(), 6);
    assert_eq!(actions[4], BridgeAction::ForgetToken { report: true });
    assert_eq!(actions[5], BridgeAction::ForgetToken { report: false });
}

#[test]
fn logged_in_event_goes_through_the_bridge() {
    let mut app = TemplateApp::new("name".to_string(), Vec::new());
    let event = ResoToUi::LoggedInResponse("tok".to_string(), "U-me".to_string());
    let actions = process_to_ui(&mut app, event);
    assert_eq!(actions.len(), 5);
    assert!(app.logged_in);
    assert_eq!(app.token, "tok");
}

#[test]
fn failed_login_is_shown_and_allows_another_attempt() {
    let mut app = app();
    let actions =
        process_to_ui(&mut app, ResoToUi::LoginFailedResponse(LoginError::InvalidCredentials));
    assert!(actions.is_empty());
    assert!(app.can_attempt_login);
    assert_eq!(
        app.notifications,
        vec![notification("\u{eb90}", "Login failed", "InvalidCredentials")]
    );
    assert!(!app.logged_in);
}

#[test]
fn invalid_earlier_token_leads_to_the_sign_in_page() {
    let mut app = app();
    let actions = process_to_ui(&mut app, ResoToUi::PreviousTokenInvalidResponse);
    assert!(actions.is_empty());
    assert!(app.can_attempt_login);
    assert_eq!(app.page_stack, vec![FrontendPage::LoadingPage, FrontendPage::SignInPage]);
    assert_eq!(app.current_page, 1);
    assert!(app.notifications.is_empty());

    let mut app = TemplateApp::new(String::new(), Vec::new());
    app.set_page(FrontendPage::FriendsPage);
    process_to_ui(&mut app, ResoToUi::PreviousTokenInvalidResponse);
    assert!(app.can_attempt_login);
    assert_eq!(app.page_stack, vec![FrontendPage::LoadingPage, FrontendPage::FriendsPage]);
}

#[test]
fn own_user_record_greets_the_user() {
    let mut app = app();
    app.user_id = Some("U-me".to_string());
    let event = ResoToUi::UserInfoResponse("U-me".to_string(), user("U-me", "Me", None));
    let actions = process_to_ui(&mut app, event);
    assert!(actions.is_empty());
    assert_eq!(app.you, Some(user("U-me", "Me", None)));
    assert_eq!(app.notifications, vec![notification("\u{e13d}", "Hi Me!", "You're signed in")]);
    assert_eq!(app.cached_user_infos.get("U-me"), Some(&user("U-me", "Me", None)));
    assert!(app.entry_fields.user_info_query_results.is_empty());
}

#[test]
fn own_user_record_with_a_picture_greets_with_the_picture() {
    let mut app = app();
    app.user_id = Some("U-me".to_string());
    let me = user("U-me", "Me", Some("resdb:///abc.webp"));
    process_to_ui(&mut app, ResoToUi::UserInfoResponse("U-me".to_string(), me.clone()));
    assert_eq!(app.you, Some(me));
    assert_eq!(
        app.notifications,
        vec![FrontendNotification {
            icon: FrontendNotificationIcon::LoadableImage("resdb:///abc.webp".to_string()),
            text: "Hi Me!".to_string(),
            sub: "You're signed in".to_string(),
        }]
    );
}

#[test]
fn other_user_record_is_cached_and_listed_on_the_search_page() {
    let mut app = app();
    app.user_id = Some("U-me".to_string());
    let event = ResoToUi::UserInfoResponse("U-a".to_string(), user("U-a", "A", None));
    process_to_ui(&mut app, event);
    assert_eq!(app.you, None);
    assert!(app.notifications.is_empty());
    assert_eq!(app.cached_user_infos.get("U-a"), Some(&user("U-a", "A", None)));
    assert!(app.entry_fields.user_info_query_results.is_empty());

    app.set_page(FrontendPage::UserSearchPage);
    let event = ResoToUi::UserInfoResponse("U-b".to_string(), user("U-b", "B", None));
    process_to_ui(&mut app, event);
    assert_eq!(app.entry_fields.user_info_query_results, vec!["U-b".to_string()]);
    let event = ResoToUi::UserInfoResponse("U-a".to_string(), user("U-a", "A2", None));
    process_to_ui(&mut app, event);
    assert_eq!(
        app.entry_fields.user_info_query_results,
        vec!["U-b".to_string(), "U-a".to_string()]
    );
    assert_eq!(app.cached_user_infos.get("U-a"), Some(&user("U-a", "A2", None)));
    assert_eq!(app.cached_user_infos.len(), 2);
}

#[test]
fn hub_events_are_shown() {
    let mut app = app();
    process_to_ui(&mut app, ResoToUi::SignalConnectedResponse);
    process_to_ui(&mut app, ResoToUi::SignalUninitialized);
    process_to_ui(&mut app, ResoToUi::ThreadCrashedResponse("channel closed".to_string()));
    process_to_ui(
        &mut app,
        ResoToUi::SignalConnectFailedResponse(ConnectFailure::Transport("refused".to_string())),
    );
    process_to_ui(&mut app, ResoToUi::SignalRequestFailedResponse(RequestFailure::NoResponse));
    assert_eq!(
        app.notifications,
        vec![
            notification("\u{ed4d}", "SignalR Connected!", ""),
            notification("\u{e81f}", "SignalR not initialized", "yet tried to make a call"),
            notification("\u{e81f}", "Backend Crashed", "channel closed"),
            notification("\u{eb56}", "SignalR Connect failed", "Transport error: refused"),
            notification("\u{eb56}", "SignalR Request failed", "No response"),
        ]
    );
    assert!(!app.can_attempt_login);
    assert_eq!(app.page_stack, vec![FrontendPage::LoadingPage]);
}

#[test]
fn connect_failures_have_texts() {
    assert_eq!(describe_connect_failure(&ConnectFailure::NegotiateRequest), "Negotiation Request error");
    assert_eq!(
        describe_connect_failure(&ConnectFailure::NegotiateDeserialization),
        "Negotiation Deserialization error"
    );
    assert_eq!(describe_connect_failure(&ConnectFailure::NegotiateUnsupported), "Negotiation Unsupported");
    assert_eq!(describe_connect_failure(&ConnectFailure::Url), "Url");
    assert_eq!(
        describe_connect_failure(&ConnectFailure::Transport("x".to_string())),
        "Transport error: x"
    );
}

#[test]
fn request_failures_have_texts() {
    assert_eq!(describe_request_failure(&RequestFailure::Malformed), "Malformed request");
    assert_eq!(describe_request_failure(&RequestFailure::HubGeneric), "Generic hub error");
    assert_eq!(describe_request_failure(&RequestFailure::HubExtraction), "Message extraction failed");
    assert_eq!(describe_request_failure(&RequestFailure::HubUnsupported), "Hub feature unsupported");
    assert_eq!(
        describe_request_failure(&RequestFailure::HubUnprocessable),
        "Message could not be processed"
    );
    assert_eq!(
        describe_request_failure(&RequestFailure::HubIncomprehensible),
        "Message could not be understood"
    );
    assert_eq!(describe_request_failure(&RequestFailure::ProtocolError), "Protocol violated");
    assert_eq!(describe_request_failure(&RequestFailure::NoResponse), "No response");
    assert_eq!(describe_request_failure(&RequestFailure::Result("x".to_string())), "Server error");
    assert_eq!(
        describe_request_failure(&RequestFailure::TransportInavailable),
        "Cannot reach transport"
    );
    assert_eq!(describe_request_failure(&RequestFailure::Handshake("x".to_string())), "Handshake");
}

#[test]
fn keyring_failures_have_texts() {
    assert_eq!(describe_keyring_failure(&KeyringFailure::PlatformFailure), "Platform failure");
    assert_eq!(describe_keyring_failure(&KeyringFailure::NoStorageAccess), "No storage access");
    assert_eq!(describe_keyring_failure(&KeyringFailure::BadEncoding), "Bad encoding");
    assert_eq!(
        describe_keyring_failure(&KeyringFailure::TooLong("user".to_string(), 255)),
        "attribute \"user\" too long (max 255)"
    );
    assert_eq!(
        describe_keyring_failure(&KeyringFailure::Invalid("user".to_string(), "empty".to_string())),
        "attribute \"user\": empty"
    );
    assert_eq!(describe_keyring_failure(&KeyringFailure::Ambiguous), "Ambiguous");
    assert_eq!(describe_keyring_failure(&KeyringFailure::Other), "Unknown Error");
}

#[test]
fn failed_deletion_is_shown_unless_there_was_nothing_to_delete() {
    let mut app = app();
    keyring_delete_failed(&mut app, &KeyringFailure::NoEntry, "no entry");
    assert!(app.notifications.is_empty());
    keyring_delete_failed(&mut app, &KeyringFailure::NoStorageAccess, "locked");
    assert_eq!(
        app.notifications,
        vec![notification("\u{e192}", "Keyring deletion failed", "locked")]
    );
}

#[test]
fn failed_storing_is_shown() {
    let mut app = app();
    keyring_store_failed(&mut app, &KeyringFailure::TooLong("password".to_string(), 10));
    assert_eq!(
        app.notifications,
        vec![notification(
            "\u{eb90}",
            "Keyring Failed",
            "attribute \"password\" too long (max 10)"
        )]
    );
}
