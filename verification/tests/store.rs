use resbox::api::{Contact, Message, MessageType};
use resbox::client::{Client, HttpReply};
use resbox::api::SessionGrant;
use resbox::hub::{SessionUpdate, UserStatus};
use resbox::store::{file_message, SharedCaches};
use resbox::tags::TagSet;
use resbox::time::ResDateTime;

fn message(id: &str, peer: &str, updated: i64) -> Message {
    Message {
        id: id.to_string(),
        sender_id: peer.to_string(),
        recipient_id: "U-me".to_string(),
        other_id: peer.to_string(),
        message_type: MessageType::Text,
        content: "hi".to_string(),
        send_time: ResDateTime::new(updated, 0),
        last_update_time: ResDateTime::new(updated, 0),
        read_time: None,
        is_migrated: false,
        owner_id: "U-me".to_string(),
    }
}

fn contact(id: &str, owner: &str, name: &str) -> Contact {
    Contact {
        id: id.to_string(),
        contact_username: name.to_string(),
        contact_status: "Accepted".to_string(),
        is_accepted: true,
        profile: None,
        latest_message_time: ResDateTime::new(0, 0),
        is_migrated: false,
        is_counterpart_migrated: false,
        owner_id: owner.to_string(),
    }
}

fn session(id: &str, name: &str) -> SessionUpdate {
    SessionUpdate {
        name: name.to_string(),
        description: None,
        tags: TagSet::new(),
        session_id: id.to_string(),
        normalized_session_id: id.to_lowercase(),
        host_user_id: None,
        host_user_session_id: None,
        host_machine_id: "m".to_string(),
        host_username: "host".to_string(),
        compatibility_hash: "c".to_string(),
        universe_id: None,
        app_version: "1".to_string(),
        headless_host: false,
        session_urls: Vec::new(),
        parent_session_ids: Vec::new(),
        nested_session_ids: Vec::new(),
        thumbnail_url: None,
        joined_users: 1,
        active_users: 1,
        total_joined_users: 1,
        total_active_users: 1,
        max_users: 8,
        mobile_friendly: false,
        session_begin_time: ResDateTime::new(0, 0),
        last_update: "now".to_string(),
        hide_from_listing: false,
        broadcast_key: None,
        has_ended: false,
        is_valid: true,
    }
}

fn status(user: &str, salt: Option<&str>) -> UserStatus {
    let mut s = UserStatus::with("sid".to_string(), ResDateTime::new(5, 0)).id(user.to_string());
    s.hash_salt = salt.map(|t| t.to_string());
    s
}

fn ids(list: &Vec<Message>) -> Vec<String> {
    list.iter().map(|m| m.id.clone()).collect()
}

fn is_sorted(list: &Vec<Message>) -> bool {
    list.windows(2).all(|w| w[0].last_update_time.is_not_after(&w[1].last_update_time))
}

#[test]
fn new_caches_are_empty() {
    let caches = SharedCaches::new();
    assert_eq!(caches.contact("U-a"), None);
    assert_eq!(caches.messages_with("U-a"), None);
    assert_eq!(caches.status_of("U-a"), None);
    assert_eq!(caches.session("S-a"), None);
    assert_eq!(caches.session_id_for("X"), None);
}

#[test]
fn messages_are_filed_by_last_update() {
    let mut bucket = Vec::new();
    file_message(&mut bucket, message("b", "U-a", 20));
    file_message(&mut bucket, message("a", "U-a", 10));
    file_message(&mut bucket, message("c", "U-a", 30));
    file_message(&mut bucket, message("b2", "U-a", 20));
    assert_eq!(ids(&bucket), vec!["a", "b", "b2", "c"]);
}

#[test]
fn merged_messages_grow_and_stay_sorted() {
    let mut caches = SharedCaches::new();
    caches.merge_messages(vec![
        message("3", "U-a", 30),
        message("1", "U-a", 10),
        message("x", "U-b", 5),
    ]);
    assert_eq!(ids(caches.messages_with("U-a").unwrap()), vec!["1", "3"]);
    assert_eq!(ids(caches.messages_with("U-b").unwrap()), vec!["x"]);

    let before_a = caches.messages_with("U-a").unwrap().len();
    let before_b = caches.messages_with("U-b").unwrap().len();
    caches.merge_messages(vec![message("2", "U-a", 20), message("0", "U-a", 0)]);
    let a = caches.messages_with("U-a").unwrap();
    assert_eq!(ids(a), vec!["0", "1", "2", "3"]);
    assert!(a.len() >= before_a);
    assert!(is_sorted(a));
    assert_eq!(caches.messages_with("U-b").unwrap().len(), before_b);

    // a second fetch of the same messages adds them again: nothing is replaced
    caches.merge_messages(vec![message("2", "U-a", 20), message("0", "U-a", 0)]);
    let a = caches.messages_with("U-a").unwrap();
    assert_eq!(ids(a), vec!["0", "0", "1", "2", "2", "3"]);
    assert!(is_sorted(a));

    caches.merge_messages(Vec::new());
    assert_eq!(caches.messages_with("U-a").unwrap().len(), 6);
}

#[test]
fn messages_updated_at_one_instant_keep_the_order_in_which_they_came() {
    let mut caches = SharedCaches::new();
    caches.merge_messages(vec![message("first", "U-a", 10), message("second", "U-a", 10)]);
    caches.merge_messages(vec![message("third", "U-a", 10)]);
    assert_eq!(ids(caches.messages_with("U-a").unwrap()), vec!["first", "second", "third"]);
}

#[test]
fn fetched_messages_are_merged_through_the_client() {
    let mut client = Client::new("0123456789abcdef", true).unwrap();
    let grant = SessionGrant { user_id: "U-me".to_string(), token: "tok".to_string() };
    let reply =
        HttpReply::Response { status: 200, body: Some(b"{}".to_vec()), decoded: Some(grant) };
    assert!(client.login(reply).is_ok());

    let mut caches = SharedCaches::new();
    let batch = vec![message("2", "U-a", 20), message("1", "U-a", 10)];
    let reply =
        HttpReply::Response { status: 200, body: Some(b"[]".to_vec()), decoded: Some(batch) };
    client.get_messages(&mut caches, reply);
    assert_eq!(ids(caches.messages_with("U-a").unwrap()), vec!["1", "2"]);

    // a refused or unread answer changes nothing
    let batch = vec![message("3", "U-a", 30)];
    let reply =
        HttpReply::Response { status: 403, body: Some(b"[]".to_vec()), decoded: Some(batch) };
    client.get_messages(&mut caches, reply);
    client.get_messages(&mut caches, HttpReply::SendFailed);
    let reply: HttpReply<Vec<Message>> =
        HttpReply::Response { status: 200, body: Some(b"oops".to_vec()), decoded: None };
    client.get_messages(&mut caches, reply);
    assert_eq!(ids(caches.messages_with("U-a").unwrap()), vec!["1", "2"]);
}

#[test]
fn fetched_contacts_replace_those_of_their_owner() {
    let mut caches = SharedCaches::new();
    caches.replace_contacts("U-me", vec![contact("U-a", "U-me", "a"), contact("U-b", "U-me", "b")]);
    caches.replace_contacts("U-other", vec![contact("U-c", "U-other", "c")]);
    assert_eq!(caches.contact("U-a").unwrap().contact_username, "a");
    assert_eq!(caches.contact("U-c").unwrap().contact_username, "c");

    caches.replace_contacts("U-me", vec![contact("U-b", "U-me", "b2"), contact("U-d", "U-me", "d")]);
    assert_eq!(caches.contact("U-a"), None);
    assert_eq!(caches.contact("U-b").unwrap().contact_username, "b2");
    assert_eq!(caches.contact("U-d").unwrap().contact_username, "d");
    assert_eq!(caches.contact("U-c").unwrap().contact_username, "c");

    caches.replace_contacts("U-me", Vec::new());
    assert_eq!(caches.contact("U-b"), None);
    assert_eq!(caches.contact("U-d"), None);
    assert_eq!(caches.contact("U-c").unwrap().contact_username, "c");
}

#[test]
fn of_two_fetched_contacts_with_one_id_the_later_stays() {
    let mut caches = SharedCaches::new();
    caches.replace_contacts(
        "U-me",
        vec![contact("U-a", "U-me", "early"), contact("U-a", "U-me", "late")],
    );
    assert_eq!(caches.contact("U-a").unwrap().contact_username, "late");
}

#[test]
fn fetched_contacts_go_through_the_client() {
    let client = Client::new("0123456789abcdef", true).unwrap();
    let mut caches = SharedCaches::new();
    let reply = HttpReply::Response {
        status: 200,
        body: Some(b"[]".to_vec()),
        decoded: Some(vec![contact("U-a", "U-me", "a")]),
    };
    client.get_contacts(&mut caches, "U-me", reply);
    assert_eq!(caches.contact("U-a").unwrap().contact_username, "a");
    client.get_contacts(&mut caches, "U-me", HttpReply::SendFailed);
    let reply: HttpReply<Vec<Contact>> =
        HttpReply::Response { status: 200, body: Some(b"[".to_vec()), decoded: None };
    client.get_contacts(&mut caches, "U-me", reply);
    assert_eq!(caches.contact("U-a").unwrap().contact_username, "a");
}

#[test]
fn status_push_with_salt_enters_the_cached_sessions_in_the_hash_table() {
    let mut caches = SharedCaches::new();
    caches.session_update(session("s1", "one"));
    assert!(caches.take_refresh());
    caches.status_update(status("U-a", Some("abc")));
    assert_eq!(
        caches.session_id_for("EF43B54EC97D88C4AA8A75094BDEC7FDF16BB3FE0D795CEAE84B5DFA88E2B0DC"),
        Some(&"s1".to_string())
    );
    assert_eq!(
        caches.session_id_for("ef43b54ec97d88c4aa8a75094bdec7fdf16bb3fe0d795ceae84b5dfa88e2b0dc"),
        None
    );
    assert_eq!(caches.status_of("U-a").unwrap().hash_salt, Some("abc".to_string()));
    assert!(caches.take_refresh());
    assert!(!caches.take_refresh());
}

#[test]
fn status_push_hashes_every_cached_session() {
    let mut caches = SharedCaches::new();
    caches.session_update(session("s1", "one"));
    caches.session_update(session("s2", "two"));
    caches.status_update(status("U-a", Some("abc")));
    assert_eq!(
        caches.session_id_for("EF43B54EC97D88C4AA8A75094BDEC7FDF16BB3FE0D795CEAE84B5DFA88E2B0DC"),
        Some(&"s1".to_string())
    );
    assert_eq!(
        caches.session_id_for("1366446488495CDF77230563CA25CA77D96EBD0B06FBD4B5773237A38129DE93"),
        Some(&"s2".to_string())
    );
    // a later salt adds entries and keeps the earlier ones
    caches.status_update(status("U-b", Some("xyz")));
    assert_eq!(
        caches.session_id_for("EF43B54EC97D88C4AA8A75094BDEC7FDF16BB3FE0D795CEAE84B5DFA88E2B0DC"),
        Some(&"s1".to_string())
    );
    assert_eq!(
        caches.session_id_for(&resbox::digest::session_hash_key("s2", "xyz")),
        Some(&"s2".to_string())
    );
}

#[test]
fn status_push_without_salt_leaves_the_hash_table() {
    let mut caches = SharedCaches::new();
    caches.session_update(session("s1", "one"));
    caches.status_update(status("U-a", None));
    assert_eq!(
        caches.session_id_for("EF43B54EC97D88C4AA8A75094BDEC7FDF16BB3FE0D795CEAE84B5DFA88E2B0DC"),
        None
    );
    assert!(caches.status_of("U-a").is_some());
}

#[test]
fn status_push_replaces_the_status_of_its_user() {
    let mut caches = SharedCaches::new();
    let mut first = status("U-a", None);
    first.is_mobile = true;
    caches.status_update(first);
    caches.status_update(status("U-a", None));
    assert!(!caches.status_of("U-a").unwrap().is_mobile);
    assert_eq!(caches.status_of("U-b"), None);
}

#[test]
fn session_push_replaces_the_session_of_its_id() {
    let mut caches = SharedCaches::new();
    caches.session_update(session("s1", "one"));
    caches.session_update(session("s1", "renamed"));
    assert_eq!(caches.session("s1").unwrap().name, "renamed");
    assert_eq!(caches.session("s2"), None);
}

#[test]
fn message_pushes_only_ask_for_a_redraw() {
    let mut caches = SharedCaches::new();
    assert!(!caches.take_refresh());
    caches.message_receive("{\"id\":\"1\"}");
    assert!(caches.take_refresh());
    assert!(!caches.take_refresh());
    caches.message_sent("{\"id\":\"1\"}");
    assert!(caches.take_refresh());
    assert_eq!(caches.messages_with("U-a"), None);
}

#[test]
fn cached_status_asks_for_no_redraw() {
    let mut caches = SharedCaches::new();
    caches.cache_status(status("U-me", Some("abc")));
    assert!(!caches.take_refresh());
    assert!(caches.status_of("U-me").is_some());
}

#[test]
fn server_log_line() {
    assert_eq!(resbox::hub::server_log("hello"), "Reso server: hello");
}
