use vstd::prelude::*;
use crate::hub::{OnlineStatus, SessionAccessLevel, UserStatus};
use crate::store::SharedCaches;
use crate::text::{decimal, decimal_text, join};

verus! {

/// The colour of the dot that marks how reachable a user is.
#[derive(Clone, Copy, Debug, PartialEq, Eq, Structural)]
pub enum StatusColor {
    Gray,
    Gold,
    Red,
    Green,
    Blue,
}

/// The colour for an online status; an offline or unknown user has none.
pub open spec fn status_color(status: Option<OnlineStatus>) -> Option<StatusColor> {
    match status {
        Some(OnlineStatus::Offline) => None,
        Some(OnlineStatus::Invisible) => Some(StatusColor::Gray),
        Some(OnlineStatus::Away) => Some(StatusColor::Gold),
        Some(OnlineStatus::Busy) => Some(StatusColor::Red),
        Some(OnlineStatus::Online) => Some(StatusColor::Green),
        Some(OnlineStatus::Sociable) => Some(StatusColor::Blue),
        None => None,
    }
}

/// How an access level is called in the line under a user's name.
pub open spec fn access_level_text(level: SessionAccessLevel) -> Seq<char> {
    match level {
        SessionAccessLevel::Private => "Private"@,
        SessionAccessLevel::LAN => "LAN"@,
        SessionAccessLevel::Contacts => "Contacts"@,
        SessionAccessLevel::ContactsPlus => "Contacts+"@,
        SessionAccessLevel::RegisteredUsers => "Registered Users"@,
        SessionAccessLevel::Anyone => "Public"@,
    }
}

/// How the session that a user is in is called: by its access level, or
/// `Null` where the status names no current session.
pub open spec fn current_session_text(status: UserStatus) -> Seq<char> {
    if 0 <= status.current_session_index < status.sessions@.len() {
        access_level_text(status.sessions@[status.current_session_index as int].access_level)
    } else {
        "Null"@
    }
}

/// The line under a user's name. An online user who is in sessions is
/// shown with the kind of the current one and their number.
pub open spec fn status_subtext(status: Option<UserStatus>) -> Seq<char> {
    match status {
        None => "Offline (No Status)"@,
        Some(line) => match line.online_status {
            None => "Unknown"@,
            Some(OnlineStatus::Offline) => "Offline"@,
            Some(OnlineStatus::Invisible) => "Offline (wink wink)"@,
            Some(OnlineStatus::Away) => "Away"@,
            Some(OnlineStatus::Busy) => "Busy"@,
            Some(OnlineStatus::Sociable) => "Sociable"@,
            Some(OnlineStatus::Online) => if line.sessions@.len() == 0 {
                "Online"@
            } else {
                "In a "@ + current_session_text(line) + " Session ("@ + decimal(
                    line.sessions@.len(),
                ) + " total)"@
            },
        },
    }
}

/// The cached status of a user, if there is one.
pub open spec fn cached_status(caches: SharedCaches, id: Seq<char>) -> Option<UserStatus> {
    if caches.statuses().contains_key(id) {
        Some(caches.statuses()[id])
    } else {
        None
    }
}

/// How an access level is called in the line under a user's name.
pub fn access_level_name(level: SessionAccessLevel) -> (r: &'static str)
    ensures
        r@ == access_level_text(level),
{
    match level {
        SessionAccessLevel::Private => "Private",
        SessionAccessLevel::LAN => "LAN",
        SessionAccessLevel::Contacts => "Contacts",
        SessionAccessLevel::ContactsPlus => "Contacts+",
        SessionAccessLevel::RegisteredUsers => "Registered Users",
        SessionAccessLevel::Anyone => "Public",
    }
}

/// The colour of the dot and the line under the name of the user `id`, by
/// the status that is cached for that user.
pub fn user_color_and_subtext(caches: &SharedCaches, id: &str) -> (r: (Option<StatusColor>, String))
    requires
        caches.wf(),
    ensures
        r.0 == status_color(
            match cached_status(*caches, id@) {
                Some(line) => line.online_status,
                None => None,
            },
        ),
        r.1@ == status_subtext(cached_status(*caches, id@)),
{
    let line = match caches.status_of(id) {
        Some(line) => line,
        None => {
            return (None, "Offline (No Status)".to_owned());
        },
    };
    let status = match line.online_status {
        Some(s) => s,
        None => {
            return (None, "Unknown".to_owned());
        },
    };
    match status {
        OnlineStatus::Offline => (None, "Offline".to_owned()),
        OnlineStatus::Invisible => (Some(StatusColor::Gray), "Offline (wink wink)".to_owned()),
        OnlineStatus::Away => (Some(StatusColor::Gold), "Away".to_owned()),
        OnlineStatus::Busy => (Some(StatusColor::Red), "Busy".to_owned()),
        OnlineStatus::Sociable => (Some(StatusColor::Blue), "Sociable".to_owned()),
        OnlineStatus::Online => {
            let count = line.sessions.len();
            if count == 0 {
                (Some(StatusColor::Green), "Online".to_owned())
            } else {
                let kind = match line.current_session() {
                    Some(session) => access_level_name(session.access_level),
                    None => "Null",
                };
                let mut text = join("In a ", kind);
                text.append(" Session (");
                text.append(decimal_text(count as u64).as_str());
                text.append(" total)");
                (Some(StatusColor::Green), text)
            }
        },
    }
}

} // verus!
