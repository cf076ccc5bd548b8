use vstd::prelude::*;
use vstd::string::*;
use vstd::utf8::*;
use crate::api::{
    is_tagged, Contact, LoginError, Message, SessionGrant, UserInfo, UserInfoError,
    UserSessionsAuthReq, UserSessionsReq,
};
use crate::digest::{is_digest_text, is_lower_hex, sha256_hex, sha256_of, uuid_text, uuid_to_text};
use crate::store::{with_contacts, with_messages, without_owner, SharedCaches};
use crate::text::{join, same_text};

verus! {

/// One header of a request.
#[derive(Clone, Debug, PartialEq, Eq)]
pub struct Header {
    pub name: String,
    pub value: String,
}

/// A GET request to the platform.
#[derive(Clone, Debug, PartialEq, Eq)]
pub struct HttpRequest {
    pub url: String,
    pub headers: Vec<Header>,
}

/// The POST request that asks for a session. The body is sent as JSON.
#[derive(Clone, Debug, PartialEq, Eq)]
pub struct LoginRequest {
    pub url: String,
    pub headers: Vec<Header>,
    pub body: UserSessionsReq,
}

/// What became of a request.
#[derive(Clone, Debug, PartialEq, Eq)]
pub enum HttpReply<T> {
    /// No request was made.
    NoRequest,
    /// The request could not be sent.
    SendFailed,
    /// An answer came. `body` holds its bytes, or `None` where they could
    /// not be read; `decoded` holds what the body's JSON stands for, or
    /// `None` where the body is not the JSON that was expected.
    Response { status: u16, body: Option<Vec<u8>>, decoded: Option<T> },
}

/// Whether a character may stand in the value of a header: a tab, or any
/// character from the space on but DEL.
pub open spec fn header_char(c: char) -> bool {
    c == '\t' || (' ' <= c && c != '\x7f')
}

/// Whether a text may be the value of a header.
pub open spec fn header_safe(text: Seq<char>) -> bool {
    forall|i: int| 0 <= i < text.len() ==> header_char(#[trigger] text[i])
}

/// Where the platform's REST interface lives.
pub open spec fn api_base() -> Seq<char> {
    "https://api.resonite.com/"@
}

/// The value of the `Authorization` header of a user's requests.
pub open spec fn authorization_text(user_id: Seq<char>, token: Seq<char>) -> Seq<char> {
    "res "@ + user_id + ":"@ + token
}

/// The body with which the platform refuses a login.
pub open spec fn invalid_credentials_body() -> Seq<char> {
    "Login.InvalidCredentials"@
}

/// The body with which the platform says that it knows no such user.
pub open spec fn invalid_user_body() -> Seq<char> {
    "Invalid User ID"@
}

/// The text that a body of bytes stands for, where it is UTF-8.
pub open spec fn body_text(body: Seq<u8>) -> Option<Seq<char>> {
    if valid_utf8(body) {
        Some(decode_utf8(body))
    } else {
        None
    }
}

/// Calls `reqwest::header::HeaderValue::from_str` and says whether it took
/// the text. Trusted: it takes a text whose every byte is a tab or is at
/// least 32 and not 127, which of a text is to say: whose every character
/// is a tab or comes from the space on and is not DEL.
#[verifier::external_body]
fn header_value_accepts(text: &str) -> (r: bool)
    ensures
        r == header_safe(text@),
{
    reqwest::header::HeaderValue::from_str(text).is_ok()
}

/// Calls `String::from_utf8`. Trusted: it gives a text exactly for bytes
/// that are valid UTF-8, and the text is the one that they encode.
#[verifier::external_body]
fn text_from_utf8(bytes: Vec<u8>) -> (r: Option<String>)
    ensures
        r is Some <==> body_text(bytes@) is Some,
        r matches Some(s) ==> Some(s@) == body_text(bytes@),
{
    String::from_utf8(bytes).ok()
}

/// The path under which a user lookup is asked: a query that begins with
/// `U-`, in either case, names a user by id; any other query is a name to
/// search for.
pub open spec fn names_user_id(query: Seq<char>) -> bool {
    query.len() >= 2 && (query[0] == 'u' || query[0] == 'U') && query[1] == '-'
}

/// The endpoint of a user lookup.
pub open spec fn users_endpoint(query: Seq<char>) -> Seq<char> {
    if names_user_id(query) {
        "users/"@ + query
    } else {
        "users?name="@ + query
    }
}

/// The session with the platform: the identity of this installation and,
/// once a login succeeded, the user's id and bearer token.
pub struct Client {
    transport: bool,
    machine_uuid: String,
    hwid: String,
    logged_in: bool,
    user_id: Option<String>,
    token: Option<String>,
}

/// What a login answer amounts to: the granted user id and token, or the
/// error that the answer stands for.
pub open spec fn login_outcome(reply: HttpReply<SessionGrant>) -> Result<
    (Seq<char>, Seq<char>),
    LoginError,
> {
    match reply {
        HttpReply::NoRequest => Err(LoginError::ReachedTheEnd),
        HttpReply::SendFailed => Err(LoginError::RequestFailed),
        HttpReply::Response { status, body, decoded } => match body {
            None => Err(LoginError::RequestFailed),
            Some(bytes) => match body_text(bytes@) {
                None => Err(LoginError::JsonParseFailed),
                Some(text) => if text == invalid_credentials_body() {
                    Err(LoginError::InvalidCredentials)
                } else {
                    match decoded {
                        None => Err(LoginError::JsonParseFailed),
                        Some(grant) => Ok((grant.user_id@, grant.token@)),
                    }
                },
            },
        },
    }
}

/// The text of an answer to an authenticated GET, or `None` where no
/// answer came, the platform refused the request (a status from 400 to
/// 499), or the body could not be read as text.
pub open spec fn fetched_text<T>(reply: HttpReply<T>) -> Option<Seq<char>> {
    match reply {
        HttpReply::NoRequest => None,
        HttpReply::SendFailed => None,
        HttpReply::Response { status, body, decoded } => if 400 <= status < 500 {
            None
        } else {
            match body {
                None => None,
                Some(bytes) => body_text(bytes@),
            }
        },
    }
}

/// Whether an answer to a lookup, a contacts or a messages fetch gives
/// values to use: its text was read, is no refusal, and was decoded.
pub open spec fn fetched_values<T>(reply: HttpReply<T>) -> Option<T> {
    match reply {
        HttpReply::Response { status, body, decoded } => if fetched_text(reply) is Some {
            decoded
        } else {
            None
        },
        _ => None,
    }
}

/// What an answer to a user lookup amounts to. The body that says that
/// there is no such user counts whatever the status of the answer is.
pub open spec fn lookup_outcome<T>(reply: HttpReply<T>) -> Result<T, UserInfoError> {
    match reply {
        HttpReply::NoRequest => Err(UserInfoError::RequestFailed),
        HttpReply::SendFailed => Err(UserInfoError::RequestFailed),
        HttpReply::Response { status, body, decoded } => match body {
            None => Err(UserInfoError::RequestFailed),
            Some(bytes) => match body_text(bytes@) {
                None => Err(UserInfoError::RequestFailed),
                Some(text) => if text == invalid_user_body() {
                    Err(UserInfoError::NoResults)
                } else if 400 <= status < 500 {
                    Err(UserInfoError::RequestFailed)
                } else {
                    match decoded {
                        None => Err(UserInfoError::JsonParseFailed),
                        Some(v) => Ok(v),
                    }
                },
            },
        },
    }
}

/// A login that is answered with exactly the body that refuses the
/// credentials fails with `InvalidCredentials`, whatever else the answer
/// holds.
pub proof fn lemma_refused_login(status: u16, bytes: Vec<u8>, decoded: Option<SessionGrant>)
    requires
        body_text(bytes@) == Some(invalid_credentials_body()),
    ensures
        login_outcome(HttpReply::Response { status, body: Some(bytes), decoded }) == Err::<
            (Seq<char>, Seq<char>),
            LoginError,
        >(LoginError::InvalidCredentials),
{
}

/// A lookup that is answered with exactly the body that knows no such user
/// fails with `NoResults`, whatever else the answer holds.
pub proof fn lemma_unknown_user<T>(status: u16, bytes: Vec<u8>, decoded: Option<T>)
    requires
        body_text(bytes@) == Some(invalid_user_body()),
    ensures
        lookup_outcome(HttpReply::Response { status, body: Some(bytes), decoded }) == Err::<
            T,
            UserInfoError,
        >(UserInfoError::NoResults),
{
}

/// Reads the answer to a lookup.
pub fn lookup<T>(reply: HttpReply<T>) -> (r: Result<T, UserInfoError>)
    ensures
        r == lookup_outcome(reply),
{
    match reply {
        HttpReply::NoRequest => Err(UserInfoError::RequestFailed),
        HttpReply::SendFailed => Err(UserInfoError::RequestFailed),
        HttpReply::Response { status, body, decoded } => {
            let bytes = match body {
                Some(b) => b,
                None => {
                    return Err(UserInfoError::RequestFailed);
                },
            };
            let text = match text_from_utf8(bytes) {
                Some(t) => t,
                None => {
                    return Err(UserInfoError::RequestFailed);
                },
            };
            if same_text(text.as_str(), "Invalid User ID") {
                return Err(UserInfoError::NoResults);
            }
            if 400 <= status && status < 500 {
                return Err(UserInfoError::RequestFailed);
            }
            match decoded {
                Some(v) => Ok(v),
                None => Err(UserInfoError::JsonParseFailed),
            }
        },
    }
}

impl Client {
    /// Whether there is an HTTP client to send requests with.
    pub closed spec fn has_transport(&self) -> bool {
        self.transport
    }

    /// The device-identity hash that goes out with every request.
    pub closed spec fn hwid_text(&self) -> Seq<char> {
        self.hwid@
    }

    /// The 128-bit value that the first sixteen bytes of the hardware
    /// identifier make, written as a UUID. It stays with the session: what
    /// is sent is the device hash.
    pub closed spec fn machine_uuid_text(&self) -> Seq<char> {
        self.machine_uuid@
    }

    /// Whether a login has succeeded.
    pub closed spec fn is_logged_in(&self) -> bool {
        self.logged_in
    }

    /// The id of the user who is logged in.
    pub closed spec fn user_id_text(&self) -> Option<Seq<char>> {
        match self.user_id {
            Some(id) => Some(id@),
            None => None,
        }
    }

    /// The bearer token of the user who is logged in.
    pub closed spec fn token_text(&self) -> Option<Seq<char>> {
        match self.token {
            Some(t) => Some(t@),
            None => None,
        }
    }

    /// Whether an authenticated request can be made: there is an HTTP
    /// client, a user is logged in, and the user's id and token can stand
    /// in a header.
    pub open spec fn can_fetch(&self) -> bool {
        &&& self.has_transport()
        &&& self.user_id_text() is Some
        &&& self.token_text() is Some
        &&& header_safe(authorization_text(self.user_id_text()->0, self.token_text()->0))
    }

    /// Whether `req` is this session's authenticated GET request for an
    /// endpoint: the address of the endpoint, and the three headers `UID`,
    /// `Content-Type` and `Authorization`.
    pub open spec fn is_fetch_request(&self, req: HttpRequest, endpoint: Seq<char>) -> bool {
        &&& req.url@ == api_base() + endpoint
        &&& req.headers@.len() == 3
        &&& req.headers@[0].name@ == "UID"@
        &&& req.headers@[0].value@ == self.hwid_text()
        &&& req.headers@[1].name@ == "Content-Type"@
        &&& req.headers@[1].value@ == "application/json"@
        &&& req.headers@[2].name@ == "Authorization"@
        &&& req.headers@[2].value@ == authorization_text(
            self.user_id_text()->0,
            self.token_text()->0,
        )
        &&& forall|i: int| 0 <= i < 3 ==> header_safe(#[trigger] req.headers@[i].value@)
    }

    /// Whether `req` is this session's login request for a user: the
    /// address of the login endpoint, the two headers `UID` and
    /// `Content-Type`, and a body that names the user, this installation's
    /// secret machine id, which is the device hash, and the wish to be
    /// remembered.
    pub open spec fn is_login_request(
        &self,
        req: LoginRequest,
        username: Seq<char>,
        remember_me: bool,
    ) -> bool {
        &&& req.url@ == api_base() + "userSessions"@
        &&& req.headers@.len() == 2
        &&& req.headers@[0].name@ == "UID"@
        &&& req.headers@[0].value@ == self.hwid_text()
        &&& header_safe(req.headers@[0].value@)
        &&& req.headers@[1].name@ == "Content-Type"@
        &&& req.headers@[1].value@ == "application/json"@
        &&& req.body.username@ == username
        &&& req.body.secret_machine_id@ == self.hwid_text()
        &&& req.body.remember_me == remember_me
    }

    /// The session holds together: the device hash has the shape of a
    /// digest, and the user's id, the token and the login flag are set
    /// together or not at all.
    pub closed spec fn wf(&self) -> bool {
        &&& is_digest_text(self.hwid@)
        &&& self.user_id is Some <==> self.token is Some
        &&& self.logged_in <==> self.user_id is Some
    }

    /// In a session that holds together the user's id and the token are
    /// both there or both missing, and the login flag says which.
    pub proof fn lemma_credentials_together(&self)
        requires
            self.wf(),
        ensures
            self.user_id_text() is Some <==> self.token_text() is Some,
            self.is_logged_in() <==> self.user_id_text() is Some,
            is_digest_text(self.hwid_text()),
            header_safe(self.hwid_text()),
    {
        lemma_digest_header_safe(self.hwid@);
    }

    /// A session for the installation whose hardware identifier is
    /// `hardware_id`, not logged in. The first sixteen bytes of the
    /// identifier make the installation's 128-bit value, and the digest of
    /// the whole identifier the device hash, which alone is sent. There is
    /// no session for an identifier of fewer than sixteen bytes, nor for
    /// one whose sixteenth byte ends in the middle of a character.
    pub fn new(hardware_id: &str, transport: bool) -> (r: Option<Self>)
        ensures
            r is Some <==> hardware_id.spec_bytes().len() >= 16 && is_char_boundary(
                hardware_id.spec_bytes(),
                16,
            ),
            r matches Some(c) ==> c.wf() && c.has_transport() == transport && c.hwid_text()
                == sha256_hex(hardware_id@) && c.machine_uuid_text() == uuid_text(
                hardware_id.spec_bytes().take(16),
            ) && !c.is_logged_in() && c.user_id_text() is None && c.token_text() is None,
    {
        let bytes = hardware_id.as_bytes();
        if bytes.len() < 16 || !hardware_id.is_char_boundary(16) {
            return None;
        }
        let mut first: [u8; 16] = [0u8; 16];
        let mut i: usize = 0;
        while i < 16
            invariant
                0 <= i <= 16,
                bytes@.len() >= 16,
                forall|j: int| 0 <= j < i ==> first@[j] == bytes@[j],
            decreases 16 - i,
        {
            first.set(i, bytes[i]);
            i += 1;
        }
        assert(first@ =~= bytes@.take(16));
        let machine_uuid = uuid_to_text(&first);
        let hwid = sha256_of(hardware_id);
        Some(
            Client { transport, machine_uuid, hwid, logged_in: false, user_id: None, token: None },
        )
    }

    /// The device-identity hash.
    pub fn hwid(&self) -> (r: &String)
        ensures
            r@ == self.hwid_text(),
    {
        &self.hwid
    }

    /// The installation's 128-bit value, written as a UUID.
    pub fn machine_uuid(&self) -> (r: &String)
        ensures
            r@ == self.machine_uuid_text(),
    {
        &self.machine_uuid
    }

    /// Whether a login has succeeded.
    pub fn logged_in(&self) -> (r: bool)
        ensures
            r == self.is_logged_in(),
    {
        self.logged_in
    }

    /// The id of the user who is logged in.
    pub fn user_id(&self) -> (r: Option<&String>)
        ensures
            r is Some <==> self.user_id_text() is Some,
            r matches Some(id) ==> Some(id@) == self.user_id_text(),
    {
        match &self.user_id {
            Some(id) => Some(id),
            None => None,
        }
    }

    /// The bearer token of the user who is logged in.
    pub fn token(&self) -> (r: Option<&String>)
        ensures
            r is Some <==> self.token_text() is Some,
            r matches Some(t) ==> Some(t@) == self.token_text(),
    {
        match &self.token {
            Some(t) => Some(t),
            None => None,
        }
    }

    /// The request that asks the platform for a session, or `None` where
    /// there is no HTTP client to send it with.
    pub fn login_request(
        &self,
        username: &str,
        auth_variant: UserSessionsAuthReq,
        remember_me: bool,
    ) -> (r: Option<LoginRequest>)
        requires
            self.wf(),
        ensures
            r is Some <==> self.has_transport(),
            r matches Some(req) ==> self.is_login_request(req, username@, remember_me)
                && is_tagged(req.body.authentication, auth_variant),
    {
        if !self.transport {
            return None;
        }
        proof {
            lemma_digest_header_safe(self.hwid@);
        }
        let mut headers: Vec<Header> = Vec::new();
        headers.push(Header { name: "UID".to_owned(), value: self.hwid.clone() });
        headers.push(
            Header { name: "Content-Type".to_owned(), value: "application/json".to_owned() },
        );
        let body = UserSessionsReq {
            username: username.to_owned(),
            authentication: auth_variant.tagged(),
            secret_machine_id: self.hwid.clone(),
            remember_me,
        };
        Some(LoginRequest { url: join("https://api.resonite.com/", "userSessions"), headers, body })
    }

    /// Takes the answer to a login request. A granted session sets the
    /// user's id, the token and the login flag, and gives the token; any
    /// other answer leaves the session as it was and gives the error that
    /// it stands for.
    pub fn login(&mut self, reply: HttpReply<SessionGrant>) -> (r: Result<String, LoginError>)
        requires
            old(self).wf(),
        ensures
            final(self).wf(),
            final(self).has_transport() == old(self).has_transport(),
            final(self).hwid_text() == old(self).hwid_text(),
            final(self).machine_uuid_text() == old(self).machine_uuid_text(),
            match login_outcome(reply) {
                Ok(grant) => {
                    &&& r is Ok
                    &&& r->Ok_0@ == grant.1
                    &&& final(self).user_id_text() == Some(grant.0)
                    &&& final(self).token_text() == Some(grant.1)
                    &&& final(self).is_logged_in()
                },
                Err(e) => r == Err::<String, LoginError>(e) && *final(self) == *old(self),
            },
    {
        match reply {
            HttpReply::NoRequest => Err(LoginError::ReachedTheEnd),
            HttpReply::SendFailed => Err(LoginError::RequestFailed),
            HttpReply::Response { status, body, decoded } => {
                let bytes = match body {
                    Some(b) => b,
                    None => {
                        return Err(LoginError::RequestFailed);
                    },
                };
                let text = match text_from_utf8(bytes) {
                    Some(t) => t,
                    None => {
                        return Err(LoginError::JsonParseFailed);
                    },
                };
                if same_text(text.as_str(), "Login.InvalidCredentials") {
                    return Err(LoginError::InvalidCredentials);
                }
                let grant = match decoded {
                    Some(g) => g,
                    None => {
                        return Err(LoginError::JsonParseFailed);
                    },
                };
                let token = grant.token.clone();
                self.user_id = Some(grant.user_id);
                self.logged_in = true;
                self.token = Some(grant.token);
                Ok(token)
            },
        }
    }

    /// The authenticated GET request for an endpoint, or `None` where it
    /// cannot be made: there is no HTTP client, no user is logged in, or
    /// the user's id and token cannot stand in a header.
    pub fn get_json_request(&self, endpoint: &str) -> (r: Option<HttpRequest>)
        requires
            self.wf(),
        ensures
            r is Some <==> self.can_fetch(),
            r matches Some(req) ==> self.is_fetch_request(req, endpoint@),
    {
        if !self.transport {
            return None;
        }
        let user_id = match &self.user_id {
            Some(id) => id,
            None => {
                return None;
            },
        };
        let token = match &self.token {
            Some(t) => t,
            None => {
                return None;
            },
        };
        let mut authorization = join("res ", user_id.as_str());
        authorization.append(":");
        authorization.append(token.as_str());
        if !header_value_accepts(authorization.as_str()) {
            return None;
        }
        proof {
            lemma_digest_header_safe(self.hwid@);
            reveal_strlit("application/json");
            assert(header_safe("application/json"@)) by {
                assert forall|i: int| 0 <= i < "application/json"@.len() implies header_char(
                    #[trigger] "application/json"@[i],
                ) by {}
            }
        }
        let mut headers: Vec<Header> = Vec::new();
        headers.push(Header { name: "UID".to_owned(), value: self.hwid.clone() });
        headers.push(
            Header { name: "Content-Type".to_owned(), value: "application/json".to_owned() },
        );
        headers.push(Header { name: "Authorization".to_owned(), value: authorization });
        Some(HttpRequest { url: join("https://api.resonite.com/", endpoint), headers })
    }

    /// The text of the answer to an authenticated GET. There is none where
    /// no answer came, where the platform refused the request, and where
    /// the body is no text.
    pub fn get_json<T>(&self, reply: HttpReply<T>) -> (r: (Option<String>, Option<T>))
        ensures
            match fetched_text(reply) {
                Some(t) => r.0 is Some && r.0->0@ == t,
                None => r.0 is None,
            },
            r.1 == fetched_values(reply),
    {
        match reply {
            HttpReply::NoRequest => (None, None),
            HttpReply::SendFailed => (None, None),
            HttpReply::Response { status, body, decoded } => {
                if 400 <= status && status < 500 {
                    return (None, None);
                }
                let bytes = match body {
                    Some(b) => b,
                    None => {
                        return (None, None);
                    },
                };
                match text_from_utf8(bytes) {
                    Some(t) => (Some(t), decoded),
                    None => (None, None),
                }
            },
        }
    }

    /// The request that looks users up: by id where the query names one,
    /// else by name.
    pub fn get_users_request(&self, id: &str) -> (r: Option<HttpRequest>)
        requires
            self.wf(),
        ensures
            r is Some <==> self.can_fetch(),
            r matches Some(req) ==> self.is_fetch_request(req, users_endpoint(id@)),
    {
        let endpoint = if is_user_id(id) {
            join("users/", id)
        } else {
            join("users?name=", id)
        };
        self.get_json_request(endpoint.as_str())
    }

    /// Takes the answer to a lookup of users.
    pub fn get_users(&self, reply: HttpReply<Vec<UserInfo>>) -> (r: Result<
        Vec<UserInfo>,
        UserInfoError,
    >)
        ensures
            r == lookup_outcome(reply),
    {
        lookup(reply)
    }

    /// The request that looks one user up by id.
    pub fn get_user_request(&self, id: &str) -> (r: Option<HttpRequest>)
        requires
            self.wf(),
        ensures
            r is Some <==> self.can_fetch(),
            r matches Some(req) ==> self.is_fetch_request(req, "users/"@ + id@),
    {
        let endpoint = join("users/", id);
        self.get_json_request(endpoint.as_str())
    }

    /// Takes the answer to a lookup of one user.
    pub fn get_user(&self, reply: HttpReply<UserInfo>) -> (r: Result<UserInfo, UserInfoError>)
        ensures
            r == lookup_outcome(reply),
    {
        lookup(reply)
    }

    /// The request that fetches a user's contacts.
    pub fn get_contacts_request(&self, id: &str) -> (r: Option<HttpRequest>)
        requires
            self.wf(),
        ensures
            r is Some <==> self.can_fetch(),
            r matches Some(req) ==> self.is_fetch_request(req, "users/"@ + id@ + "/contacts"@),
    {
        let mut endpoint = join("users/", id);
        endpoint.append("/contacts");
        self.get_json_request(endpoint.as_str())
    }

    /// Takes the answer to a fetch of the contacts of the user `id`. Where
    /// the answer gives contacts, they take the place of that user's cached
    /// contacts; any other answer leaves the caches as they were.
    pub fn get_contacts(&self, caches: &mut SharedCaches, id: &str, reply: HttpReply<Vec<Contact>>)
        requires
            old(caches).wf(),
        ensures
            final(caches).wf(),
            final(caches).contacts() == match fetched_values(reply) {
                Some(batch) => with_contacts(without_owner(old(caches).contacts(), id@), batch@),
                None => old(caches).contacts(),
            },
            final(caches).messages() == old(caches).messages(),
            final(caches).statuses() == old(caches).statuses(),
            final(caches).sessions() == old(caches).sessions(),
            final(caches).session_keys() == old(caches).session_keys(),
            final(caches).refresh_wanted() == old(caches).refresh_wanted(),
    {
        let (_text, decoded) = self.get_json(reply);
        if let Some(batch) = decoded {
            caches.replace_contacts(id, batch);
        }
    }

    /// The request that fetches a user's messages.
    pub fn get_messages_request(&self, id: &str) -> (r: Option<HttpRequest>)
        requires
            self.wf(),
        ensures
            r is Some <==> self.can_fetch(),
            r matches Some(req) ==> self.is_fetch_request(req, "users/"@ + id@ + "/messages"@),
    {
        let mut endpoint = join("users/", id);
        endpoint.append("/messages");
        self.get_json_request(endpoint.as_str())
    }

    /// Takes the answer to a fetch of messages. Where the answer gives
    /// messages, each is added to the cached list of its peer; any other
    /// answer leaves the caches as they were.
    pub fn get_messages(&self, caches: &mut SharedCaches, reply: HttpReply<Vec<Message>>)
        requires
            old(caches).wf(),
        ensures
            final(caches).wf(),
            final(caches).messages() == match fetched_values(reply) {
                Some(batch) => with_messages(old(caches).messages(), batch@),
                None => old(caches).messages(),
            },
            forall|k: Seq<char>| #[trigger]
                old(caches).messages().contains_key(k) ==> final(caches).messages().contains_key(k)
                    && final(caches).messages()[k].len() >= old(caches).messages()[k].len(),
            final(caches).contacts() == old(caches).contacts(),
            final(caches).statuses() == old(caches).statuses(),
            final(caches).sessions() == old(caches).sessions(),
            final(caches).session_keys() == old(caches).session_keys(),
            final(caches).refresh_wanted() == old(caches).refresh_wanted(),
    {
        let (_text, decoded) = self.get_json(reply);
        if let Some(batch) = decoded {
            caches.merge_messages(batch);
        }
    }

    /// The request that fetches a user's status.
    pub fn get_status_request(&self, id: &str) -> (r: Option<HttpRequest>)
        requires
            self.wf(),
        ensures
            r is Some <==> self.can_fetch(),
            r matches Some(req) ==> self.is_fetch_request(req, "users/"@ + id@ + "/status"@),
    {
        let mut endpoint = join("users/", id);
        endpoint.append("/status");
        self.get_json_request(endpoint.as_str())
    }

    /// Takes the answer to a fetch of a user's status: the line that
    /// reports it, where the answer has a text. Nothing is cached.
    pub fn get_status<T>(&self, reply: HttpReply<T>) -> (r: Option<String>)
        ensures
            match fetched_text(reply) {
                Some(t) => r is Some && r->0@ == "user: "@ + t,
                None => r is None,
            },
    {
        let (text, _decoded) = self.get_json(reply);
        match text {
            Some(t) => Some(join("user: ", t.as_str())),
            None => None,
        }
    }
}

/// Whether a query names a user by id: it begins with `U-`, in either case.
pub fn is_user_id(query: &str) -> (r: bool)
    ensures
        r == names_user_id(query@),
{
    let n = query.unicode_len();
    if n < 2 {
        return false;
    }
    let first = query.get_char(0);
    let second = query.get_char(1);
    (first == 'u' || first == 'U') && second == '-'
}

/// A text with the shape of a digest may be the value of a header.
pub proof fn lemma_digest_header_safe(text: Seq<char>)
    requires
        is_digest_text(text),
    ensures
        header_safe(text),
{
    assert forall|i: int| 0 <= i < text.len() implies header_char(#[trigger] text[i]) by {
        assert(is_lower_hex(text[i]));
    }
}

} // verus!
