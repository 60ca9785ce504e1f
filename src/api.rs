use vstd::prelude::*;
use vstd::string::*;

use crate::codec::{make_hmac, signature_of, decode_hex, is_hex_text, bytes_of_hex};
use crate::form::{fields_view, FormRequest};
use crate::json::{
    plain_token,
    as_boolean, as_int64, as_text, bool_in, get, get_in, i64_in, json_tree, parse_json, parsed_json,
    text_in, tree_of, Json,
};

verus! {

/// Why a call did not complete.
#[derive(Debug, Clone)]
pub enum ApiError {
    /// The exchange itself failed; raised by whoever performs it.
    Transport(String),
    /// The service does not know the application.
    UnknownApplication,
    /// The response carried no signature, or one that does not match its body.
    Tampered,
    /// An earlier response was tampered with; the session takes no more calls.
    SessionClosed,
    /// A verified response lacks a field that the call needs.
    Malformed,
    /// The service refused the call, with its message.
    Rejected(String),
    /// The declared version is outdated; carries the download location.
    NeedsUpdate(String),
}

/// The model of an [`ApiError`].
pub enum Fault {
    Transport(Seq<char>),
    UnknownApplication,
    Tampered,
    SessionClosed,
    Malformed,
    Rejected(Seq<char>),
    NeedsUpdate(Seq<char>),
}

impl View for ApiError {
    type V = Fault;

    open spec fn view(&self) -> Fault {
        match self {
            ApiError::Transport(m) => Fault::Transport(m@),
            ApiError::UnknownApplication => Fault::UnknownApplication,
            ApiError::Tampered => Fault::Tampered,
            ApiError::SessionClosed => Fault::SessionClosed,
            ApiError::Malformed => Fault::Malformed,
            ApiError::Rejected(m) => Fault::Rejected(m@),
            ApiError::NeedsUpdate(u) => Fault::NeedsUpdate(u@),
        }
    }
}

/// The text of an error, as the service's users know it.
pub open spec fn fault_text(f: Fault) -> Seq<char> {
    match f {
        Fault::Transport(m) => m,
        Fault::UnknownApplication => "The application doesn't exist"@,
        Fault::Tampered => "response was tampered with"@,
        Fault::SessionClosed => "session closed after a tampered response"@,
        Fault::Malformed => "malformed response"@,
        Fault::Rejected(m) => m,
        Fault::NeedsUpdate(_) => "invalidver"@,
    }
}

impl ApiError {
    /// The error as text, as the service's users know it.
    pub fn message(&self) -> (r: String)
        ensures
            r@ == fault_text(self@),
    {
        match self {
            ApiError::Transport(m) => m.clone(),
            ApiError::UnknownApplication => String::from_str("The application doesn't exist"),
            ApiError::Tampered => String::from_str("response was tampered with"),
            ApiError::SessionClosed => String::from_str("session closed after a tampered response"),
            ApiError::Malformed => String::from_str("malformed response"),
            ApiError::Rejected(m) => m.clone(),
            ApiError::NeedsUpdate(_) => String::from_str("invalidver"),
        }
    }
}

/// Whether a call ended in the given fault.
pub open spec fn failed_with<T>(r: Result<T, ApiError>, f: Fault) -> bool {
    r is Err && r->Err_0@ == f
}

/// A response as it came back: its body and its `signature` header, if any.
#[derive(Debug, Clone)]
pub struct Reply {
    pub body: String,
    pub signature: Option<String>,
}

pub struct ReplyView {
    pub body: Seq<char>,
    pub signature: Option<Seq<char>>,
}

impl View for Reply {
    type V = ReplyView;

    open spec fn view(&self) -> ReplyView {
        ReplyView {
            body: self.body@,
            signature: match self.signature {
                Some(s) => Some(s@),
                None => None,
            },
        }
    }
}

/// A call of the protocol after init, with the fields of its own.
#[derive(Debug, Clone)]
pub enum Operation {
    Register { username: String, password: String, license: String, hwid: String },
    Upgrade { username: String, license: String },
    Login { username: String, password: String, hwid: String },
    License { license: String, hwid: String },
    Var { varid: String },
    File { fileid: String },
    Webhook { webid: String, params: String },
    CheckBlacklist,
    Check,
    FetchOnline,
    ChatGet { channel: String },
    ChatSend { channel: String, message: String },
    Ban,
    SetVar { var: String, data: String },
    GetVar { var: String },
    Log { message: String, pcuser: String },
    ChangeUsername { new_username: String },
    WebLogin { username: String, token: String, hwid: String },
}

/// The `type` field of a call.
pub open spec fn op_type(op: Operation) -> Seq<char> {
    match op {
        Operation::Register { .. } => "register"@,
        Operation::Upgrade { .. } => "upgrade"@,
        Operation::Login { .. } => "login"@,
        Operation::License { .. } => "license"@,
        Operation::Var { .. } => "var"@,
        Operation::File { .. } => "file"@,
        Operation::Webhook { .. } => "webhook"@,
        Operation::CheckBlacklist => "checkblacklist"@,
        Operation::Check => "check"@,
        Operation::FetchOnline => "fetchOnline"@,
        Operation::ChatGet { .. } => "chatget"@,
        Operation::ChatSend { .. } => "chatsend"@,
        Operation::Ban => "ban"@,
        Operation::SetVar { .. } => "setvar"@,
        Operation::GetVar { .. } => "getvar"@,
        Operation::Log { .. } => "log"@,
        Operation::ChangeUsername { .. } => "changeUsername"@,
        Operation::WebLogin { .. } => "login"@,
    }
}

/// The fields that a call sends besides its type and the session's.
pub open spec fn op_fields(op: Operation) -> Seq<(Seq<char>, Seq<char>)> {
    match op {
        Operation::Register { username, password, license, hwid } => seq![
            ("username"@, username@),
            ("pass"@, password@),
            ("key"@, license@),
            ("hwid"@, hwid@),
        ],
        Operation::Upgrade { username, license } => seq![
            ("username"@, username@),
            ("key"@, license@),
        ],
        Operation::Login { username, password, hwid } => seq![
            ("username"@, username@),
            ("pass"@, password@),
            ("hwid"@, hwid@),
        ],
        Operation::License { license, hwid } => seq![("key"@, license@), ("hwid"@, hwid@)],
        Operation::Var { varid } => seq![("varid"@, varid@)],
        Operation::File { fileid } => seq![("fileid"@, fileid@)],
        Operation::Webhook { webid, params } => seq![("webid"@, webid@), ("params"@, params@)],
        Operation::ChatGet { channel } => seq![("channel"@, channel@)],
        Operation::ChatSend { channel, message } => seq![
            ("channel"@, channel@),
            ("message"@, message@),
        ],
        Operation::SetVar { var, data } => seq![("var"@, var@), ("data"@, data@)],
        Operation::GetVar { var } => seq![("var"@, var@)],
        Operation::Log { message, pcuser } => seq![("message"@, message@), ("pcuser"@, pcuser@)],
        Operation::ChangeUsername { new_username } => seq![("newUsername"@, new_username@)],
        Operation::WebLogin { username, token, hwid } => seq![
            ("username"@, username@),
            ("token"@, token@),
            ("hwid"@, hwid@),
        ],
        _ => seq![],
    }
}

fn op_name(op: &Operation) -> (r: &'static str)
    ensures
        r@ == op_type(*op),
{
    match op {
        Operation::Register { .. } => "register",
        Operation::Upgrade { .. } => "upgrade",
        Operation::Login { .. } => "login",
        Operation::License { .. } => "license",
        Operation::Var { .. } => "var",
        Operation::File { .. } => "file",
        Operation::Webhook { .. } => "webhook",
        Operation::CheckBlacklist => "checkblacklist",
        Operation::Check => "check",
        Operation::FetchOnline => "fetchOnline",
        Operation::ChatGet { .. } => "chatget",
        Operation::ChatSend { .. } => "chatsend",
        Operation::Ban => "ban",
        Operation::SetVar { .. } => "setvar",
        Operation::GetVar { .. } => "getvar",
        Operation::Log { .. } => "log",
        Operation::ChangeUsername { .. } => "changeUsername",
        Operation::WebLogin { .. } => "login",
    }
}

/// Appends the field `key=value` to a request under construction.
fn push_field(fields: &mut Vec<(String, String)>, key: &str, value: &String)
    ensures
        fields_view(final(fields)@) == fields_view(old(fields)@).push((key@, value@)),
{
    fields.push((String::from_str(key), value.clone()));
    assert(fields_view(final(fields)@) =~= fields_view(old(fields)@).push((key@, value@)));
}

/// The state of one session with the service.
///
/// Every call is built here as a [`FormRequest`] and finished here from the
/// [`Reply`] that came back. A reply whose signature does not check out
/// changes nothing but closing the session.
#[derive(Debug, Clone)]
pub struct KeyauthApi {
    name: String,
    owner_id: String,
    secret: String,
    version: String,
    enckey: String,
    enckey_s: String,
    session_id: String,
    terminated: bool,
    pub api_url: String,
    pub num_keys: String,
    pub num_online_users: String,
    pub num_users: String,
    pub app_version: String,
    pub customer_panel_link: String,
    pub username: String,
    pub ip: String,
    pub hwid: Option<String>,
    pub create_date: String,
    pub last_login: String,
    pub subscription: String,
    pub sub_time_left: i64,
    pub expiry: String,
    pub message: String,
    pub success: bool,
    pub blacklisted: bool,
    pub response: String,
}

/// The model of a [`KeyauthApi`].
pub struct Session {
    pub name: Seq<char>,
    pub owner_id: Seq<char>,
    pub secret: Seq<char>,
    pub version: Seq<char>,
    pub enckey: Seq<char>,
    pub enckey_s: Seq<char>,
    pub session_id: Seq<char>,
    pub terminated: bool,
    pub api_url: Seq<char>,
    pub num_keys: Seq<char>,
    pub num_online_users: Seq<char>,
    pub num_users: Seq<char>,
    pub app_version: Seq<char>,
    pub customer_panel_link: Seq<char>,
    pub username: Seq<char>,
    pub ip: Seq<char>,
    pub hwid: Option<Seq<char>>,
    pub create_date: Seq<char>,
    pub last_login: Seq<char>,
    pub subscription: Seq<char>,
    pub sub_time_left: i64,
    pub expiry: Seq<char>,
    pub message: Seq<char>,
    pub success: bool,
    pub blacklisted: bool,
    pub response: Seq<char>,
}

pub open spec fn opt_view(o: Option<String>) -> Option<Seq<char>> {
    match o {
        Some(s) => Some(s@),
        None => None,
    }
}

impl View for KeyauthApi {
    type V = Session;

    closed spec fn view(&self) -> Session {
        Session {
            name: self.name@,
            owner_id: self.owner_id@,
            secret: self.secret@,
            version: self.version@,
            enckey: self.enckey@,
            enckey_s: self.enckey_s@,
            session_id: self.session_id@,
            terminated: self.terminated,
            api_url: self.api_url@,
            num_keys: self.num_keys@,
            num_online_users: self.num_online_users@,
            num_users: self.num_users@,
            app_version: self.app_version@,
            customer_panel_link: self.customer_panel_link@,
            username: self.username@,
            ip: self.ip@,
            hwid: opt_view(self.hwid),
            create_date: self.create_date@,
            last_login: self.last_login@,
            subscription: self.subscription@,
            sub_time_left: self.sub_time_left,
            expiry: self.expiry@,
            message: self.message@,
            success: self.success,
            blacklisted: self.blacklisted,
            response: self.response@,
        }
    }
}

/// The key that authenticates every response after init: the ephemeral key,
/// a dash, and the shared secret.
pub open spec fn derived_key(enckey: Seq<char>, secret: Seq<char>) -> Seq<char> {
    enckey + seq!['-'] + secret
}

/// The key that authenticates the response to init.
pub open spec fn init_key(s: Session) -> Seq<char> {
    s.secret
}

/// The key that authenticates the response to every later call.
pub open spec fn call_key(s: Session) -> Seq<char> {
    s.enckey_s
}

/// The fields that every call after init ends with.
pub open spec fn session_fields(s: Session) -> Seq<(Seq<char>, Seq<char>)> {
    seq![("sessionid"@, s.session_id), ("name"@, s.name), ("ownerid"@, s.owner_id)]
}

/// The fields of a call, in order.
pub open spec fn call_fields(s: Session, op: Operation) -> Seq<(Seq<char>, Seq<char>)> {
    seq![("type"@, op_type(op))] + op_fields(op) + session_fields(s)
}

/// The fields of init, in order.
pub open spec fn init_fields(s: Session, hash: Option<Seq<char>>) -> Seq<(Seq<char>, Seq<char>)> {
    seq![("type"@, "init"@)] + match hash {
        Some(h) => seq![("hash"@, h)],
        None => Seq::empty(),
    } + seq![("ver"@, s.version), ("name"@, s.name), ("ownerid"@, s.owner_id), ("enckey"@, s.enckey)]
}

/// The key derived from an ephemeral key and the shared secret.
pub fn derive_key(enckey: &str, secret: &str) -> (r: String)
    ensures
        r@ == derived_key(enckey@, secret@),
{
    let mut key = String::from_str(enckey);
    key.append("-");
    key.append(secret);
    proof {
        reveal_strlit("-");
    }
    key
}

/// Relies on `uuid::Uuid::new_v4` and its simple form: a random UUID written
/// as 32 hexadecimal digits.
#[verifier::external_body]
fn fresh_enckey() -> (r: String)
    ensures
        r@.len() == 32,
{
    uuid::Uuid::new_v4().simple().to_string()
}

/// Whether a reply's `signature` header is the signature of its body under `key`.
pub open spec fn authentic(reply: ReplyView, key: Seq<char>) -> bool {
    reply.signature == Some(signature_of(reply.body, key))
}

/// What a reply yields before its fields are read: the parsed document,
/// once the session is open and the signature under `key` checks out.
pub open spec fn screen(s: Session, key: Seq<char>, reply: ReplyView) -> Result<Json, Fault> {
    if s.terminated {
        Err(Fault::SessionClosed)
    } else if !authentic(reply, key) {
        Err(Fault::Tampered)
    } else {
        match parsed_json(reply.body) {
            Some(d) => Ok(d),
            None => Err(Fault::Malformed),
        }
    }
}

/// The session after a failed call: closed by a tampered reply, unchanged otherwise.
pub open spec fn after_fault(s: Session, f: Fault) -> Session {
    if f == Fault::Tampered {
        Session { terminated: true, ..s }
    } else {
        s
    }
}

pub open spec fn text_field(doc: Json, key: Seq<char>) -> Option<Seq<char>> {
    as_text(get(Some(doc), key))
}

pub open spec fn success_of(doc: Json) -> Option<bool> {
    as_boolean(get(Some(doc), "success"@))
}

pub open spec fn message_of(doc: Json) -> Option<Seq<char>> {
    text_field(doc, "message"@)
}

/// The fault of a reply that says `success: false`.
pub open spec fn rejection(doc: Json) -> Fault {
    match message_of(doc) {
        Some(m) => Fault::Rejected(m),
        None => Fault::Malformed,
    }
}

/// What a reply to a call after init yields: its document when it is
/// authentic, parses and reports success.
pub open spec fn verdict(s: Session, reply: ReplyView) -> Result<Json, Fault> {
    match screen(s, call_key(s), reply) {
        Err(f) => Err(f),
        Ok(doc) => match success_of(doc) {
            Some(true) => Ok(doc),
            Some(false) => Err(rejection(doc)),
            None => Err(Fault::Malformed),
        },
    }
}

pub open spec fn info_text(doc: Json, key: Seq<char>) -> Option<Seq<char>> {
    as_text(get(get(Some(doc), "info"@), key))
}

/// The first subscription listed for the account.
pub open spec fn primary_subscription(doc: Json) -> Option<Json> {
    get(get(get(Some(doc), "info"@), "subscriptions"@), "0"@)
}

pub open spec fn subscription_text(doc: Json, key: Seq<char>) -> Option<Seq<char>> {
    as_text(get(primary_subscription(doc), key))
}

pub open spec fn time_left_of(doc: Json) -> Option<i64> {
    as_int64(get(primary_subscription(doc), "timeleft"@))
}

/// A reply that carries the facts of a login.
pub open spec fn has_login_facts(doc: Json) -> bool {
    &&& info_text(doc, "ip"@) is Some
    &&& info_text(doc, "createdate"@) is Some
    &&& info_text(doc, "lastlogin"@) is Some
    &&& subscription_text(doc, "subscription"@) is Some
}

/// A reply that carries every account fact.
pub open spec fn has_account(doc: Json) -> bool {
    &&& has_login_facts(doc)
    &&& time_left_of(doc) is Some
    &&& subscription_text(doc, "expiry"@) is Some
}

/// The session with the facts of a login, and with `hwid` where one is given.
pub open spec fn with_login_facts(
    s: Session,
    doc: Json,
    username: Seq<char>,
    hwid: Option<Seq<char>>,
) -> Session {
    Session {
        username,
        hwid: if hwid is Some {
            hwid
        } else {
            s.hwid
        },
        ip: info_text(doc, "ip"@)->Some_0,
        create_date: info_text(doc, "createdate"@)->Some_0,
        last_login: info_text(doc, "lastlogin"@)->Some_0,
        subscription: subscription_text(doc, "subscription"@)->Some_0,
        ..s
    }
}

/// The session with every account fact of a reply.
pub open spec fn with_account(
    s: Session,
    doc: Json,
    username: Seq<char>,
    hwid: Option<Seq<char>>,
) -> Session {
    Session {
        sub_time_left: time_left_of(doc)->Some_0,
        expiry: subscription_text(doc, "expiry"@)->Some_0,
        ..with_login_facts(s, doc, username, hwid)
    }
}

/// The outcome of a call that stores the account facts of its reply.
pub open spec fn account_step(
    s: Session,
    reply: ReplyView,
    username: Option<Seq<char>>,
    hwid: Option<Seq<char>>,
) -> (Session, Result<(), Fault>) {
    match verdict(s, reply) {
        Err(f) => (after_fault(s, f), Err(f)),
        Ok(doc) => {
            let name = match username {
                Some(u) => u,
                None => info_text(doc, "username"@)->Some_0,
            };
            if has_account(doc) && (username is Some || info_text(doc, "username"@) is Some) {
                (with_account(s, doc, name, hwid), Ok(()))
            } else {
                (s, Err(Fault::Malformed))
            }
        },
    }
}

/// The outcome of a call that returns one text field of its reply.
pub open spec fn text_step(s: Session, reply: ReplyView, key: Seq<char>) -> (Session, Result<Seq<char>, Fault>) {
    match verdict(s, reply) {
        Err(f) => (after_fault(s, f), Err(f)),
        Ok(doc) => match text_field(doc, key) {
            Some(t) => (s, Ok(t)),
            None => (s, Err(Fault::Malformed)),
        },
    }
}

pub open spec fn unit_result<T>(r: Result<T, ApiError>) -> Result<(), Fault> {
    match r {
        Ok(_) => Ok(()),
        Err(e) => Err(e@),
    }
}

pub open spec fn text_result(r: Result<String, ApiError>) -> Result<Seq<char>, Fault> {
    match r {
        Ok(t) => Ok(t@),
        Err(e) => Err(e@),
    }
}

/// The error of a rejected init: an update is needed where the service
/// says `invalidver`.
pub open spec fn init_rejection(doc: Json) -> Fault {
    match message_of(doc) {
        Some(m) => if m == "invalidver"@ {
            match text_field(doc, "download"@) {
                Some(u) => Fault::NeedsUpdate(u),
                None => Fault::Malformed,
            }
        } else {
            Fault::Rejected(m)
        },
        None => Fault::Malformed,
    }
}

pub open spec fn app_text(doc: Json, key: Seq<char>) -> Option<Seq<char>> {
    as_text(get(get(Some(doc), "appinfo"@), key))
}

/// A reply to init that carries the session and the application's figures.
pub open spec fn has_app_info(doc: Json) -> bool {
    &&& text_field(doc, "sessionid"@) is Some
    &&& app_text(doc, "numKeys"@) is Some
    &&& app_text(doc, "numOnlineUsers"@) is Some
    &&& app_text(doc, "numUsers"@) is Some
}

/// The session after a successful init.
pub open spec fn with_app_info(s: Session, doc: Json) -> Session {
    Session {
        session_id: text_field(doc, "sessionid"@)->Some_0,
        num_keys: app_text(doc, "numKeys"@)->Some_0,
        num_online_users: app_text(doc, "numOnlineUsers"@)->Some_0,
        num_users: app_text(doc, "numUsers"@)->Some_0,
        customer_panel_link: match app_text(doc, "customerPanelLink"@) {
            Some(l) => l,
            None => Seq::empty(),
        },
        ..s
    }
}

/// What the reply to init yields.
pub open spec fn init_verdict(s: Session, reply: ReplyView) -> Result<Json, Fault> {
    if s.terminated {
        Err(Fault::SessionClosed)
    } else if reply.body == "KeyAuth_Invalid"@ {
        Err(Fault::UnknownApplication)
    } else {
        match screen(s, init_key(s), reply) {
            Err(f) => Err(f),
            Ok(doc) => match success_of(doc) {
                Some(true) => if has_app_info(doc) {
                    Ok(doc)
                } else {
                    Err(Fault::Malformed)
                },
                Some(false) => Err(init_rejection(doc)),
                None => Err(Fault::Malformed),
            },
        }
    }
}

/// The session after the reply to init.
pub open spec fn init_step(s: Session, reply: ReplyView) -> Session {
    match init_verdict(s, reply) {
        Ok(doc) => with_app_info(s, doc),
        Err(f) => after_fault(s, f),
    }
}

/// The outcome of a call that only reports success.
pub open spec fn plain_step(s: Session, reply: ReplyView) -> (Session, Result<(), Fault>) {
    match verdict(s, reply) {
        Err(f) => (after_fault(s, f), Err(f)),
        Ok(_) => (s, Ok(())),
    }
}

/// The outcome of a file download: the decoded `contents` of the reply.
pub open spec fn file_step(s: Session, reply: ReplyView) -> (Session, Result<Seq<u8>, Fault>) {
    match verdict(s, reply) {
        Err(f) => (after_fault(s, f), Err(f)),
        Ok(doc) => match text_field(doc, "contents"@) {
            Some(c) => if is_hex_text(c) {
                (s, Ok(bytes_of_hex(c)))
            } else {
                (s, Err(Fault::Malformed))
            },
            None => (s, Err(Fault::Malformed)),
        },
    }
}

/// The outcome of a call that answers with the `success` flag alone.
pub open spec fn flag_step(s: Session, reply: ReplyView) -> (Session, Result<bool, Fault>) {
    match screen(s, call_key(s), reply) {
        Err(f) => (after_fault(s, f), Err(f)),
        Ok(doc) => match success_of(doc) {
            Some(b) => (s, Ok(b)),
            None => (s, Err(Fault::Malformed)),
        },
    }
}

/// The outcome of a call that answers with a part of the reply's document.
pub open spec fn tree_step(s: Session, reply: ReplyView, key: Seq<char>) -> (Session, Result<Json, Fault>) {
    match verdict(s, reply) {
        Err(f) => (after_fault(s, f), Err(f)),
        Ok(doc) => match get(Some(doc), key) {
            Some(t) => (s, Ok(t)),
            None => (s, Err(Fault::Malformed)),
        },
    }
}

/// The outcome of setting a user variable: the service's message and flag
/// are stored as the last status whatever the flag says, and a `false` flag
/// fails with the message.
pub open spec fn setvar_step(s: Session, reply: ReplyView) -> (Session, Result<(), Fault>) {
    match screen(s, call_key(s), reply) {
        Err(f) => (after_fault(s, f), Err(f)),
        Ok(doc) => match (message_of(doc), success_of(doc)) {
            (Some(m), Some(b)) => (
                Session { message: m, success: b, ..s },
                if b {
                    Ok(())
                } else {
                    Err(Fault::Rejected(m))
                },
            ),
            _ => (s, Err(Fault::Malformed)),
        },
    }
}

/// The outcome of a browser login: the facts of a login under `username`.
pub open spec fn web_login_step(
    s: Session,
    reply: ReplyView,
    username: Seq<char>,
    hwid: Option<Seq<char>>,
) -> (Session, Result<(), Fault>) {
    match verdict(s, reply) {
        Err(f) => (after_fault(s, f), Err(f)),
        Ok(doc) => if has_login_facts(doc) {
            (with_login_facts(s, doc, username, hwid), Ok(()))
        } else {
            (s, Err(Fault::Malformed))
        },
    }
}

pub open spec fn result_of<T, V>(r: Result<T, ApiError>, f: spec_fn(T) -> V) -> Result<V, Fault> {
    match r {
        Ok(t) => Ok(f(t)),
        Err(e) => Err(e@),
    }
}

struct Account {
    ip: String,
    create_date: String,
    last_login: String,
    subscription: String,
    time_left: Option<i64>,
    expiry: Option<String>,
}

/// Reads the facts of a login from a reply, and the time left and expiry
/// of the first subscription where they are there.
fn read_account(doc: &serde_json::Value) -> (r: Option<Account>)
    ensures
        r is Some <==> has_login_facts(json_tree(*doc)),
        r matches Some(a) ==> {
            let d = json_tree(*doc);
            &&& a.ip@ == info_text(d, "ip"@)->Some_0
            &&& a.create_date@ == info_text(d, "createdate"@)->Some_0
            &&& a.last_login@ == info_text(d, "lastlogin"@)->Some_0
            &&& a.subscription@ == subscription_text(d, "subscription"@)->Some_0
            &&& a.time_left == time_left_of(d)
            &&& opt_view(a.expiry) == subscription_text(d, "expiry"@)
        },
{
    proof {
        reveal_strlit("info");
        reveal_strlit("ip");
        reveal_strlit("createdate");
        reveal_strlit("lastlogin");
        reveal_strlit("subscriptions");
        reveal_strlit("0");
        reveal_strlit("subscription");
        reveal_strlit("timeleft");
        reveal_strlit("expiry");
    }
    let info = get_in(Some(doc), "info");
    let sub = get_in(get_in(info, "subscriptions"), "0");
    let ip = text_in(get_in(info, "ip"));
    let create_date = text_in(get_in(info, "createdate"));
    let last_login = text_in(get_in(info, "lastlogin"));
    let subscription = text_in(get_in(sub, "subscription"));
    let time_left = i64_in(get_in(sub, "timeleft"));
    let expiry = text_in(get_in(sub, "expiry"));
    match (ip, create_date, last_login, subscription) {
        (Some(ip), Some(create_date), Some(last_login), Some(subscription)) => Some(
            Account { ip, create_date, last_login, subscription, time_left, expiry },
        ),
        _ => None,
    }
}

impl KeyauthApi {
    /// A session that is not initialized yet, for the given application.
    pub fn new(name: &str, owner_id: &str, secret: &str, version: &str, api_url: &str) -> (r: Self)
        ensures
            r@.name == name@,
            r@.owner_id == owner_id@,
            r@.secret == secret@,
            r@.version == version@,
            r@.app_version == version@,
            r@.api_url == api_url@,
            r@.enckey.len() == 0,
            r@.enckey_s.len() == 0,
            r@.session_id.len() == 0,
            !r@.terminated,
            r@.num_keys.len() == 0,
            r@.num_online_users.len() == 0,
            r@.num_users.len() == 0,
            r@.customer_panel_link.len() == 0,
            r@.username.len() == 0,
            r@.ip.len() == 0,
            r@.hwid is None,
            r@.create_date.len() == 0,
            r@.last_login.len() == 0,
            r@.subscription.len() == 0,
            r@.sub_time_left == 0,
            r@.expiry.len() == 0,
            r@.message.len() == 0,
            !r@.success,
            !r@.blacklisted,
            r@.response.len() == 0,
    {
        KeyauthApi {
            name: String::from_str(name),
            owner_id: String::from_str(owner_id),
            secret: String::from_str(secret),
            version: String::from_str(version),
            enckey: String::new(),
            enckey_s: String::new(),
            session_id: String::new(),
            terminated: false,
            api_url: String::from_str(api_url),
            num_keys: String::new(),
            num_online_users: String::new(),
            num_users: String::new(),
            app_version: String::from_str(version),
            customer_panel_link: String::new(),
            username: String::new(),
            ip: String::new(),
            hwid: None,
            create_date: String::new(),
            last_login: String::new(),
            subscription: String::new(),
            sub_time_left: 0,
            expiry: String::new(),
            message: String::new(),
            success: false,
            blacklisted: false,
            response: String::new(),
        }
    }

    /// The session identifier that the service issued at init; empty before.
    pub fn session_id(&self) -> (r: &String)
        ensures
            r@ == self@.session_id,
    {
        &self.session_id
    }

    /// The key that authenticates responses after init.
    pub fn call_key(&self) -> (r: &String)
        ensures
            r@ == call_key(self@),
    {
        &self.enckey_s
    }

    /// Whether a tampered response has closed the session.
    pub fn is_terminated(&self) -> (r: bool)
        ensures
            r == self@.terminated,
    {
        self.terminated
    }

    /// The request of a call after init, or `SessionClosed` once a tampered
    /// response has been seen.
    pub fn request(&self, op: &Operation) -> (r: Result<FormRequest, ApiError>)
        ensures
            self@.terminated ==> failed_with(r, Fault::SessionClosed),
            !self@.terminated ==> r is Ok && r->Ok_0@ == call_fields(self@, *op),
    {
        if self.terminated {
            return Err(ApiError::SessionClosed);
        }
        let mut fields: Vec<(String, String)> = Vec::new();
        let ghost empty = fields_view(fields@);
        assert(empty =~= Seq::empty());
        let kind = String::from_str(op_name(op));
        push_field(&mut fields, "type", &kind);
        let ghost head = fields_view(fields@);
        match op {
            Operation::Register { username, password, license, hwid } => {
                push_field(&mut fields, "username", username);
                push_field(&mut fields, "pass", password);
                push_field(&mut fields, "key", license);
                push_field(&mut fields, "hwid", hwid);
            },
            Operation::Upgrade { username, license } => {
                push_field(&mut fields, "username", username);
                push_field(&mut fields, "key", license);
            },
            Operation::Login { username, password, hwid } => {
                push_field(&mut fields, "username", username);
                push_field(&mut fields, "pass", password);
                push_field(&mut fields, "hwid", hwid);
            },
            Operation::License { license, hwid } => {
                push_field(&mut fields, "key", license);
                push_field(&mut fields, "hwid", hwid);
            },
            Operation::Var { varid } => {
                push_field(&mut fields, "varid", varid);
            },
            Operation::File { fileid } => {
                push_field(&mut fields, "fileid", fileid);
            },
            Operation::Webhook { webid, params } => {
                push_field(&mut fields, "webid", webid);
                push_field(&mut fields, "params", params);
            },
            Operation::ChatGet { channel } => {
                push_field(&mut fields, "channel", channel);
            },
            Operation::ChatSend { channel, message } => {
                push_field(&mut fields, "channel", channel);
                push_field(&mut fields, "message", message);
            },
            Operation::SetVar { var, data } => {
                push_field(&mut fields, "var", var);
                push_field(&mut fields, "data", data);
            },
            Operation::GetVar { var } => {
                push_field(&mut fields, "var", var);
            },
            Operation::Log { message, pcuser } => {
                push_field(&mut fields, "message", message);
                push_field(&mut fields, "pcuser", pcuser);
            },
            Operation::ChangeUsername { new_username } => {
                push_field(&mut fields, "newUsername", new_username);
            },
            Operation::WebLogin { username, token, hwid } => {
                push_field(&mut fields, "username", username);
                push_field(&mut fields, "token", token);
                push_field(&mut fields, "hwid", hwid);
            },
            _ => {},
        }
        assert(fields_view(fields@) =~= head + op_fields(*op));
        push_field(&mut fields, "sessionid", &self.session_id);
        push_field(&mut fields, "name", &self.name);
        push_field(&mut fields, "ownerid", &self.owner_id);
        assert(fields_view(fields@) =~= call_fields(self@, *op));
        Ok(FormRequest { fields })
    }

    /// Checks a reply's signature under the shared secret (`with_secret`) or
    /// the derived key, then parses its body. A missing or wrong signature
    /// closes the session.
    fn screen_reply(&mut self, reply: &Reply, with_secret: bool) -> (r: Result<serde_json::Value, ApiError>)
        ensures
            match screen(
                old(self)@,
                if with_secret {
                    init_key(old(self)@)
                } else {
                    call_key(old(self)@)
                },
                reply@,
            ) {
                Ok(doc) => r is Ok && json_tree(r->Ok_0) == doc && final(self)@ == old(self)@,
                Err(f) => failed_with(r, f) && final(self)@ == after_fault(old(self)@, f),
            },
    {
        if self.terminated {
            return Err(ApiError::SessionClosed);
        }
        let expected = if with_secret {
            make_hmac(reply.body.as_str(), self.secret.as_str())
        } else {
            make_hmac(reply.body.as_str(), self.enckey_s.as_str())
        };
        let genuine = match &reply.signature {
            Some(sig) => sig.eq(&expected),
            None => false,
        };
        if !genuine {
            self.terminated = true;
            return Err(ApiError::Tampered);
        }
        match parse_json(reply.body.as_str()) {
            Ok(doc) => Ok(doc),
            Err(_) => Err(ApiError::Malformed),
        }
    }

    /// Screens the reply to a call after init and reads its `success` flag:
    /// the document where it is true, the service's message where it is false.
    fn accept(&mut self, reply: &Reply) -> (r: Result<serde_json::Value, ApiError>)
        ensures
            match verdict(old(self)@, reply@) {
                Ok(doc) => r is Ok && json_tree(r->Ok_0) == doc && final(self)@ == old(self)@,
                Err(f) => failed_with(r, f) && final(self)@ == after_fault(old(self)@, f),
            },
    {
        let doc = match self.screen_reply(reply, false) {
            Ok(doc) => doc,
            Err(e) => return Err(e),
        };
        proof {
            reveal_strlit("success");
            reveal_strlit("message");
        }
        match bool_in(get_in(Some(&doc), "success")) {
            Some(true) => Ok(doc),
            Some(false) => match text_in(get_in(Some(&doc), "message")) {
                Some(m) => Err(ApiError::Rejected(m)),
                None => Err(ApiError::Malformed),
            },
            None => Err(ApiError::Malformed),
        }
    }

    /// Finishes a call whose answer is one text field of the reply.
    fn text_answer(&mut self, reply: &Reply, key: &str) -> (r: Result<String, ApiError>)
        requires
            plain_token(key@),
        ensures
            (final(self)@, text_result(r)) == text_step(old(self)@, reply@, key@),
    {
        let doc = match self.accept(reply) {
            Ok(doc) => doc,
            Err(e) => return Err(e),
        };
        match text_in(get_in(Some(&doc), key)) {
            Some(t) => Ok(t),
            None => Err(ApiError::Malformed),
        }
    }

    /// Starts init with the given ephemeral key: stores it and the key
    /// derived from it, and returns the init request.
    pub fn init_request(&mut self, enckey: String, hash: Option<String>) -> (r: Result<FormRequest, ApiError>)
        ensures
            old(self)@.terminated ==> failed_with(r, Fault::SessionClosed) && final(self)@ == old(self)@,
            !old(self)@.terminated ==> {
                &&& final(self)@ == Session {
                    enckey: enckey@,
                    enckey_s: derived_key(enckey@, old(self)@.secret),
                    ..old(self)@
                }
                &&& r is Ok
                &&& r->Ok_0@ == init_fields(final(self)@, opt_view(hash))
            },
    {
        if self.terminated {
            return Err(ApiError::SessionClosed);
        }
        self.enckey_s = derive_key(enckey.as_str(), self.secret.as_str());
        self.enckey = enckey;
        let mut fields: Vec<(String, String)> = Vec::new();
        assert(fields_view(fields@) =~= Seq::empty());
        let kind = String::from_str("init");
        push_field(&mut fields, "type", &kind);
        match &hash {
            Some(h) => push_field(&mut fields, "hash", h),
            None => {},
        }
        push_field(&mut fields, "ver", &self.version);
        push_field(&mut fields, "name", &self.name);
        push_field(&mut fields, "ownerid", &self.owner_id);
        push_field(&mut fields, "enckey", &self.enckey);
        assert(fields_view(fields@) =~= init_fields(self@, opt_view(hash)));
        Ok(FormRequest { fields })
    }

    /// Starts init with a fresh random ephemeral key.
    pub fn begin_init(&mut self, hash: Option<String>) -> (r: Result<FormRequest, ApiError>)
        ensures
            old(self)@.terminated ==> failed_with(r, Fault::SessionClosed) && final(self)@ == old(self)@,
            !old(self)@.terminated ==> {
                &&& final(self)@.enckey.len() == 32
                &&& final(self)@ == Session {
                    enckey: final(self)@.enckey,
                    enckey_s: derived_key(final(self)@.enckey, old(self)@.secret),
                    ..old(self)@
                }
                &&& r is Ok
                &&& r->Ok_0@ == init_fields(final(self)@, opt_view(hash))
            },
    {
        if self.terminated {
            return Err(ApiError::SessionClosed);
        }
        let enckey = fresh_enckey();
        self.init_request(enckey, hash)
    }

    /// Finishes init: the reply must be signed with the shared secret. On
    /// success the session takes the issued session identifier and the
    /// application's figures.
    pub fn init(&mut self, reply: &Reply) -> (r: Result<(), ApiError>)
        ensures
            final(self)@ == init_step(old(self)@, reply@),
            unit_result(r) == match init_verdict(old(self)@, reply@) {
                Ok(_) => Ok(()),
                Err(f) => Err(f),
            },
    {
        if self.terminated {
            return Err(ApiError::SessionClosed);
        }
        let invalid = String::from_str("KeyAuth_Invalid");
        if reply.body.eq(&invalid) {
            return Err(ApiError::UnknownApplication);
        }
        let doc = match self.screen_reply(reply, true) {
            Ok(doc) => doc,
            Err(e) => return Err(e),
        };
        proof {
            reveal_strlit("success");
            reveal_strlit("message");
            reveal_strlit("download");
            reveal_strlit("sessionid");
            reveal_strlit("appinfo");
            reveal_strlit("numKeys");
            reveal_strlit("numOnlineUsers");
            reveal_strlit("numUsers");
            reveal_strlit("customerPanelLink");
        }
        match bool_in(get_in(Some(&doc), "success")) {
            Some(true) => {
                let info = get_in(Some(&doc), "appinfo");
                let session_id = text_in(get_in(Some(&doc), "sessionid"));
                let num_keys = text_in(get_in(info, "numKeys"));
                let num_online_users = text_in(get_in(info, "numOnlineUsers"));
                let num_users = text_in(get_in(info, "numUsers"));
                let link = text_in(get_in(info, "customerPanelLink"));
                match (session_id, num_keys, num_online_users, num_users) {
                    (Some(session_id), Some(num_keys), Some(num_online_users), Some(num_users)) => {
                        self.session_id = session_id;
                        self.num_keys = num_keys;
                        self.num_online_users = num_online_users;
                        self.num_users = num_users;
                        self.customer_panel_link = match link {
                            Some(l) => l,
                            None => String::new(),
                        };
                        Ok(())
                    },
                    _ => Err(ApiError::Malformed),
                }
            },
            Some(false) => match text_in(get_in(Some(&doc), "message")) {
                Some(m) => {
                    let outdated = String::from_str("invalidver");
                    if m.eq(&outdated) {
                        match text_in(get_in(Some(&doc), "download")) {
                            Some(url) => Err(ApiError::NeedsUpdate(url)),
                            None => Err(ApiError::Malformed),
                        }
                    } else {
                        Err(ApiError::Rejected(m))
                    }
                },
                None => Err(ApiError::Malformed),
            },
            None => Err(ApiError::Malformed),
        }
    }

    /// Stores the facts of a verified successful reply.
    fn store_account(&mut self, username: String, hwid: Option<String>, a: Account)
        requires
            (a.time_left is Some),
            (a.expiry is Some),
        ensures
            final(self)@ == (Session {
                username: username@,
                hwid: if hwid is Some {
                    opt_view(hwid)
                } else {
                    old(self)@.hwid
                },
                ip: a.ip@,
                create_date: a.create_date@,
                last_login: a.last_login@,
                subscription: a.subscription@,
                sub_time_left: a.time_left->Some_0,
                expiry: opt_view(a.expiry)->Some_0,
                ..old(self)@
            }),
    {
        self.username = username;
        if hwid.is_some() {
            self.hwid = hwid;
        }
        self.ip = a.ip;
        self.create_date = a.create_date;
        self.last_login = a.last_login;
        self.subscription = a.subscription;
        match a.time_left {
            Some(t) => self.sub_time_left = t,
            None => {},
        }
        match a.expiry {
            Some(e) => self.expiry = e,
            None => {},
        }
    }

    /// Finishes register: stores the new account's facts under `username`.
    pub fn register(&mut self, username: String, reply: &Reply) -> (r: Result<(), ApiError>)
        ensures
            (final(self)@, unit_result(r)) == account_step(old(self)@, reply@, Some(username@), None),
    {
        let doc = match self.accept(reply) {
            Ok(doc) => doc,
            Err(e) => return Err(e),
        };
        match read_account(&doc) {
            Some(a) => if a.time_left.is_some() && a.expiry.is_some() {
                self.store_account(username, None, a);
                Ok(())
            } else {
                Err(ApiError::Malformed)
            },
            None => Err(ApiError::Malformed),
        }
    }

    /// Finishes login: stores the account's facts under `username`, and `hwid`.
    pub fn login(&mut self, username: String, hwid: String, reply: &Reply) -> (r: Result<(), ApiError>)
        ensures
            (final(self)@, unit_result(r)) == account_step(
                old(self)@,
                reply@,
                Some(username@),
                Some(hwid@),
            ),
    {
        let doc = match self.accept(reply) {
            Ok(doc) => doc,
            Err(e) => return Err(e),
        };
        match read_account(&doc) {
            Some(a) => if a.time_left.is_some() && a.expiry.is_some() {
                self.store_account(username, Some(hwid), a);
                Ok(())
            } else {
                Err(ApiError::Malformed)
            },
            None => Err(ApiError::Malformed),
        }
    }

    /// Finishes a license login: stores the account's facts under the
    /// username that the service reports, and `hwid`.
    pub fn license(&mut self, hwid: String, reply: &Reply) -> (r: Result<(), ApiError>)
        ensures
            (final(self)@, unit_result(r)) == account_step(old(self)@, reply@, None, Some(hwid@)),
    {
        let doc = match self.accept(reply) {
            Ok(doc) => doc,
            Err(e) => return Err(e),
        };
        proof {
            reveal_strlit("info");
            reveal_strlit("username");
        }
        let username = text_in(get_in(get_in(Some(&doc), "info"), "username"));
        match (read_account(&doc), username) {
            (Some(a), Some(username)) => if a.time_left.is_some() && a.expiry.is_some() {
                self.store_account(username, Some(hwid), a);
                Ok(())
            } else {
                Err(ApiError::Malformed)
            },
            _ => Err(ApiError::Malformed),
        }
    }

    /// Finishes upgrade.
    pub fn upgrade(&mut self, reply: &Reply) -> (r: Result<(), ApiError>)
        ensures
            (final(self)@, unit_result(r)) == plain_step(old(self)@, reply@),
    {
        match self.accept(reply) {
            Ok(_) => Ok(()),
            Err(e) => Err(e),
        }
    }

    /// Finishes reading a global variable: its value is the reply's message.
    pub fn var(&mut self, reply: &Reply) -> (r: Result<String, ApiError>)
        ensures
            (final(self)@, text_result(r)) == text_step(old(self)@, reply@, "message"@),
    {
        proof {
            reveal_strlit("message");
        }
        self.text_answer(reply, "message")
    }

    /// Finishes a file download: the reply's base-16 `contents`, decoded.
    pub fn file(&mut self, reply: &Reply) -> (r: Result<Vec<u8>, ApiError>)
        ensures
            (final(self)@, result_of(r, |b: Vec<u8>| b@)) == file_step(old(self)@, reply@),
    {
        let doc = match self.accept(reply) {
            Ok(doc) => doc,
            Err(e) => return Err(e),
        };
        proof {
            reveal_strlit("contents");
        }
        match text_in(get_in(Some(&doc), "contents")) {
            Some(c) => match decode_hex(c.as_str()) {
                Some(bytes) => Ok(bytes),
                None => Err(ApiError::Malformed),
            },
            None => Err(ApiError::Malformed),
        }
    }

    /// Finishes a webhook relay: the reply's message.
    pub fn webhook(&mut self, reply: &Reply) -> (r: Result<String, ApiError>)
        ensures
            (final(self)@, text_result(r)) == text_step(old(self)@, reply@, "message"@),
    {
        proof {
            reveal_strlit("message");
        }
        self.text_answer(reply, "message")
    }

    /// Finishes the blacklist check: `blacklisted` takes the reply's flag.
    pub fn checkblacklist(&mut self, reply: &Reply) -> (r: Result<(), ApiError>)
        ensures
            final(self)@ == match flag_step(old(self)@, reply@) {
                (t, Ok(b)) => Session { blacklisted: b, ..t },
                (t, Err(_)) => t,
            },
            unit_result(r) == match flag_step(old(self)@, reply@).1 {
                Ok(_) => Ok(()),
                Err(f) => Err(f),
            },
    {
        let doc = match self.screen_reply(reply, false) {
            Ok(doc) => doc,
            Err(e) => return Err(e),
        };
        proof {
            reveal_strlit("success");
        }
        match bool_in(get_in(Some(&doc), "success")) {
            Some(b) => {
                self.blacklisted = b;
                Ok(())
            },
            None => Err(ApiError::Malformed),
        }
    }

    /// Finishes the session check: whether the session is still valid.
    pub fn check_session(&mut self, reply: &Reply) -> (r: Result<bool, ApiError>)
        ensures
            (final(self)@, result_of(r, |b: bool| b)) == flag_step(old(self)@, reply@),
    {
        let doc = match self.screen_reply(reply, false) {
            Ok(doc) => doc,
            Err(e) => return Err(e),
        };
        proof {
            reveal_strlit("success");
        }
        match bool_in(get_in(Some(&doc), "success")) {
            Some(b) => Ok(b),
            None => Err(ApiError::Malformed),
        }
    }

    /// Finishes a call whose answer is one member of the reply's document.
    fn tree_answer(&mut self, reply: &Reply, key: &str) -> (r: Result<serde_json::Value, ApiError>)
        requires
            plain_token(key@),
        ensures
            (final(self)@, result_of(r, |v: serde_json::Value| json_tree(v))) == tree_step(
                old(self)@,
                reply@,
                key@,
            ),
    {
        let doc = match self.accept(reply) {
            Ok(doc) => doc,
            Err(e) => return Err(e),
        };
        match get_in(Some(&doc), key) {
            Some(v) => Ok(v.clone()),
            None => Err(ApiError::Malformed),
        }
    }

    /// Finishes the online list: the reply's `users`.
    pub fn fetch_online(&mut self, reply: &Reply) -> (r: Result<serde_json::Value, ApiError>)
        ensures
            (final(self)@, result_of(r, |v: serde_json::Value| json_tree(v))) == tree_step(
                old(self)@,
                reply@,
                "users"@,
            ),
    {
        proof {
            reveal_strlit("users");
        }
        self.tree_answer(reply, "users")
    }

    /// Finishes reading a chat channel: the reply's `messages`.
    pub fn get_chat(&mut self, reply: &Reply) -> (r: Result<serde_json::Value, ApiError>)
        ensures
            (final(self)@, result_of(r, |v: serde_json::Value| json_tree(v))) == tree_step(
                old(self)@,
                reply@,
                "messages"@,
            ),
    {
        proof {
            reveal_strlit("messages");
        }
        self.tree_answer(reply, "messages")
    }

    /// Finishes sending a chat message.
    pub fn send_chat_message(&mut self, reply: &Reply) -> (r: Result<(), ApiError>)
        ensures
            (final(self)@, unit_result(r)) == plain_step(old(self)@, reply@),
    {
        match self.accept(reply) {
            Ok(_) => Ok(()),
            Err(e) => Err(e),
        }
    }

    /// The request that bans the current user; its reply is not read.
    pub fn ban(&self) -> (r: Result<FormRequest, ApiError>)
        ensures
            self@.terminated ==> failed_with(r, Fault::SessionClosed),
            !self@.terminated ==> r is Ok && r->Ok_0@ == seq![("type"@, "ban"@)] + session_fields(self@),
    {
        let r = self.request(&Operation::Ban);
        proof {
            if !self@.terminated {
                assert(r->Ok_0@ =~= seq![("type"@, "ban"@)] + session_fields(self@));
            }
        }
        r
    }

    /// Finishes setting a user variable: stores the service's message and
    /// flag, and fails with the message where the flag is `false`.
    pub fn setvar(&mut self, reply: &Reply) -> (r: Result<(), ApiError>)
        ensures
            (final(self)@, unit_result(r)) == setvar_step(old(self)@, reply@),
    {
        let doc = match self.screen_reply(reply, false) {
            Ok(doc) => doc,
            Err(e) => return Err(e),
        };
        proof {
            reveal_strlit("success");
            reveal_strlit("message");
        }
        match (text_in(get_in(Some(&doc), "message")), bool_in(get_in(Some(&doc), "success"))) {
            (Some(m), Some(b)) => {
                self.message = m.clone();
                self.success = b;
                if b {
                    Ok(())
                } else {
                    Err(ApiError::Rejected(m))
                }
            },
            _ => Err(ApiError::Malformed),
        }
    }

    /// Finishes reading a user variable: the reply's `response`.
    pub fn getvar(&mut self, reply: &Reply) -> (r: Result<String, ApiError>)
        ensures
            (final(self)@, text_result(r)) == text_step(old(self)@, reply@, "response"@),
    {
        proof {
            reveal_strlit("response");
        }
        self.text_answer(reply, "response")
    }

    /// The request that logs `message` for `pcuser`, or for the current user
    /// where none is given; its reply is not read.
    pub fn log(&self, message: String, pcuser: Option<String>) -> (r: Result<FormRequest, ApiError>)
        ensures
            self@.terminated ==> failed_with(r, Fault::SessionClosed),
            !self@.terminated ==> r is Ok && r->Ok_0@ == seq![
                ("type"@, "log"@),
                ("message"@, message@),
                ("pcuser"@, match pcuser {
                    Some(u) => u@,
                    None => self@.username,
                }),
            ] + session_fields(self@),
    {
        let user = match pcuser {
            Some(u) => u,
            None => self.username.clone(),
        };
        let op = Operation::Log { message, pcuser: user };
        let r = self.request(&op);
        proof {
            if !self@.terminated {
                assert(r->Ok_0@ =~= call_fields(self@, op));
            }
        }
        r
    }

    /// Finishes a username change: the reply's message.
    pub fn change_username(&mut self, reply: &Reply) -> (r: Result<String, ApiError>)
        ensures
            (final(self)@, text_result(r)) == text_step(old(self)@, reply@, "message"@),
    {
        proof {
            reveal_strlit("message");
        }
        self.text_answer(reply, "message")
    }

    /// Finishes a browser login: stores the facts of a login under
    /// `username`, and `hwid` where one is given.
    pub fn web_login(&mut self, username: String, hwid: Option<String>, reply: &Reply) -> (r: Result<(), ApiError>)
        ensures
            (final(self)@, unit_result(r)) == web_login_step(
                old(self)@,
                reply@,
                username@,
                opt_view(hwid),
            ),
    {
        let doc = match self.accept(reply) {
            Ok(doc) => doc,
            Err(e) => return Err(e),
        };
        match read_account(&doc) {
            Some(a) => {
                self.username = username;
                if hwid.is_some() {
                    self.hwid = hwid;
                }
                self.ip = a.ip;
                self.create_date = a.create_date;
                self.last_login = a.last_login;
                self.subscription = a.subscription;
                Ok(())
            },
            None => Err(ApiError::Malformed),
        }
    }
}

} // verus!
