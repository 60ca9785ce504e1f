use keyauth::api::{derive_key, ApiError, KeyauthApi, Operation, Reply};
use keyauth::callback::{button_matches, handshake_credentials};
use keyauth::form::FormRequest;
use keyauth::{decode_hex, encode_hex, make_hmac};

const SECRET: &str = "S";

fn signed(body: &str, key: &str) -> Reply {
    Reply { body: body.to_string(), signature: Some(make_hmac(body, key)) }
}

fn field<'a>(req: &'a FormRequest, key: &str) -> Option<&'a str> {
    req.fields.iter().find(|(k, _)| k == key).map(|(_, v)| v.as_str())
}

const INIT_OK: &str = r#"{"success":true,"message":"Initialized","sessionid":"abc123","appinfo":{"numKeys":"5","numOnlineUsers":"2","numUsers":"9","customerPanelLink":"https://panel"}}"#;

const LOGIN_OK: &str = r#"{"success":true,"message":"Logged in","info":{"username":"bob","ip":"1.2.3.4","createdate":"100","lastlogin":"200","subscriptions":[{"subscription":"premium","timeleft":86400,"expiry":"2030-01-01"},{"subscription":"basic","timeleft":5,"expiry":"2020-01-01"}]}}"#;

fn active() -> KeyauthApi {
    let mut api = KeyauthApi::new("App", "O", SECRET, "1.0", "https://example.invalid/api/1.2/");
    api.init_request("E".to_string(), None).unwrap();
    api.init(&signed(INIT_OK, SECRET)).unwrap();
    api
}

fn logged_in() -> KeyauthApi {
    let mut api = active();
    let key = api.call_key().clone();
    api.login("bob".to_string(), "hw".to_string(), &signed(LOGIN_OK, &key)).unwrap();
    api
}

#[test]
fn derived_key_is_ephemeral_dash_secret() {
    assert_eq!(derive_key("E", "S"), "E-S");
    let mut api = KeyauthApi::new("App", "O", "S", "1.0", "u");
    api.init_request("E".to_string(), None).unwrap();
    assert_eq!(api.call_key(), "E-S");
}

#[test]
fn new_session_is_empty() {
    let api = KeyauthApi::new("App", "O", "S", "1.0", "u");
    assert_eq!(api.session_id(), "");
    assert_eq!(api.app_version, "1.0");
    assert_eq!(api.api_url, "u");
    assert_eq!(api.sub_time_left, 0);
    assert!(api.hwid.is_none());
    assert!(!api.is_terminated());
}

#[test]
fn init_request_fields() {
    let mut api = KeyauthApi::new("App", "O", "S", "1.0", "u");
    let req = api.init_request("E".to_string(), Some("h".to_string())).unwrap();
    let keys: Vec<&str> = req.fields.iter().map(|(k, _)| k.as_str()).collect();
    assert_eq!(keys, vec!["type", "hash", "ver", "name", "ownerid", "enckey"]);
    assert_eq!(field(&req, "type"), Some("init"));
    assert_eq!(field(&req, "ver"), Some("1.0"));
    assert_eq!(field(&req, "name"), Some("App"));
    assert_eq!(field(&req, "ownerid"), Some("O"));
    assert_eq!(field(&req, "enckey"), Some("E"));
    assert_eq!(field(&req, "hash"), Some("h"));
}

#[test]
fn begin_init_draws_a_fresh_key() {
    let mut api = KeyauthApi::new("App", "O", "S", "1.0", "u");
    let req = api.begin_init(None).unwrap();
    let enckey = field(&req, "enckey").unwrap().to_string();
    assert_eq!(enckey.len(), 32);
    assert_eq!(api.call_key(), &format!("{}-S", enckey));
}

#[test]
fn init_stores_session_id() {
    let api = active();
    assert_eq!(api.session_id(), "abc123");
    assert_eq!(api.num_keys, "5");
    assert_eq!(api.num_online_users, "2");
    assert_eq!(api.num_users, "9");
    assert_eq!(api.customer_panel_link, "https://panel");
    assert!(!api.is_terminated());
}

#[test]
fn init_without_panel_link() {
    let body = r#"{"success":true,"sessionid":"x","appinfo":{"numKeys":"1","numOnlineUsers":"1","numUsers":"1"}}"#;
    let mut api = KeyauthApi::new("App", "O", SECRET, "1.0", "u");
    api.init_request("E".to_string(), None).unwrap();
    api.init(&signed(body, SECRET)).unwrap();
    assert_eq!(api.customer_panel_link, "");
}

#[test]
fn later_requests_carry_session_id() {
    let api = active();
    let req = api.request(&Operation::Var { varid: "v".to_string() }).unwrap();
    assert_eq!(field(&req, "sessionid"), Some("abc123"));
    assert_eq!(field(&req, "type"), Some("var"));
    let body = String::from_utf8(req.body()).unwrap();
    assert_eq!(body, "type=var&varid=v&sessionid=abc123&name=App&ownerid=O");
}

#[test]
fn form_body_escapes() {
    let req = FormRequest { fields: vec![("a b".to_string(), "x&y=z/é*-._".to_string())] };
    assert_eq!(String::from_utf8(req.body()).unwrap(), "a+b=x%26y%3Dz%2F%C3%A9*-._");
    let empty = FormRequest { fields: vec![] };
    assert!(empty.body().is_empty());
}

#[test]
fn login_stores_primary_subscription() {
    let api = logged_in();
    assert_eq!(api.subscription, "premium");
    assert_eq!(api.sub_time_left, 86400);
    assert_eq!(api.expiry, "2030-01-01");
    assert_eq!(api.username, "bob");
    assert_eq!(api.ip, "1.2.3.4");
    assert_eq!(api.create_date, "100");
    assert_eq!(api.last_login, "200");
    assert_eq!(api.hwid.as_deref(), Some("hw"));
}

#[test]
fn rejection_keeps_account_facts() {
    let mut api = logged_in();
    let key = api.call_key().clone();
    let body = r#"{"success":false,"message":"invalid"}"#;
    let err = api.login("eve".to_string(), "x".to_string(), &signed(body, &key)).unwrap_err();
    assert!(matches!(&err, ApiError::Rejected(m) if m == "invalid"));
    assert!(err.message().contains("invalid"));
    assert_eq!(api.username, "bob");
    assert_eq!(api.subscription, "premium");
    assert_eq!(api.sub_time_left, 86400);
    assert!(!api.is_terminated());
}

#[test]
fn tampered_body_closes_session() {
    let mut api = logged_in();
    let key = api.call_key().clone();
    let mut reply = signed(LOGIN_OK, &key);
    reply.body = reply.body.replace("premium", "platinum");
    let err = api.login("eve".to_string(), "x".to_string(), &reply).unwrap_err();
    assert!(matches!(err, ApiError::Tampered));
    assert_eq!(err.message(), "response was tampered with");
    assert!(api.is_terminated());
    assert_eq!(api.username, "bob");
    assert_eq!(api.subscription, "premium");
    assert!(matches!(api.request(&Operation::Check), Err(ApiError::SessionClosed)));
    assert!(matches!(api.ban(), Err(ApiError::SessionClosed)));
    let again = signed(LOGIN_OK, &key);
    assert!(matches!(api.login("bob".to_string(), "hw".to_string(), &again), Err(ApiError::SessionClosed)));
}

#[test]
fn missing_signature_is_tampering() {
    let mut api = active();
    let reply = Reply { body: LOGIN_OK.to_string(), signature: None };
    assert!(matches!(api.upgrade(&reply), Err(ApiError::Tampered)));
    assert!(api.is_terminated());
}

#[test]
fn keys_are_not_interchanged() {
    let mut api = active();
    let secret_signed = signed(r#"{"success":true,"message":"ok"}"#, SECRET);
    assert!(matches!(api.upgrade(&secret_signed), Err(ApiError::Tampered)));

    let mut fresh = KeyauthApi::new("App", "O", SECRET, "1.0", "u");
    fresh.init_request("E".to_string(), None).unwrap();
    let derived = fresh.call_key().clone();
    assert_ne!(derived, SECRET);
    assert!(matches!(fresh.init(&signed(INIT_OK, &derived)), Err(ApiError::Tampered)));
    assert_eq!(fresh.session_id(), "");
}

#[test]
fn unknown_application() {
    let mut api = KeyauthApi::new("App", "O", SECRET, "1.0", "u");
    api.init_request("E".to_string(), None).unwrap();
    let reply = Reply { body: "KeyAuth_Invalid".to_string(), signature: None };
    let err = api.init(&reply).unwrap_err();
    assert!(matches!(err, ApiError::UnknownApplication));
    assert_eq!(err.message(), "The application doesn't exist");
}

#[test]
fn outdated_version_needs_update() {
    let mut api = KeyauthApi::new("App", "O", SECRET, "0.9", "u");
    api.init_request("E".to_string(), None).unwrap();
    let body = r#"{"success":false,"message":"invalidver","download":"https://dl"}"#;
    let err = api.init(&signed(body, SECRET)).unwrap_err();
    assert!(matches!(&err, ApiError::NeedsUpdate(u) if u == "https://dl"));
    assert_eq!(err.message(), "invalidver");
    let other = r#"{"success":false,"message":"paused"}"#;
    assert!(matches!(api.init(&signed(other, SECRET)), Err(ApiError::Rejected(m)) if m == "paused"));
}

#[test]
fn malformed_replies() {
    let mut api = active();
    let key = api.call_key().clone();
    assert!(matches!(api.upgrade(&signed("not json", &key)), Err(ApiError::Malformed)));
    assert!(matches!(api.upgrade(&signed(r#"{"message":"x"}"#, &key)), Err(ApiError::Malformed)));
    let partial = r#"{"success":true,"info":{"ip":"1"}}"#;
    assert!(matches!(api.login("a".to_string(), "h".to_string(), &signed(partial, &key)), Err(ApiError::Malformed)));
    assert_eq!(api.username, "");
    assert!(!api.is_terminated());
}

#[test]
fn register_and_license() {
    let mut api = active();
    let key = api.call_key().clone();
    api.register("ann".to_string(), &signed(LOGIN_OK, &key)).unwrap();
    assert_eq!(api.username, "ann");
    assert!(api.hwid.is_none());
    api.license("hw2".to_string(), &signed(LOGIN_OK, &key)).unwrap();
    assert_eq!(api.username, "bob");
    assert_eq!(api.hwid.as_deref(), Some("hw2"));
}

#[test]
fn web_login_stores_login_facts() {
    let mut api = active();
    let key = api.call_key().clone();
    let req = api
        .request(&Operation::WebLogin { username: "bob".to_string(), token: "t".to_string(), hwid: "hw".to_string() })
        .unwrap();
    assert_eq!(field(&req, "token"), Some("t"));
    api.web_login("bob".to_string(), None, &signed(LOGIN_OK, &key)).unwrap();
    assert_eq!(api.subscription, "premium");
    assert_eq!(api.sub_time_left, 0);
    assert!(api.hwid.is_none());
}

#[test]
fn text_answers() {
    let mut api = active();
    let key = api.call_key().clone();
    let msg = r#"{"success":true,"message":"value","response":"uservalue"}"#;
    assert_eq!(api.var(&signed(msg, &key)).unwrap(), "value");
    assert_eq!(api.webhook(&signed(msg, &key)).unwrap(), "value");
    assert_eq!(api.change_username(&signed(msg, &key)).unwrap(), "value");
    assert_eq!(api.getvar(&signed(msg, &key)).unwrap(), "uservalue");
    api.send_chat_message(&signed(msg, &key)).unwrap();
}

#[test]
fn file_contents_are_decoded() {
    let mut api = active();
    let key = api.call_key().clone();
    let body = r#"{"success":true,"contents":"48656C6c6f"}"#;
    assert_eq!(api.file(&signed(body, &key)).unwrap(), b"Hello".to_vec());
    let bad = r#"{"success":true,"contents":"4865x"}"#;
    assert!(matches!(api.file(&signed(bad, &key)), Err(ApiError::Malformed)));
}

#[test]
fn hex_round_trip() {
    let data: Vec<u8> = (0u8..=255).collect();
    let text = encode_hex(&data);
    assert_eq!(&text[..6], "000102");
    assert_eq!(&text[text.len() - 2..], "ff");
    assert_eq!(decode_hex(&text), Some(data));
    assert_eq!(decode_hex(""), Some(vec![]));
    assert_eq!(decode_hex("abc"), None);
    assert_eq!(decode_hex("zz"), None);
}

#[test]
fn hmac_matches_known_vector() {
    assert_eq!(
        make_hmac("The quick brown fox jumps over the lazy dog", "key"),
        "f7bc83f430538424b13298e6aa6fb143ef4d59a14946175997479dbc2d1a3cd8"
    );
    let sig = make_hmac("", "");
    assert_eq!(sig.len(), 64);
    assert!(sig.chars().all(|c| c.is_ascii_digit() || ('a'..='f').contains(&c)));
    assert_ne!(make_hmac("m", "k"), make_hmac("k", "m"));
}

#[test]
fn flags_and_blacklist() {
    let mut api = active();
    let key = api.call_key().clone();
    let yes = r#"{"success":true,"message":"m"}"#;
    let no = r#"{"success":false,"message":"m"}"#;
    assert_eq!(api.check_session(&signed(yes, &key)).unwrap(), true);
    assert_eq!(api.check_session(&signed(no, &key)).unwrap(), false);
    api.checkblacklist(&signed(yes, &key)).unwrap();
    assert!(api.blacklisted);
    api.checkblacklist(&signed(no, &key)).unwrap();
    assert!(!api.blacklisted);
}

#[test]
fn setvar_stores_status_and_reports_rejection() {
    let mut api = logged_in();
    let key = api.call_key().clone();
    let yes = r#"{"success":true,"message":"Successfully set variable"}"#;
    api.setvar(&signed(yes, &key)).unwrap();
    assert_eq!(api.message, "Successfully set variable");
    assert!(api.success);
    let no = r#"{"success":false,"message":"invalid"}"#;
    let err = api.setvar(&signed(no, &key)).unwrap_err();
    assert!(matches!(&err, ApiError::Rejected(m) if m == "invalid"));
    assert_eq!(api.message, "invalid");
    assert!(!api.success);
    assert_eq!(api.username, "bob");
    assert_eq!(api.subscription, "premium");
    assert!(!api.is_terminated());
}

#[test]
fn documents_are_returned() {
    let mut api = active();
    let key = api.call_key().clone();
    let body = r#"{"success":true,"users":[{"credential":"a"}],"messages":[]}"#;
    let users = api.fetch_online(&signed(body, &key)).unwrap();
    assert_eq!(users.to_string(), r#"[{"credential":"a"}]"#);
    let msgs = api.get_chat(&signed(body, &key)).unwrap();
    assert_eq!(msgs.to_string(), "[]");
    let none = r#"{"success":true}"#;
    assert!(matches!(api.fetch_online(&signed(none, &key)), Err(ApiError::Malformed)));
}

#[test]
fn ban_and_log_requests() {
    let api = logged_in();
    let ban = api.ban().unwrap();
    let body = String::from_utf8(ban.body()).unwrap();
    assert_eq!(body, "type=ban&sessionid=abc123&name=App&ownerid=O");
    let log = api.log("hi there".to_string(), None).unwrap();
    assert_eq!(field(&log, "pcuser"), Some("bob"));
    let log = api.log("hi".to_string(), Some("pc".to_string())).unwrap();
    assert_eq!(field(&log, "pcuser"), Some("pc"));
    assert_eq!(field(&log, "message"), Some("hi"));
}

#[test]
fn handshake_path_parts() {
    assert_eq!(
        handshake_credentials("/handshake?user=bob&token=t0k"),
        Some(("bob".to_string(), "t0k".to_string()))
    );
    assert_eq!(handshake_credentials("/handshake?user=&token="), Some((String::new(), String::new())));
    assert_eq!(
        handshake_credentials("/handshake?user=a&token=b&token=c"),
        Some(("a&token=b".to_string(), "b&token=c".to_string()))
    );
    assert_eq!(handshake_credentials("/other?user=bob&token=t"), None);
    assert_eq!(handshake_credentials("/handshake?token=t"), None);
    assert_eq!(handshake_credentials("/handshake?user=bob"), None);
    assert!(button_matches("/close?x=1", "close"));
    assert!(!button_matches("/clos", "close"));
    assert!(!button_matches("close", "close"));
}

#[test]
fn session_id_survives_later_calls() {
    let mut api = logged_in();
    let key = api.call_key().clone();
    let ok = r#"{"success":true,"message":"ok","sessionid":"zzz"}"#;
    api.upgrade(&signed(ok, &key)).unwrap();
    let no = r#"{"success":false,"message":"nope"}"#;
    assert!(api.var(&signed(no, &key)).is_err());
    api.checkblacklist(&signed(ok, &key)).unwrap();
    let req = api.request(&Operation::Var { varid: "v".to_string() }).unwrap();
    assert_eq!(field(&req, "sessionid"), Some("abc123"));
    assert_eq!(api.session_id(), "abc123");
}

#[test]
fn closed_session_refuses_every_call() {
    let mut api = logged_in();
    let key = api.call_key().clone();
    let mut forged = signed(r#"{"success":true,"message":"value"}"#, &key);
    forged.body = forged.body.replace("value", "other");
    assert!(matches!(api.var(&forged), Err(ApiError::Tampered)));
    let ok = signed(r#"{"success":true,"message":"value","response":"r"}"#, &key);
    assert!(matches!(api.var(&ok), Err(ApiError::SessionClosed)));
    assert!(matches!(api.getvar(&ok), Err(ApiError::SessionClosed)));
    assert!(matches!(api.setvar(&ok), Err(ApiError::SessionClosed)));
    assert!(matches!(api.check_session(&ok), Err(ApiError::SessionClosed)));
    assert!(matches!(api.init(&signed(INIT_OK, SECRET)), Err(ApiError::SessionClosed)));
    assert!(matches!(api.log("x".to_string(), None), Err(ApiError::SessionClosed)));
    assert_eq!(api.message, "");
    assert_eq!(api.username, "bob");
    assert_eq!(api.sub_time_left, 86400);
    assert!(api.is_terminated());
}
