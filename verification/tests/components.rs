//! Component-level checks: the cookie codec, the stores, the configuration
//! and manifest parsing, and the token comparison.

use kore_douyo::config::AppConfig;
use kore_douyo::cookie::{clear_session_cookie, encode_session_cookie, parse_session_id};
use kore_douyo::csrf::middleware::constant_time_str_eq;
use kore_douyo::manifest::{javascript_filename, read_manifest};
use kore_douyo::models::session::Session;
use kore_douyo::repositories::session_repository::SessionRepository;
use kore_douyo::repositories::user_repository::UserRepository;
use kore_douyo::repositories::StoreError;

#[test]
fn cookie_encoding_is_exact() {
    assert_eq!(
        encode_session_cookie("U1"),
        "session_id=U1; HttpOnly; Secure; SameSite=Lax; Path=/; Max-Age=2592000"
    );
}

#[test]
fn clear_cookie_is_exact() {
    assert_eq!(
        clear_session_cookie(),
        "session_id=; HttpOnly; Secure; SameSite=Lax; Path=/; Max-Age=0"
    );
}

#[test]
fn cookie_parse_finds_the_pair() {
    assert_eq!(parse_session_id("session_id=abc"), Some("abc"));
    assert_eq!(parse_session_id("a=1; session_id=abc; b=2"), Some("abc"));
    assert_eq!(parse_session_id("  session_id=xyz  "), Some("xyz"));
    assert_eq!(parse_session_id("theme=dark;session_id=u-1"), Some("u-1"));
}

#[test]
fn cookie_parse_returns_first_match() {
    assert_eq!(parse_session_id("session_id=a; session_id=b"), Some("a"));
}

#[test]
fn cookie_parse_is_case_sensitive() {
    assert_eq!(parse_session_id("Session_id=a"), None);
    assert_eq!(parse_session_id("SESSION_ID=a"), None);
}

#[test]
fn cookie_parse_misses() {
    assert_eq!(parse_session_id(""), None);
    assert_eq!(parse_session_id("theme=dark; lang=en"), None);
    assert_eq!(parse_session_id("xsession_id=a"), None);
    assert_eq!(parse_session_id(";;;"), None);
}

#[test]
fn cookie_parse_trims_unicode_whitespace() {
    assert_eq!(parse_session_id("\u{2000}session_id=x\u{3000}"), Some("x"));
    assert_eq!(parse_session_id("a=1;\u{a0}session_id=y\u{85}; b=2"), Some("y"));
}

#[test]
fn cookie_parse_empty_value() {
    assert_eq!(parse_session_id("session_id="), Some(""));
}

#[test]
fn cookie_round_trip_on_encoded_value() {
    let cookie = encode_session_cookie("0f8fad5b-d9cb-469f-a165-70867728950e");
    assert_eq!(
        parse_session_id(cookie.as_str()),
        Some("0f8fad5b-d9cb-469f-a165-70867728950e")
    );
}

#[test]
fn session_new_fills_the_record() {
    let s = Session::new(7, Some("phone".to_string()), Some("203.0.113.9".to_string()));
    assert_eq!(s.id, 0);
    assert_eq!(s.user_id, 7);
    assert_eq!(s.uuid.len(), 36);
    assert_eq!(s.csrf_token.len(), 36);
    assert_ne!(s.uuid, s.csrf_token);
    assert!(s
        .uuid
        .chars()
        .all(|c| c == '-' || c.is_ascii_digit() || ('a'..='f').contains(&c)));
    assert_eq!(s.issued_at, s.created_at);
    assert_eq!(s.updated_at, s.created_at);
    assert_eq!(s.device_info.as_deref(), Some("phone"));
    assert_eq!(s.ip_address.as_deref(), Some("203.0.113.9"));
}

#[test]
fn fresh_sessions_draw_fresh_tokens() {
    let a = Session::new(1, None, None);
    let b = Session::new(1, None, None);
    assert_ne!(a.uuid, b.uuid);
    assert_ne!(a.csrf_token, b.csrf_token);
}

#[test]
fn user_store_creates_and_finds() {
    let mut users = UserRepository::new();
    let id = users.create("a@x.com", "hash-1").unwrap();
    assert!(id >= 1);
    let by_email = users.find_by_email("a@x.com").unwrap();
    assert_eq!(by_email.id, id);
    assert_eq!(by_email.password, "hash-1");
    assert_eq!(by_email.created_at, by_email.updated_at);
    let by_id = users.find_by_id(id).unwrap();
    assert_eq!(by_id.email, "a@x.com");
    assert!(users.exists_by_email("a@x.com"));
    assert!(!users.exists_by_email("b@x.com"));
    assert_eq!(users.find_by_email("A@X.COM").map(|u| u.id), None);
}

#[test]
fn user_store_rejects_duplicate_email() {
    let mut users = UserRepository::new();
    users.create("a@x.com", "h1").unwrap();
    assert_eq!(users.create("a@x.com", "h2"), Err(StoreError::Conflict));
}

#[test]
fn user_store_get_by_id_reports_absence() {
    let users = UserRepository::new();
    assert_eq!(users.get_by_id(42).unwrap_err(), StoreError::NotFound);
}

#[test]
fn user_store_updates_password() {
    let mut users = UserRepository::new();
    let id = users.create("a@x.com", "old-hash").unwrap();
    users.update_password(id, "new-hash").unwrap();
    assert_eq!(users.find_by_id(id).unwrap().password, "new-hash");
    // updating an absent id is not an error and changes nothing
    users.update_password(id + 1, "other").unwrap();
    assert_eq!(users.find_by_id(id).unwrap().password, "new-hash");
}

#[test]
fn session_store_creates_and_finds() {
    let mut sessions = SessionRepository::new();
    let record = Session::new(5, None, None);
    let id = sessions.create(&record).unwrap();
    assert!(id >= 1);
    let found = sessions.find_by_uuid(record.uuid.as_str()).unwrap();
    assert_eq!(found.id, id);
    assert_eq!(found.user_id, 5);
    assert_eq!(found.csrf_token, record.csrf_token);
    assert!(sessions.find_by_uuid("absent").is_none());
}

#[test]
fn session_store_rejects_duplicate_tokens() {
    let mut sessions = SessionRepository::new();
    let record = Session::new(5, None, None);
    sessions.create(&record).unwrap();
    assert_eq!(sessions.create(&record), Err(StoreError::Conflict));
}

#[test]
fn session_store_delete_by_uuid_is_idempotent() {
    let mut sessions = SessionRepository::new();
    let record = Session::new(5, None, None);
    sessions.create(&record).unwrap();
    sessions.delete_by_uuid(record.uuid.as_str());
    assert!(sessions.find_by_uuid(record.uuid.as_str()).is_none());
    sessions.delete_by_uuid(record.uuid.as_str());
    sessions.delete_by_uuid("never-existed");
}

#[test]
fn session_store_bulk_delete_touches_one_user_only() {
    let mut sessions = SessionRepository::new();
    let mine_a = Session::new(1, None, None);
    let mine_b = Session::new(1, None, None);
    let theirs = Session::new(2, None, None);
    sessions.create(&mine_a).unwrap();
    sessions.create(&mine_b).unwrap();
    sessions.create(&theirs).unwrap();
    sessions.delete_by_user_id(1);
    assert!(sessions.find_by_uuid(mine_a.uuid.as_str()).is_none());
    assert!(sessions.find_by_uuid(mine_b.uuid.as_str()).is_none());
    assert!(sessions.find_by_uuid(theirs.uuid.as_str()).is_some());
}

#[test]
fn constant_time_comparison_agrees_with_equality() {
    assert!(constant_time_str_eq("", ""));
    assert!(constant_time_str_eq("token", "token"));
    assert!(!constant_time_str_eq("token", "tokem"));
    assert!(!constant_time_str_eq("token", "toke"));
    assert!(!constant_time_str_eq("", "x"));
    assert!(constant_time_str_eq("0f8fad5b", "0f8fad5b"));
}

#[test]
fn default_configuration_values() {
    let c = AppConfig::default();
    assert_eq!(c.database.url, "sqlite:kore-douyo.sqlite3");
    assert_eq!(c.server.host, "0.0.0.0");
    assert_eq!(c.server.port, 8080);
    assert!(c.server.base_url.is_none());
    assert!(c.debug.is_none());
}

#[test]
fn configuration_parses_from_toml_text() {
    let text = "\
[database]\n\
url = \"sqlite:test.db\"\n\
\n\
[server]\n\
host = \"127.0.0.1\"\n\
port = 3000\n\
base_url = \"https://example.test\"\n\
\n\
[debug]\n\
inject_sleep = true\n\
sleep_millis = 250\n";
    let c = AppConfig::load(text).unwrap();
    assert_eq!(c.database.url, "sqlite:test.db");
    assert_eq!(c.server.host, "127.0.0.1");
    assert_eq!(c.server.port, 3000);
    assert_eq!(c.server.base_url.as_deref(), Some("https://example.test"));
    let debug = c.debug.unwrap();
    assert!(debug.inject_sleep);
    assert_eq!(debug.sleep_millis, 250);
}

#[test]
fn configuration_falls_back_to_default() {
    let c = AppConfig::load_or_default("not valid toml [");
    assert_eq!(c.database.url, "sqlite:kore-douyo.sqlite3");
    assert_eq!(c.server.port, 8080);
    let missing_port = "[database]\nurl = \"sqlite:test.db\"\n[server]\nhost = \"h\"\n";
    assert!(AppConfig::load(missing_port).is_none());
    let bad_port = "[database]\nurl = \"u\"\n[server]\nhost = \"h\"\nport = 99999\n";
    assert!(AppConfig::load(bad_port).is_none());
}

#[test]
fn manifest_lookup_finds_the_script() {
    let manifest = "{\"src/main.tsx\": {\"file\": \"assets/main-abc123.js\", \"isEntry\": true}}";
    assert_eq!(
        javascript_filename(manifest),
        Some("assets/main-abc123.js".to_string())
    );
}

#[test]
fn manifest_lookup_misses() {
    assert_eq!(javascript_filename("not json"), None);
    assert_eq!(javascript_filename("{}"), None);
    let manifest = "{\"src/main.tsx\": {\"file\": 42}}";
    assert_eq!(javascript_filename(manifest), None);
    let other = "{\"src/other.tsx\": {\"file\": \"assets/x.js\"}}";
    assert_eq!(read_manifest(other, "$[\"src/other.tsx\"].file"), Some("assets/x.js".to_string()));
}
