use base64::Engine;
use hmac::{KeyInit, Mac};
use webrtc_signaler::config::TurnConfig;
use webrtc_signaler::signaling::Signaler;

fn test_config() -> TurnConfig {
    TurnConfig {
        public_ip: String::from("1.2.3.4"),
        port: 19302,
        realm: String::from("flutter-webrtc"),
        username: String::from("user"),
        password: String::from("password"),
    }
}

const SHARED_KEY: &str = "flutter-webrtc-turn-server-shared-key";

fn expected_password(turn_username: &str) -> String {
    let mut mac = hmac::Hmac::<sha1::Sha1>::new_from_slice(SHARED_KEY.as_bytes()).unwrap();
    mac.update(turn_username.as_bytes());
    base64::engine::general_purpose::STANDARD.encode(mac.finalize().into_bytes())
}

#[test]
fn issue_at_fixed_instant_is_reproducible() {
    let mut s = Signaler::new(test_config());
    let c = s.issue_at("alice", 1700000000);
    assert_eq!(c.username, "1700000000:alice");
    assert_eq!(c.password, expected_password("1700000000:alice"));
    assert_eq!(c.ttl, 86400);
    assert_eq!(c.uris, vec![String::from("turn:1.2.3.4:19302?transport=udp")]);
}

#[test]
fn issue_then_validate_returns_same_password() {
    let mut s = Signaler::new(test_config());
    let c = s.issue_at("bob", 1000);
    let got = s.validate_at(&c.username, 1000);
    assert_eq!(got, Some(c.password.clone()));
    let later = s.validate_at(&c.username, 1000 + 86399);
    assert_eq!(later, Some(c.password));
}

#[test]
fn validate_expired_evicts_and_stays_empty() {
    let mut s = Signaler::new(test_config());
    let c = s.issue_at("bob", 1000);
    let expired = s.validate_at(&c.username, 1000 + 86400);
    assert_eq!(expired, None);
    let again = s.validate_at(&c.username, 1000);
    assert_eq!(again, None, "eviction is idempotent");
}

#[test]
fn validate_unknown_username_returns_nothing() {
    let mut s = Signaler::new(test_config());
    assert_eq!(s.validate_at(&String::from("nobody"), 0), None);
}

#[test]
fn issue_overwrites_same_second_entry() {
    let mut s = Signaler::new(test_config());
    let c1 = s.issue_at("carol", 42);
    let c2 = s.issue_at("carol", 42);
    assert_eq!(c1.username, c2.username);
    let got = s.validate_at(&c2.username, 42);
    assert_eq!(got, Some(c2.password));
}

#[test]
fn clocked_issue_validates_immediately() {
    let mut s = Signaler::new(test_config());
    let c = s.generate_turn_credentials("dave");
    assert!(c.username.ends_with(":dave"));
    let got = s.validate_turn_credentials(&c.username);
    assert_eq!(got, Some(c.password));
}
