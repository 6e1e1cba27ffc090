use webrtc_signaler::config::{Config, GeneralConfig, TurnConfig};
use webrtc_signaler::text::{parse_u16, split_two, str_eq, u64_to_dec};

fn pairs(kv: &[(&str, &str)]) -> Vec<(String, String)> {
    kv.iter().map(|(k, v)| (String::from(*k), String::from(*v))).collect()
}

#[test]
fn general_defaults_apply_when_section_is_empty() {
    let g = GeneralConfig::from_pairs(&Vec::new());
    assert_eq!(g.domain, "localhost");
    assert_eq!(g.cert, "configs/certs/cert.pem");
    assert_eq!(g.key, "configs/certs/key.pem");
    assert_eq!(g.bind, "0.0.0.0");
    assert_eq!(g.port, 8086);
    assert_eq!(g.html_root, "web");
}

#[test]
fn turn_defaults_apply_when_section_is_empty() {
    let t = TurnConfig::from_pairs(&Vec::new());
    assert_eq!(t.public_ip, "127.0.0.1");
    assert_eq!(t.port, 19302);
    assert_eq!(t.realm, "flutter-webrtc");
    assert_eq!(t.username, "user");
    assert_eq!(t.password, "password");
}

#[test]
fn explicit_values_override_defaults() {
    let g = GeneralConfig::from_pairs(&pairs(&[
        ("domain", "example.org"),
        ("port", "9000"),
        ("html_root", "public"),
    ]));
    assert_eq!(g.domain, "example.org");
    assert_eq!(g.port, 9000);
    assert_eq!(g.html_root, "public");
    assert_eq!(g.bind, "0.0.0.0");
}

#[test]
fn unparsable_port_falls_back_to_default() {
    let t = TurnConfig::from_pairs(&pairs(&[("port", "not-a-port")]));
    assert_eq!(t.port, 19302);
    let t = TurnConfig::from_pairs(&pairs(&[("port", "70000")]));
    assert_eq!(t.port, 19302);
    let t = TurnConfig::from_pairs(&pairs(&[("port", "")]));
    assert_eq!(t.port, 19302);
    let t = TurnConfig::from_pairs(&pairs(&[("port", "65535")]));
    assert_eq!(t.port, 65535);
}

#[test]
fn config_from_both_sections() {
    let c = Config::from_sections(
        &pairs(&[("bind", "127.0.0.1")]),
        &pairs(&[("public_ip", "9.9.9.9"), ("port", "3478")]),
    );
    assert_eq!(c.general.bind, "127.0.0.1");
    assert_eq!(c.turn.public_ip, "9.9.9.9");
    assert_eq!(c.turn.port, 3478);
}

#[test]
fn parse_u16_edges() {
    assert_eq!(parse_u16("0"), Some(0));
    assert_eq!(parse_u16("8086"), Some(8086));
    assert_eq!(parse_u16("65535"), Some(65535));
    assert_eq!(parse_u16("65536"), None);
    assert_eq!(parse_u16(""), None);
    assert_eq!(parse_u16("12a"), None);
    assert_eq!(parse_u16("-1"), None);
}

#[test]
fn split_two_shapes() {
    assert_eq!(
        split_two("a-b"),
        Some((String::from("a"), String::from("b")))
    );
    assert_eq!(split_two("abc"), None);
    assert_eq!(split_two("a-b-c"), None);
    assert_eq!(split_two("a-"), Some((String::from("a"), String::new())));
    assert_eq!(split_two("-b"), Some((String::new(), String::from("b"))));
}

#[test]
fn decimal_rendering() {
    assert_eq!(u64_to_dec(0), "0");
    assert_eq!(u64_to_dec(7), "7");
    assert_eq!(u64_to_dec(1700000000), "1700000000");
    assert_eq!(u64_to_dec(u64::MAX), "18446744073709551615");
}

#[test]
fn string_equality_helper() {
    assert!(str_eq("", ""));
    assert!(str_eq("abc", "abc"));
    assert!(!str_eq("abc", "abd"));
    assert!(!str_eq("abc", "ab"));
}
