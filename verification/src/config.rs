//! Server and relay settings, and their construction from the key/value
//! pairs of a configuration file's sections.
//!
//! The surrounding process reads and parses the file; this module owns the
//! defaulting rules: each field falls back to its documented default when
//! its key is absent, and a port falls back when its value is not a valid
//! port numeral.

use vstd::prelude::*;
use crate::text::{parse_u16, spec_parse_u16};

verus! {

/// General server settings.
#[derive(Debug, Clone)]
pub struct GeneralConfig {
    pub domain: String,
    pub cert: String,
    pub key: String,
    pub bind: String,
    pub port: u16,
    pub html_root: String,
}

/// Relay (TURN) settings.
#[derive(Debug, Clone)]
pub struct TurnConfig {
    pub public_ip: String,
    pub port: u16,
    pub realm: String,
    pub username: String,
    pub password: String,
}

/// The whole configuration.
#[derive(Debug, Clone)]
pub struct Config {
    pub general: GeneralConfig,
    pub turn: TurnConfig,
}

/// The value under the first occurrence of `k` among the pairs, if any.
pub open spec fn spec_lookup(s: Seq<(String, String)>, k: Seq<char>) -> Option<Seq<char>>
    decreases s.len(),
{
    if s.len() == 0 {
        None
    } else if s[0].0@ == k {
        Some(s[0].1@)
    } else {
        spec_lookup(s.drop_first(), k)
    }
}

/// A string field's value: the entry under `k`, or the default.
pub open spec fn spec_field(s: Seq<(String, String)>, k: Seq<char>, dflt: Seq<char>) -> Seq<char> {
    match spec_lookup(s, k) {
        Some(v) => v,
        None => dflt,
    }
}

/// A port field's value: the entry under `k` read as a port numeral, or the
/// default when the key is absent or its value does not parse.
pub open spec fn spec_port_field(s: Seq<(String, String)>, k: Seq<char>, dflt: u16) -> u16 {
    match spec_lookup(s, k) {
        Some(v) => match spec_parse_u16(v) {
            Some(p) => p,
            None => dflt,
        },
        None => dflt,
    }
}

/// First-match lookup among a section's key/value pairs.
pub fn lookup<'a>(pairs: &'a Vec<(String, String)>, key: &str) -> (r: Option<&'a String>)
    ensures
        match r {
            Some(v) => spec_lookup(pairs@, key@) == Some(v@),
            None => spec_lookup(pairs@, key@) is None,
        },
{
    let n = pairs.len();
    let mut i: usize = 0;
    proof {
        assert(pairs@.skip(0) =~= pairs@);
    }
    while i < n
        invariant
            i <= n,
            n == pairs@.len(),
            spec_lookup(pairs@, key@) == spec_lookup(pairs@.skip(i as int), key@),
        decreases n - i,
    {
        let e = &pairs[i];
        proof {
            assert(pairs@.skip(i as int)[0] == pairs@[i as int]);
            assert(pairs@.skip(i as int).drop_first() =~= pairs@.skip(i + 1));
        }
        if crate::text::str_eq(e.0.as_str(), key) {
            return Some(&pairs[i].1);
        }
        i = i + 1;
    }
    proof {
        assert(pairs@.skip(n as int) =~= Seq::<(String, String)>::empty());
    }
    None
}

fn field(pairs: &Vec<(String, String)>, key: &str, dflt: &str) -> (r: String)
    ensures
        r@ == spec_field(pairs@, key@, dflt@),
{
    match lookup(pairs, key) {
        Some(v) => v.clone(),
        None => String::from_str(dflt),
    }
}

fn port_field(pairs: &Vec<(String, String)>, key: &str, dflt: u16) -> (r: u16)
    ensures
        r == spec_port_field(pairs@, key@, dflt),
{
    match lookup(pairs, key) {
        Some(v) => match parse_u16(v.as_str()) {
            Some(p) => p,
            None => dflt,
        },
        None => dflt,
    }
}

impl GeneralConfig {
    /// Builds the general settings from the `[general]` section's pairs,
    /// applying the documented defaults.
    pub fn from_pairs(pairs: &Vec<(String, String)>) -> (r: GeneralConfig)
        ensures
            r.domain@ == spec_field(pairs@, "domain"@, "localhost"@),
            r.cert@ == spec_field(pairs@, "cert"@, "configs/certs/cert.pem"@),
            r.key@ == spec_field(pairs@, "key"@, "configs/certs/key.pem"@),
            r.bind@ == spec_field(pairs@, "bind"@, "0.0.0.0"@),
            r.port == spec_port_field(pairs@, "port"@, 8086),
            r.html_root@ == spec_field(pairs@, "html_root"@, "web"@),
    {
        GeneralConfig {
            domain: field(pairs, "domain", "localhost"),
            cert: field(pairs, "cert", "configs/certs/cert.pem"),
            key: field(pairs, "key", "configs/certs/key.pem"),
            bind: field(pairs, "bind", "0.0.0.0"),
            port: port_field(pairs, "port", 8086),
            html_root: field(pairs, "html_root", "web"),
        }
    }
}

impl TurnConfig {
    /// Builds the relay settings from the `[turn]` section's pairs,
    /// applying the documented defaults.
    pub fn from_pairs(pairs: &Vec<(String, String)>) -> (r: TurnConfig)
        ensures
            r.public_ip@ == spec_field(pairs@, "public_ip"@, "127.0.0.1"@),
            r.port == spec_port_field(pairs@, "port"@, 19302),
            r.realm@ == spec_field(pairs@, "realm"@, "flutter-webrtc"@),
            r.username@ == spec_field(pairs@, "username"@, "user"@),
            r.password@ == spec_field(pairs@, "password"@, "password"@),
    {
        TurnConfig {
            public_ip: field(pairs, "public_ip", "127.0.0.1"),
            port: port_field(pairs, "port", 19302),
            realm: field(pairs, "realm", "flutter-webrtc"),
            username: field(pairs, "username", "user"),
            password: field(pairs, "password", "password"),
        }
    }
}

impl Config {
    /// Builds the whole configuration from both sections' pairs.
    pub fn from_sections(general: &Vec<(String, String)>, turn: &Vec<(String, String)>) -> (r:
        Config)
        ensures
            r.general.domain@ == spec_field(general@, "domain"@, "localhost"@),
            r.general.cert@ == spec_field(general@, "cert"@, "configs/certs/cert.pem"@),
            r.general.key@ == spec_field(general@, "key"@, "configs/certs/key.pem"@),
            r.general.bind@ == spec_field(general@, "bind"@, "0.0.0.0"@),
            r.general.port == spec_port_field(general@, "port"@, 8086),
            r.general.html_root@ == spec_field(general@, "html_root"@, "web"@),
            r.turn.public_ip@ == spec_field(turn@, "public_ip"@, "127.0.0.1"@),
            r.turn.port == spec_port_field(turn@, "port"@, 19302),
            r.turn.realm@ == spec_field(turn@, "realm"@, "flutter-webrtc"@),
            r.turn.username@ == spec_field(turn@, "username"@, "user"@),
            r.turn.password@ == spec_field(turn@, "password"@, "password"@),
    {
        Config { general: GeneralConfig::from_pairs(general), turn: TurnConfig::from_pairs(turn) }
    }
}

} // verus!
