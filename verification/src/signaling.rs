//! The signaling core: peer registry, call-session tracker, credential
//! issuer, and the message-routing state machine.
//!
//! Routing is a pure step: it consumes one decoded envelope and yields the
//! messages to transmit (`RouterOutput`); the surrounding server performs
//! the sends and reports a failed relay back through
//! [`Signaler::handle_relay_failure`].

use vstd::prelude::*;
use crate::config::TurnConfig;
use crate::crypto::{base64_encode, base64_of, hmac_sha1, hmac_sha1_of, unix_now};
use crate::messages::{clone_infos, clone_strings, Delivery, Method, PeerInfo, RouterOutput};
use crate::messages::{Byebye, Negotiation, SignalingError};
use crate::strmap::StrMap;
use crate::text::{
    lemma_sep_count_concat, lemma_split_unique, push_u64_dec, spec_sep_count, spec_u64_dec,
    split_two, u64_to_dec,
};

verus! {

/// Ephemeral relay credentials handed to a client.
#[derive(Debug, Clone)]
pub struct TurnCredentials {
    pub username: String,
    pub password: String,
    pub ttl: i64,
    pub uris: Vec<String>,
}

impl TurnCredentials {
    /// A copy that agrees with `self` in every field.
    pub fn duplicate(&self) -> (r: TurnCredentials)
        ensures
            r.username == self.username,
            r.password == self.password,
            r.ttl == self.ttl,
            r.uris@ == self.uris@,
    {
        TurnCredentials {
            username: self.username.clone(),
            password: self.password.clone(),
            ttl: self.ttl,
            uris: clone_strings(&self.uris),
        }
    }
}

/// The lifecycle of a call session.
#[derive(PartialEq, Eq, Structural, Debug, Clone, Copy)]
pub enum CallStatus {
    /// Offer sent, waiting for the answer.
    Calling,
    /// Answer received, call in progress.
    Connected,
    /// Call terminated.
    Ended,
}

/// One tracked call.
#[derive(Debug, Clone)]
pub struct CallSession {
    pub session_id: String,
    pub caller_id: String,
    pub callee_id: String,
    pub started_at: i64,
    pub status: CallStatus,
}

/// `s` with its status replaced.
pub open spec fn with_status(s: CallSession, status: CallStatus) -> CallSession {
    CallSession {
        session_id: s.session_id,
        caller_id: s.caller_id,
        callee_id: s.callee_id,
        started_at: s.started_at,
        status,
    }
}

impl CallSession {
    /// A copy of `self` under a new status.
    pub fn restate(&self, status: CallStatus) -> (r: CallSession)
        ensures
            r == with_status(*self, status),
    {
        CallSession {
            session_id: self.session_id.clone(),
            caller_id: self.caller_id.clone(),
            callee_id: self.callee_id.clone(),
            started_at: self.started_at,
            status,
        }
    }
}

/// A stored credential together with its expiry instant.
#[derive(Debug, Clone)]
pub struct ExpiredCredential {
    pub credential: TurnCredentials,
    pub expires_at: i64,
}

/// Connection-local state: the peer id, if any, this connection registered.
#[derive(Debug)]
pub struct ConnState {
    pub registered: Option<String>,
}

impl ConnState {
    pub fn new() -> (r: ConnState)
        ensures
            r.registered is None,
    {
        ConnState { registered: None }
    }
}

/// The shared state of the signaling core.
pub struct Signaler {
    pub peers: StrMap<PeerInfo>,
    pub sessions: StrMap<CallSession>,
    pub turn_credentials: StrMap<ExpiredCredential>,
    pub turn_config: TurnConfig,
}

/// `infos` lists exactly the peers of `m`, each under its own id.
pub open spec fn is_snapshot_of(infos: Seq<PeerInfo>, m: Map<Seq<char>, PeerInfo>) -> bool {
    &&& forall|i: int|
        0 <= i < infos.len() ==> m.contains_key((#[trigger] infos[i]).id@) && m[infos[i].id@]
            == infos[i]
    &&& forall|i: int, j: int| 0 <= i < j < infos.len() ==> (#[trigger] infos[i]).id@ != (
    #[trigger] infos[j]).id@
    &&& forall|k: Seq<char>|
        m.contains_key(k) ==> exists|i: int| 0 <= i < infos.len() && (#[trigger] infos[i]).id@ == k
}

/// `sends` carries one peer-list message to each peer of `m`, each message
/// holding a snapshot of `m`.
pub open spec fn is_peers_broadcast(sends: Seq<Delivery>, m: Map<Seq<char>, PeerInfo>) -> bool {
    &&& forall|i: int| 0 <= i < sends.len() ==> m.contains_key((#[trigger] sends[i]).to@)
    &&& forall|i: int, j: int| 0 <= i < j < sends.len() ==> (#[trigger] sends[i]).to@ != (
    #[trigger] sends[j]).to@
    &&& forall|k: Seq<char>|
        m.contains_key(k) ==> exists|i: int| 0 <= i < sends.len() && (#[trigger] sends[i]).to@ == k
    &&& forall|i: int|
        0 <= i < sends.len() ==> (#[trigger] sends[i]).message is Peers && is_snapshot_of(
            sends[i].message->Peers_0@,
            m,
        )
}

/// The effect of a connection's teardown: its registered peer, if any,
/// leaves the registry and the remaining peers receive a fresh peer-list
/// broadcast.
pub open spec fn disconnect_effect(
    pre: Signaler,
    conn: ConnState,
    post: Signaler,
    out: RouterOutput,
) -> bool {
    &&& post.sessions@ == pre.sessions@
    &&& post.turn_credentials@ == pre.turn_credentials@
    &&& post.turn_config == pre.turn_config
    &&& out.reply@ == Seq::<Method>::empty()
    &&& match conn.registered {
        Some(id) => {
            &&& post.peers@ == pre.peers@.remove(id@)
            &&& is_peers_broadcast(out.sends@, post.peers@)
        },
        None => {
            &&& post.peers@ == pre.peers@
            &&& out.sends@ == Seq::<Delivery>::empty()
        },
    }
}

/// The process-wide key the credential tags are derived from. A production
/// deployment injects its own value through configuration.
pub open spec fn spec_shared_key() -> Seq<char> {
    "flutter-webrtc-turn-server-shared-key"@
}

fn shared_key() -> (r: &'static str)
    ensures
        r@ == spec_shared_key(),
{
    "flutter-webrtc-turn-server-shared-key"
}

/// The relay username minted at `now`: the timestamp, a colon, the caller's
/// name.
pub open spec fn turn_username_of(now: i64, username: Seq<char>) -> Seq<char>
    recommends
        now >= 0,
{
    spec_u64_dec(now as nat) + seq![':'] + username
}

/// The password derived for a relay username.
pub open spec fn turn_password_of(turn_username: Seq<char>) -> Seq<char> {
    base64_of(hmac_sha1_of(spec_shared_key(), turn_username))
}

/// The single relay URI advertised with each credential.
pub open spec fn relay_uri_of(cfg: TurnConfig) -> Seq<char> {
    "turn:"@ + cfg.public_ip@ + ":"@ + spec_u64_dec(cfg.port as nat) + "?transport=udp"@
}

/// What an issued credential holds, as a function of the settings, the
/// issuance instant and the requesting username.
pub open spec fn credentials_ok(
    c: TurnCredentials,
    cfg: TurnConfig,
    now: i64,
    username: Seq<char>,
) -> bool {
    &&& c.username@ == turn_username_of(now, username)
    &&& c.password@ == turn_password_of(c.username@)
    &&& c.ttl == 86400
    &&& c.uris@.len() == 1
    &&& c.uris@[0]@ == relay_uri_of(cfg)
}

/// What the stored entry for a freshly minted credential holds.
pub open spec fn cred_entry_ok(
    e: ExpiredCredential,
    cfg: TurnConfig,
    now: i64,
    username: Seq<char>,
) -> bool {
    &&& credentials_ok(e.credential, cfg, now, username)
    &&& e.expires_at == now + 86400
}

/// The whole effect of minting a credential at instant `now`: what the
/// returned credential holds and how the store changes.
pub open spec fn issue_effect(
    pre: Signaler,
    username: Seq<char>,
    now: i64,
    post: Signaler,
    c: TurnCredentials,
) -> bool {
    let tu = turn_username_of(now, username);
    &&& 0 <= now
    &&& now + 86400 <= i64::MAX
    &&& credentials_ok(c, pre.turn_config, now, username)
    &&& post.turn_credentials@.contains_key(tu)
    &&& cred_entry_ok(post.turn_credentials@[tu], pre.turn_config, now, username)
    &&& post.turn_credentials@ == pre.turn_credentials@.insert(tu, post.turn_credentials@[tu])
    &&& post.peers@ == pre.peers@
    &&& post.sessions@ == pre.sessions@
    &&& post.turn_config == pre.turn_config
}

/// The whole effect of a credential lookup at instant `now`: a live entry
/// yields its password and stays; an expired entry is evicted; a missing
/// key yields nothing.
pub open spec fn validate_effect(
    pre: Signaler,
    username: Seq<char>,
    now: i64,
    post: Signaler,
    r: Option<String>,
) -> bool {
    let m = pre.turn_credentials@;
    &&& post.peers@ == pre.peers@
    &&& post.sessions@ == pre.sessions@
    &&& post.turn_config == pre.turn_config
    &&& if m.contains_key(username) && m[username].expires_at > now {
        &&& r matches Some(p) && p@ == m[username].credential.password@
        &&& post.turn_credentials@ == m
    } else if m.contains_key(username) {
        &&& r is None
        &&& post.turn_credentials@ == m.remove(username)
    } else {
        &&& r is None
        &&& post.turn_credentials@ == m
    }
}

/// `reply` is exactly one error envelope with the given request kind and
/// reason text.
pub open spec fn is_error_reply(reply: Seq<Method>, request: Seq<char>, reason: Seq<char>) -> bool {
    &&& reply.len() == 1
    &&& reply[0] is Error
    &&& reply[0]->Error_0.request@ == request
    &&& reply[0]->Error_0.reason@ == reason
}

/// `m` with the session under `sid`, if any, moved to `status`.
pub open spec fn sessions_with_status(
    m: Map<Seq<char>, CallSession>,
    sid: Seq<char>,
    status: CallStatus,
) -> Map<Seq<char>, CallSession> {
    if m.contains_key(sid) {
        m.insert(sid, with_status(m[sid], status))
    } else {
        m
    }
}

impl Signaler {
    /// All maps are well formed, and every registry entry sits under its
    /// own peer id.
    pub open spec fn wf(&self) -> bool {
        &&& self.peers.wf()
        &&& self.sessions.wf()
        &&& self.turn_credentials.wf()
        &&& forall|k: Seq<char>|
            #[trigger] self.peers@.contains_key(k) ==> self.peers@[k].id@ == k
    }

    pub fn new(turn_config: TurnConfig) -> (r: Signaler)
        ensures
            r.wf(),
            r.peers@ == Map::<Seq<char>, PeerInfo>::empty(),
            r.sessions@ == Map::<Seq<char>, CallSession>::empty(),
            r.turn_credentials@ == Map::<Seq<char>, ExpiredCredential>::empty(),
            r.turn_config == turn_config,
    {
        Signaler {
            peers: StrMap::new(),
            sessions: StrMap::new(),
            turn_credentials: StrMap::new(),
            turn_config,
        }
    }

    /// The current list of registered peers' public info.
    pub fn snapshot(&self) -> (r: Vec<PeerInfo>)
        requires
            self.wf(),
        ensures
            is_snapshot_of(r@, self.peers@),
    {
        let g = self.peers.graph();
        let mut r: Vec<PeerInfo> = Vec::new();
        let mut i: usize = 0;
        while i < g.len()
            invariant
                i <= g@.len(),
                r@.len() == i,
                forall|j: int| 0 <= j < i ==> r@[j] == (#[trigger] g@[j]).1,
                self.wf(),
                forall|m: int|
                    0 <= m < g@.len() ==> {
                        &&& self.peers@.contains_key((#[trigger] g@[m]).0@)
                        &&& self.peers@[g@[m].0@] == g@[m].1
                    },
                forall|m: int, l: int| 0 <= m < l < g@.len() ==> (#[trigger] g@[m]).0@ != (
                #[trigger] g@[l]).0@,
                forall|k: Seq<char>|
                    self.peers@.contains_key(k) ==> exists|m: int|
                        0 <= m < g@.len() && (#[trigger] g@[m]).0@ == k,
            decreases g@.len() - i,
        {
            r.push(g[i].1.duplicate());
            i = i + 1;
        }
        proof {
            assert forall|j: int| 0 <= j < r@.len() implies (#[trigger] r@[j]).id@ == g@[j].0@ by {
                assert(self.peers@[g@[j].0@] == g@[j].1);
            }
            assert forall|k: Seq<char>| self.peers@.contains_key(k) implies exists|j: int|
                0 <= j < r@.len() && (#[trigger] r@[j]).id@ == k by {
                let m = choose|m: int| 0 <= m < g@.len() && (#[trigger] g@[m]).0@ == k;
                assert(r@[m].id@ == k);
            }
        }
        r
    }

    /// One peer-list update for every registered peer, the broadcast sent
    /// after the registry changes.
    pub fn notify_peers_update(&self) -> (sends: Vec<Delivery>)
        requires
            self.wf(),
        ensures
            is_peers_broadcast(sends@, self.peers@),
    {
        let snap = self.snapshot();
        let g = self.peers.graph();
        let mut sends: Vec<Delivery> = Vec::new();
        let mut i: usize = 0;
        while i < g.len()
            invariant
                i <= g@.len(),
                sends@.len() == i,
                is_snapshot_of(snap@, self.peers@),
                forall|j: int|
                    0 <= j < i ==> {
                        &&& (#[trigger] sends@[j]).to@ == g@[j].0@
                        &&& sends@[j].message is Peers
                        &&& sends@[j].message->Peers_0@ == snap@
                    },
                self.wf(),
                forall|m: int|
                    0 <= m < g@.len() ==> {
                        &&& self.peers@.contains_key((#[trigger] g@[m]).0@)
                        &&& self.peers@[g@[m].0@] == g@[m].1
                    },
                forall|m: int, l: int| 0 <= m < l < g@.len() ==> (#[trigger] g@[m]).0@ != (
                #[trigger] g@[l]).0@,
                forall|k: Seq<char>|
                    self.peers@.contains_key(k) ==> exists|m: int|
                        0 <= m < g@.len() && (#[trigger] g@[m]).0@ == k,
            decreases g@.len() - i,
        {
            sends.push(Delivery { to: g[i].0.clone(), message: Method::Peers(clone_infos(&snap)) });
            i = i + 1;
        }
        proof {
            assert forall|k: Seq<char>| self.peers@.contains_key(k) implies exists|j: int|
                0 <= j < sends@.len() && (#[trigger] sends@[j]).to@ == k by {
                let m = choose|m: int| 0 <= m < g@.len() && (#[trigger] g@[m]).0@ == k;
                assert(sends@[m].to@ == k);
            }
        }
        sends
    }

    /// The cleanup step run when a connection's reader loop ends: the
    /// registered peer, if any, leaves the registry and the remaining peers
    /// receive a fresh peer-list broadcast.
    pub fn handle_disconnect(&mut self, conn: &ConnState) -> (out: RouterOutput)
        requires
            old(self).wf(),
        ensures
            final(self).wf(),
            disconnect_effect(*old(self), *conn, *final(self), out),
    {
        match &conn.registered {
            Some(id) => {
                self.peers.remove(id);
                let sends = self.notify_peers_update();
                RouterOutput { reply: Vec::new(), sends }
            },
            None => RouterOutput { reply: Vec::new(), sends: Vec::new() },
        }
    }

    /// Mints and stores a credential as of the instant `now`.
    pub fn issue_at(&mut self, username: &str, now: i64) -> (c: TurnCredentials)
        requires
            old(self).wf(),
            0 <= now,
            now + 86400 <= i64::MAX,
        ensures
            final(self).wf(),
            issue_effect(*old(self), username@, now, *final(self), c),
    {
        let mut turn_username = u64_to_dec(now as u64);
        turn_username.append(":");
        turn_username.append(username);
        proof {
            reveal_strlit(":");
            assert((":")@ =~= seq![':']);
            assert(turn_username@ =~= turn_username_of(now, username@));
        }
        let tag = hmac_sha1(shared_key(), turn_username.as_str());
        let password = base64_encode(&tag);

        let mut uri = String::new();
        uri.append("turn:");
        uri.append(self.turn_config.public_ip.as_str());
        uri.append(":");
        push_u64_dec(&mut uri, self.turn_config.port as u64);
        uri.append("?transport=udp");
        proof {
            assert(uri@ =~= relay_uri_of(self.turn_config));
        }
        let mut uris: Vec<String> = Vec::new();
        uris.push(uri);

        let c = TurnCredentials { username: turn_username, password, ttl: 86400, uris };
        let stored = ExpiredCredential { credential: c.duplicate(), expires_at: now + 86400 };
        self.turn_credentials.insert(c.username.clone(), stored);
        c
    }

    /// Mints and stores a credential as of the system clock, clamped into
    /// the representable range.
    pub fn generate_turn_credentials(&mut self, username: &str) -> (c: TurnCredentials)
        requires
            old(self).wf(),
        ensures
            final(self).wf(),
            exists|t: i64| #[trigger] issue_effect(*old(self), username@, t, *final(self), c),
    {
        let mut t = unix_now();
        if t < 0 {
            t = 0;
        }
        if t > i64::MAX - 86400 {
            t = i64::MAX - 86400;
        }
        let c = self.issue_at(username, t);
        proof {
            let tt = t;
            assert(issue_effect(*old(self), username@, tt, *self, c));
        }
        c
    }

    /// Looks up a stored credential as of the instant `now`: the password
    /// while the credential is live; an expired entry is evicted and
    /// nothing is returned.
    pub fn validate_at(&mut self, username: &String, now: i64) -> (r: Option<String>)
        requires
            old(self).wf(),
        ensures
            final(self).wf(),
            validate_effect(*old(self), username@, now, *final(self), r),
    {
        let mut expired = false;
        let mut result: Option<String> = None;
        match self.turn_credentials.get(username) {
            Some(entry) => {
                if entry.expires_at > now {
                    result = Some(entry.credential.password.clone());
                } else {
                    expired = true;
                }
            },
            None => {},
        }
        if expired {
            self.turn_credentials.remove(username);
        }
        result
    }

    /// Looks up a stored credential as of the system clock.
    pub fn validate_turn_credentials(&mut self, username: &String) -> (r: Option<String>)
        requires
            old(self).wf(),
        ensures
            final(self).wf(),
            exists|t: i64| #[trigger] validate_effect(*old(self), username@, t, *final(self), r),
    {
        let t = unix_now();
        let r = self.validate_at(username, t);
        proof {
            let tt = t;
            assert(validate_effect(*old(self), username@, tt, *self, r));
        }
        r
    }

    /// Moves the session under `sid`, if any, to `status`.
    fn set_session_status(&mut self, sid: &String, status: CallStatus)
        requires
            old(self).wf(),
        ensures
            final(self).wf(),
            final(self).sessions@ == sessions_with_status(old(self).sessions@, sid@, status),
            final(self).peers@ == old(self).peers@,
            final(self).turn_credentials@ == old(self).turn_credentials@,
            final(self).turn_config == old(self).turn_config,
    {
        let mut updated: Option<CallSession> = None;
        match self.sessions.get(sid) {
            Some(s) => {
                updated = Some(s.restate(status));
            },
            None => {},
        }
        match updated {
            Some(s2) => {
                self.sessions.insert(sid.clone(), s2);
            },
            None => {},
        }
    }
}

/// Which relayed request a failed delivery belonged to.
#[derive(PartialEq, Eq, Structural, Debug, Clone, Copy)]
pub enum RelayKind {
    Offer,
    Answer,
}

/// The effect of registering a peer: the registry gains (or replaces) the
/// entry under the peer's id, the connection remembers the id, and every
/// registered peer receives a fresh peer-list broadcast.
pub open spec fn new_effect(
    pre: Signaler,
    pi: PeerInfo,
    post: Signaler,
    conn: ConnState,
    out: RouterOutput,
) -> bool {
    &&& post.peers@ == pre.peers@.insert(pi.id@, pi)
    &&& post.sessions@ == pre.sessions@
    &&& post.turn_credentials@ == pre.turn_credentials@
    &&& post.turn_config == pre.turn_config
    &&& conn.registered == Some(pi.id)
    &&& out.reply@ == Seq::<Method>::empty()
    &&& is_peers_broadcast(out.sends@, post.peers@)
}

/// The effect of an offer: a session is created under the payload's
/// session id; when the callee is registered the payload is forwarded to
/// it verbatim and the session is `Calling`, otherwise the session is
/// `Ended` and the sender gets an error envelope.
pub open spec fn offer_effect(
    pre: Signaler,
    n: Negotiation,
    payload: String,
    now: i64,
    post: Signaler,
    out: RouterOutput,
) -> bool {
    let ok = pre.peers@.contains_key(n.to@);
    &&& post.peers@ == pre.peers@
    &&& post.turn_credentials@ == pre.turn_credentials@
    &&& post.turn_config == pre.turn_config
    &&& post.sessions@ == pre.sessions@.insert(
        n.session_id@,
        CallSession {
            session_id: n.session_id,
            caller_id: n.from,
            callee_id: n.to,
            started_at: now,
            status: if ok {
                CallStatus::Calling
            } else {
                CallStatus::Ended
            },
        },
    )
    &&& if ok {
        &&& out.sends@ == seq![Delivery { to: n.to, message: Method::Offer(n, payload) }]
        &&& out.reply@ == Seq::<Method>::empty()
    } else {
        &&& out.sends@ == Seq::<Delivery>::empty()
        &&& is_error_reply(out.reply@, "offer"@, "Recipient ["@ + n.to@ + "] not available"@)
    }
}

/// The effect of an answer: an existing session under the payload's
/// session id moves to `Connected` when the caller is registered (to
/// `Ended` otherwise); a registered caller receives the payload verbatim,
/// an absent one draws an error envelope to the sender.
pub open spec fn answer_effect(
    pre: Signaler,
    n: Negotiation,
    payload: String,
    post: Signaler,
    out: RouterOutput,
) -> bool {
    let ok = pre.peers@.contains_key(n.to@);
    &&& post.peers@ == pre.peers@
    &&& post.turn_credentials@ == pre.turn_credentials@
    &&& post.turn_config == pre.turn_config
    &&& post.sessions@ == sessions_with_status(
        pre.sessions@,
        n.session_id@,
        if ok {
            CallStatus::Connected
        } else {
            CallStatus::Ended
        },
    )
    &&& if ok {
        &&& out.sends@ == seq![Delivery { to: n.to, message: Method::Answer(n, payload) }]
        &&& out.reply@ == Seq::<Method>::empty()
    } else {
        &&& out.sends@ == Seq::<Delivery>::empty()
        &&& is_error_reply(out.reply@, "answer"@, "Caller ["@ + n.to@ + "] no longer available"@)
    }
}

/// The effect of a candidate: best-effort verbatim forwarding, no state
/// change, and silence when the target is absent.
pub open spec fn candidate_effect(
    pre: Signaler,
    n: Negotiation,
    payload: String,
    post: Signaler,
    out: RouterOutput,
) -> bool {
    &&& post == pre
    &&& out.reply@ == Seq::<Method>::empty()
    &&& if pre.peers@.contains_key(n.to@) {
        out.sends@ == seq![Delivery { to: n.to, message: Method::Candidate(n, payload) }]
    } else {
        out.sends@ == Seq::<Delivery>::empty()
    }
}

/// What a bye relays when the session id splits into the parts `a` and
/// `b`: one copy of the bye to each part that is a registered peer other
/// than the sender, `a`'s copy first.
pub open spec fn bye_relay_sends(
    sends: Seq<Delivery>,
    bye: Byebye,
    a: Seq<char>,
    b: Seq<char>,
    peers: Map<Seq<char>, PeerInfo>,
) -> bool {
    let sa = a != bye.from@ && peers.contains_key(a);
    let sb = b != bye.from@ && peers.contains_key(b);
    &&& sends.len() == (if sa {
        1int
    } else {
        0int
    }) + (if sb {
        1int
    } else {
        0int
    })
    &&& (sa ==> sends[0].to@ == a && sends[0].message == Method::Bye(bye))
    &&& (sb ==> sends[sends.len() - 1].to@ == b && sends[sends.len() - 1].message == Method::Bye(
        bye,
    ))
}

/// The effect of a bye: the session, if tracked, is `Ended`; when the
/// session id splits into exactly two parts the bye is relayed to each
/// part's peer except the sender; otherwise nothing is relayed.
pub open spec fn bye_effect(pre: Signaler, bye: Byebye, post: Signaler, out: RouterOutput) -> bool {
    &&& post.peers@ == pre.peers@
    &&& post.turn_credentials@ == pre.turn_credentials@
    &&& post.turn_config == pre.turn_config
    &&& post.sessions@ == sessions_with_status(pre.sessions@, bye.session_id@, CallStatus::Ended)
    &&& out.reply@ == Seq::<Method>::empty()
    &&& (spec_sep_count(bye.session_id@) != 1 ==> out.sends@ == Seq::<Delivery>::empty())
    &&& forall|a: Seq<char>, b: Seq<char>|
        (bye.session_id@ == a + seq!['-'] + b && spec_sep_count(a) == 0 && spec_sep_count(b) == 0)
            ==> #[trigger] bye_relay_sends(out.sends@, bye, a, b, pre.peers@)
}

/// The whole effect of one routing step on the shared state, the
/// connection state and the transmitted messages, by message kind.
/// Received peer-list, error and leave envelopes are ignored.
pub open spec fn message_effect(
    pre: Signaler,
    conn0: ConnState,
    msg: Method,
    now: i64,
    post: Signaler,
    conn1: ConnState,
    out: RouterOutput,
) -> bool {
    match msg {
        Method::New(pi) => new_effect(pre, pi, post, conn1, out),
        Method::Offer(n, payload) => conn1 == conn0 && offer_effect(pre, n, payload, now, post, out),
        Method::Answer(n, payload) => conn1 == conn0 && answer_effect(pre, n, payload, post, out),
        Method::Candidate(n, payload) => conn1 == conn0 && candidate_effect(
            pre,
            n,
            payload,
            post,
            out,
        ),
        Method::Bye(bye) => conn1 == conn0 && bye_effect(pre, bye, post, out),
        Method::Keepalive => {
            &&& conn1 == conn0
            &&& post == pre
            &&& out.sends@ == Seq::<Delivery>::empty()
            &&& out.reply@ == seq![Method::Keepalive]
        },
        Method::Leave(_) | Method::Peers(_) | Method::Error(_) => {
            &&& conn1 == conn0
            &&& post == pre
            &&& out.sends@ == Seq::<Delivery>::empty()
            &&& out.reply@ == Seq::<Method>::empty()
        },
    }
}

/// The effect of a relay delivery that failed after lookup succeeded: the
/// session, if tracked, is `Ended`, and the sender gets an error envelope
/// naming the unreachable peer.
pub open spec fn relay_failure_effect(
    pre: Signaler,
    kind: RelayKind,
    sid: Seq<char>,
    to: Seq<char>,
    post: Signaler,
    out: RouterOutput,
) -> bool {
    &&& post.peers@ == pre.peers@
    &&& post.turn_credentials@ == pre.turn_credentials@
    &&& post.turn_config == pre.turn_config
    &&& post.sessions@ == sessions_with_status(pre.sessions@, sid, CallStatus::Ended)
    &&& out.sends@ == Seq::<Delivery>::empty()
    &&& is_error_reply(
        out.reply@,
        if kind is Offer {
            "offer"@
        } else {
            "answer"@
        },
        (if kind is Offer {
            "Recipient ["@
        } else {
            "Caller ["@
        }) + to + "] unreachable"@,
    )
}

fn bracket_reason(prefix: &str, name: &String, suffix: &str) -> (r: String)
    ensures
        r@ == prefix@ + name@ + suffix@,
{
    let mut s = String::from_str(prefix);
    s.append(name.as_str());
    s.append(suffix);
    proof {
        assert(s@ =~= prefix@ + name@ + suffix@);
    }
    s
}

impl Signaler {
    /// One routing step at the instant `now`: consumes one decoded
    /// envelope, updates the shared state, and returns what to transmit.
    pub fn handle_message_at(&mut self, conn: &mut ConnState, msg: Method, now: i64) -> (out:
        RouterOutput)
        requires
            old(self).wf(),
        ensures
            final(self).wf(),
            message_effect(
                *old(self),
                *old(conn),
                msg,
                now,
                *final(self),
                *final(conn),
                out,
            ),
    {
        match msg {
            Method::New(pi) => {
                let ghost gpi = pi;
                let key = pi.id.clone();
                let reg = pi.id.clone();
                self.peers.insert(key, pi);
                proof {
                    assert forall|k: Seq<char>| #[trigger]
                        self.peers@.contains_key(k) implies self.peers@[k].id@ == k by {
                        if k != gpi.id@ {
                            assert(old(self).peers@.contains_key(k));
                        }
                    }
                }
                conn.registered = Some(reg);
                let sends = self.notify_peers_update();
                RouterOutput { reply: Vec::new(), sends }
            },
            Method::Offer(n, payload) => {
                let ok = self.peers.contains(&n.to);
                let status = if ok {
                    CallStatus::Calling
                } else {
                    CallStatus::Ended
                };
                let session = CallSession {
                    session_id: n.session_id.clone(),
                    caller_id: n.from.clone(),
                    callee_id: n.to.clone(),
                    started_at: now,
                    status,
                };
                self.sessions.insert(n.session_id.clone(), session);
                if ok {
                    let mut sends: Vec<Delivery> = Vec::new();
                    let ghost gn = n;
                    let ghost gp = payload;
                    sends.push(Delivery { to: n.to.clone(), message: Method::Offer(n, payload) });
                    proof {
                        assert(sends@ =~= seq![
                            Delivery { to: gn.to, message: Method::Offer(gn, gp) },
                        ]);
                    }
                    RouterOutput { reply: Vec::new(), sends }
                } else {
                    let reason = bracket_reason("Recipient [", &n.to, "] not available");
                    let mut reply: Vec<Method> = Vec::new();
                    reply.push(
                        Method::Error(
                            SignalingError { request: String::from_str("offer"), reason },
                        ),
                    );
                    RouterOutput { reply, sends: Vec::new() }
                }
            },
            Method::Answer(n, payload) => {
                let ok = self.peers.contains(&n.to);
                let status = if ok {
                    CallStatus::Connected
                } else {
                    CallStatus::Ended
                };
                self.set_session_status(&n.session_id, status);
                if ok {
                    let mut sends: Vec<Delivery> = Vec::new();
                    let ghost gn = n;
                    let ghost gp = payload;
                    sends.push(Delivery { to: n.to.clone(), message: Method::Answer(n, payload) });
                    proof {
                        assert(sends@ =~= seq![
                            Delivery { to: gn.to, message: Method::Answer(gn, gp) },
                        ]);
                    }
                    RouterOutput { reply: Vec::new(), sends }
                } else {
                    let reason = bracket_reason("Caller [", &n.to, "] no longer available");
                    let mut reply: Vec<Method> = Vec::new();
                    reply.push(
                        Method::Error(
                            SignalingError { request: String::from_str("answer"), reason },
                        ),
                    );
                    RouterOutput { reply, sends: Vec::new() }
                }
            },
            Method::Candidate(n, payload) => {
                let mut sends: Vec<Delivery> = Vec::new();
                if self.peers.contains(&n.to) {
                    let ghost gn = n;
                    let ghost gp = payload;
                    sends.push(
                        Delivery { to: n.to.clone(), message: Method::Candidate(n, payload) },
                    );
                    proof {
                        assert(sends@ =~= seq![
                            Delivery { to: gn.to, message: Method::Candidate(gn, gp) },
                        ]);
                    }
                }
                RouterOutput { reply: Vec::new(), sends }
            },
            Method::Bye(bye) => {
                self.set_session_status(&bye.session_id, CallStatus::Ended);
                let mut sends: Vec<Delivery> = Vec::new();
                match split_two(bye.session_id.as_str()) {
                    Some(parts) => {
                        let (a, b) = parts;
                        let ghost aseq = a@;
                        let ghost bseq = b@;
                        if !(a == bye.from) {
                            if self.peers.contains(&a) {
                                sends.push(Delivery { to: a, message: Method::Bye(bye.duplicate()) });
                            }
                        }
                        if !(b == bye.from) {
                            if self.peers.contains(&b) {
                                sends.push(Delivery { to: b, message: Method::Bye(bye.duplicate()) });
                            }
                        }
                        proof {
                            assert(bye_relay_sends(sends@, bye, aseq, bseq, old(self).peers@));
                            assert forall|x: Seq<char>, y: Seq<char>|
                                (bye.session_id@ == x + seq!['-'] + y && spec_sep_count(x) == 0
                                    && spec_sep_count(y) == 0) implies #[trigger] bye_relay_sends(
                                sends@,
                                bye,
                                x,
                                y,
                                old(self).peers@,
                            ) by {
                                lemma_split_unique(aseq, bseq, x, y);
                            }
                        }
                        RouterOutput { reply: Vec::new(), sends }
                    },
                    None => {
                        proof {
                            assert forall|x: Seq<char>, y: Seq<char>|
                                (bye.session_id@ == x + seq!['-'] + y && spec_sep_count(x) == 0
                                    && spec_sep_count(y) == 0) implies #[trigger] bye_relay_sends(
                                sends@,
                                bye,
                                x,
                                y,
                                old(self).peers@,
                            ) by {
                                lemma_sep_count_concat(x + seq!['-'], y);
                                lemma_sep_count_concat(x, seq!['-']);
                                crate::text::lemma_sep_count_single();
                            }
                        }
                        RouterOutput { reply: Vec::new(), sends }
                    },
                }
            },
            Method::Keepalive => {
                let mut reply: Vec<Method> = Vec::new();
                reply.push(Method::Keepalive);
                proof {
                    assert(reply@ =~= seq![Method::Keepalive]);
                }
                RouterOutput { reply, sends: Vec::new() }
            },
            Method::Leave(_) => RouterOutput { reply: Vec::new(), sends: Vec::new() },
            Method::Peers(_) => RouterOutput { reply: Vec::new(), sends: Vec::new() },
            Method::Error(_) => RouterOutput { reply: Vec::new(), sends: Vec::new() },
        }
    }

    /// One routing step at the system clock's instant.
    pub fn handle_message(&mut self, conn: &mut ConnState, msg: Method) -> (out: RouterOutput)
        requires
            old(self).wf(),
        ensures
            final(self).wf(),
            exists|t: i64| #[trigger]
                message_effect(*old(self), *old(conn), msg, t, *final(self), *final(conn), out),
    {
        let t = unix_now();
        let ghost gmsg = msg;
        let out = self.handle_message_at(conn, msg, t);
        proof {
            let tt = t;
            assert(message_effect(*old(self), *old(conn), gmsg, tt, *self, *conn, out));
        }
        out
    }

    /// The step the server takes when forwarding a relayed offer or answer
    /// to its looked-up target fails because the target's queue is gone.
    pub fn handle_relay_failure(&mut self, kind: RelayKind, session_id: &String, to: &String) -> (out:
        RouterOutput)
        requires
            old(self).wf(),
        ensures
            final(self).wf(),
            relay_failure_effect(*old(self), kind, session_id@, to@, *final(self), out),
    {
        self.set_session_status(session_id, CallStatus::Ended);
        let reason = match kind {
            RelayKind::Offer => bracket_reason("Recipient [", to, "] unreachable"),
            RelayKind::Answer => bracket_reason("Caller [", to, "] unreachable"),
        };
        let request = match kind {
            RelayKind::Offer => String::from_str("offer"),
            RelayKind::Answer => String::from_str("answer"),
        };
        let mut reply: Vec<Method> = Vec::new();
        reply.push(Method::Error(SignalingError { request, reason }));
        RouterOutput { reply, sends: Vec::new() }
    }
}

} // verus!
