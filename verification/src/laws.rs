//! Laws relating the routing and credential steps across calls, stated
//! over the effect predicates that the step functions' contracts establish.

use vstd::prelude::*;
use crate::messages::{Byebye, Delivery, Method, Negotiation, PeerInfo, RouterOutput};
use crate::signaling::{
    answer_effect, bye_effect, bye_relay_sends, credentials_ok, cred_entry_ok, disconnect_effect,
    is_error_reply, is_snapshot_of, issue_effect, new_effect, offer_effect, turn_username_of,
    validate_effect, CallStatus, ConnState, Signaler, TurnCredentials,
};
use crate::text::spec_sep_count;

verus! {

/// A peer-list snapshot lists an id exactly when the registry holds it.
pub proof fn lemma_snapshot_membership(infos: Seq<PeerInfo>, m: Map<Seq<char>, PeerInfo>, id: Seq<char>)
    requires
        is_snapshot_of(infos, m),
    ensures
        m.contains_key(id) <==> exists|i: int| 0 <= i < infos.len() && (#[trigger] infos[i]).id@
            == id,
{
}

/// After a peer registers, every message of the resulting broadcast
/// carries a snapshot that includes the new peer's id.
pub proof fn lemma_register_snapshot_includes(
    pre: Signaler,
    pi: PeerInfo,
    post: Signaler,
    conn: ConnState,
    out: RouterOutput,
)
    requires
        new_effect(pre, pi, post, conn, out),
    ensures
        out.sends@.len() > 0,
        forall|i: int|
            0 <= i < out.sends@.len() ==> exists|j: int|
                0 <= j < (#[trigger] out.sends@[i]).message->Peers_0@.len() && (
                #[trigger] out.sends@[i].message->Peers_0@[j]).id@ == pi.id@,
{
    assert(post.peers@.contains_key(pi.id@));
    let w = choose|w: int| 0 <= w < out.sends@.len() && (#[trigger] out.sends@[w]).to@ == pi.id@;
    assert(out.sends@.len() > 0);
    assert forall|i: int| 0 <= i < out.sends@.len() implies exists|j: int|
        0 <= j < (#[trigger] out.sends@[i]).message->Peers_0@.len() && (
        #[trigger] out.sends@[i].message->Peers_0@[j]).id@ == pi.id@ by {
        let infos = out.sends@[i].message->Peers_0@;
        assert(is_snapshot_of(infos, post.peers@));
        let j = choose|j: int| 0 <= j < infos.len() && (#[trigger] infos[j]).id@ == pi.id@;
        assert(0 <= j < out.sends@[i].message->Peers_0@.len() && out.sends@[
            i
        ].message->Peers_0@[j].id@ == pi.id@);
    }
}

/// After a registered connection tears down, every message of the
/// resulting broadcast carries a snapshot without the removed peer's id.
pub proof fn lemma_disconnect_snapshot_excludes(
    pre: Signaler,
    conn: ConnState,
    id: String,
    post: Signaler,
    out: RouterOutput,
)
    requires
        disconnect_effect(pre, conn, post, out),
        conn.registered == Some(id),
    ensures
        !post.peers@.contains_key(id@),
        forall|i: int, j: int|
            0 <= i < out.sends@.len() && 0 <= j < (#[trigger] out.sends@[i]).message->Peers_0@.len()
                ==> (#[trigger] out.sends@[i].message->Peers_0@[j]).id@ != id@,
{
    assert forall|i: int, j: int|
        0 <= i < out.sends@.len() && 0 <= j
            < (#[trigger] out.sends@[i]).message->Peers_0@.len() implies (
    #[trigger] out.sends@[i].message->Peers_0@[j]).id@ != id@ by {
        let infos = out.sends@[i].message->Peers_0@;
        assert(is_snapshot_of(infos, post.peers@));
        assert(post.peers@.contains_key(infos[j].id@));
    }
}

/// Through an offer and the matching answer, the session is `Calling`
/// right after the offer and `Connected` right after the answer.
pub proof fn lemma_offer_then_answer(
    s0: Signaler,
    n1: Negotiation,
    p1: String,
    now: i64,
    s1: Signaler,
    o1: RouterOutput,
    n2: Negotiation,
    p2: String,
    s2: Signaler,
    o2: RouterOutput,
)
    requires
        offer_effect(s0, n1, p1, now, s1, o1),
        answer_effect(s1, n2, p2, s2, o2),
        n2.session_id@ == n1.session_id@,
        s0.peers@.contains_key(n1.to@),
        s1.peers@.contains_key(n2.to@),
    ensures
        s1.sessions@.contains_key(n1.session_id@),
        s1.sessions@[n1.session_id@].status == CallStatus::Calling,
        s2.sessions@.contains_key(n1.session_id@),
        s2.sessions@[n1.session_id@].status == CallStatus::Connected,
{
}

/// A bye from one participant of a two-party session, with both parties
/// registered, is relayed exactly once: to the other party, never back to
/// the sender.
pub proof fn lemma_bye_relayed_once(
    pre: Signaler,
    bye: Byebye,
    post: Signaler,
    out: RouterOutput,
    a: Seq<char>,
    b: Seq<char>,
)
    requires
        bye_effect(pre, bye, post, out),
        bye.session_id@ == a + seq!['-'] + b,
        spec_sep_count(a) == 0,
        spec_sep_count(b) == 0,
        bye.from@ == a,
        a != b,
        pre.peers@.contains_key(a),
        pre.peers@.contains_key(b),
    ensures
        out.sends@.len() == 1,
        out.sends@[0].to@ == b,
        out.sends@[0].message == Method::Bye(bye),
{
    assert(bye_relay_sends(out.sends@, bye, a, b, pre.peers@));
}

/// A freshly issued credential validates to the very password that was
/// returned, at any instant before its expiry, and the store is untouched
/// by that lookup.
pub proof fn lemma_issue_then_validate(
    s0: Signaler,
    username: Seq<char>,
    t: i64,
    s1: Signaler,
    c: TurnCredentials,
    t2: i64,
    s2: Signaler,
    r: Option<String>,
)
    requires
        issue_effect(s0, username, t, s1, c),
        validate_effect(s1, c.username@, t2, s2, r),
        t2 < t + 86400,
    ensures
        r matches Some(p) && p@ == c.password@,
        s2.turn_credentials@ == s1.turn_credentials@,
{
    let tu = turn_username_of(t, username);
    assert(s1.turn_credentials@.contains_key(tu));
    assert(cred_entry_ok(s1.turn_credentials@[tu], s0.turn_config, t, username));
    assert(credentials_ok(s1.turn_credentials@[tu].credential, s0.turn_config, t, username));
}

/// Looking up an expired credential yields nothing and evicts it; a
/// second lookup still yields nothing and leaves the store as it is.
pub proof fn lemma_validate_expired_idempotent(
    s0: Signaler,
    u: Seq<char>,
    t: i64,
    s1: Signaler,
    r1: Option<String>,
    t2: i64,
    s2: Signaler,
    r2: Option<String>,
)
    requires
        s0.turn_credentials@.contains_key(u),
        s0.turn_credentials@[u].expires_at <= t,
        validate_effect(s0, u, t, s1, r1),
        validate_effect(s1, u, t2, s2, r2),
    ensures
        r1 is None,
        r2 is None,
        s1.turn_credentials@ == s0.turn_credentials@.remove(u),
        s2.turn_credentials@ == s1.turn_credentials@,
{
}

/// An offer to an id that is not registered sends nothing onward, answers
/// the sender with an offer error, and leaves the new session `Ended`.
pub proof fn lemma_offer_unreachable(
    s0: Signaler,
    n: Negotiation,
    p: String,
    now: i64,
    s1: Signaler,
    out: RouterOutput,
)
    requires
        offer_effect(s0, n, p, now, s1, out),
        !s0.peers@.contains_key(n.to@),
    ensures
        out.sends@ == Seq::<Delivery>::empty(),
        is_error_reply(out.reply@, "offer"@, "Recipient ["@ + n.to@ + "] not available"@),
        s1.sessions@.contains_key(n.session_id@),
        s1.sessions@[n.session_id@].status == CallStatus::Ended,
{
}

} // verus!
