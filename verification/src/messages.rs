//! The signaling message envelope and its parts.
//!
//! `Offer`, `Answer` and `Candidate` carry their routing header (`from`,
//! `to`, `session_id`) together with the full payload text they arrived
//! with, which is forwarded verbatim; the surrounding server decodes
//! frames into this envelope and encodes it back to the wire.

use vstd::prelude::*;

verus! {

/// Public information a peer registers under.
#[derive(Debug, Clone)]
pub struct PeerInfo {
    pub id: String,
    pub name: String,
    pub user_agent: String,
}

/// The routing header carried by offer, answer and candidate payloads.
#[derive(Debug, Clone)]
pub struct Negotiation {
    pub from: String,
    pub to: String,
    pub session_id: String,
}

/// A call-termination notice.
#[derive(Debug, Clone)]
pub struct Byebye {
    pub session_id: String,
    pub from: String,
}

/// A protocol-level error envelope sent back to the originating peer.
#[derive(Debug, Clone)]
pub struct SignalingError {
    pub request: String,
    pub reason: String,
}

/// The tagged message envelope. Offer, answer and candidate hold their
/// routing header and the opaque payload text they arrived with.
#[derive(Debug, Clone)]
pub enum Method {
    New(PeerInfo),
    Bye(Byebye),
    Offer(Negotiation, String),
    Answer(Negotiation, String),
    Candidate(Negotiation, String),
    Leave(String),
    Keepalive,
    Peers(Vec<PeerInfo>),
    Error(SignalingError),
}

/// One outbound message addressed to a registered peer's queue.
#[derive(Debug, Clone)]
pub struct Delivery {
    pub to: String,
    pub message: Method,
}

/// Everything a routing step asks the server to transmit: replies go back
/// on the originating connection, sends go to registered peers' queues.
#[derive(Debug, Clone)]
pub struct RouterOutput {
    pub reply: Vec<Method>,
    pub sends: Vec<Delivery>,
}

impl PeerInfo {
    /// A copy equal to `self`.
    pub fn duplicate(&self) -> (r: PeerInfo)
        ensures
            r == *self,
    {
        PeerInfo { id: self.id.clone(), name: self.name.clone(), user_agent: self.user_agent.clone() }
    }
}

impl Negotiation {
    /// A copy equal to `self`.
    pub fn duplicate(&self) -> (r: Negotiation)
        ensures
            r == *self,
    {
        Negotiation {
            from: self.from.clone(),
            to: self.to.clone(),
            session_id: self.session_id.clone(),
        }
    }
}

impl Byebye {
    /// A copy equal to `self`.
    pub fn duplicate(&self) -> (r: Byebye)
        ensures
            r == *self,
    {
        Byebye { session_id: self.session_id.clone(), from: self.from.clone() }
    }
}

/// An element-wise copy of a peer list.
pub fn clone_infos(v: &Vec<PeerInfo>) -> (r: Vec<PeerInfo>)
    ensures
        r@ == v@,
{
    let mut r: Vec<PeerInfo> = Vec::new();
    let mut i: usize = 0;
    while i < v.len()
        invariant
            i <= v@.len(),
            r@.len() == i,
            forall|j: int| 0 <= j < i ==> r@[j] == v@[j],
        decreases v@.len() - i,
    {
        r.push(v[i].duplicate());
        i = i + 1;
    }
    proof {
        assert(r@ =~= v@);
    }
    r
}

/// An element-wise copy of a string list.
pub fn clone_strings(v: &Vec<String>) -> (r: Vec<String>)
    ensures
        r@ == v@,
{
    let mut r: Vec<String> = Vec::new();
    let mut i: usize = 0;
    while i < v.len()
        invariant
            i <= v@.len(),
            r@.len() == i,
            forall|j: int| 0 <= j < i ==> r@[j] == v@[j],
        decreases v@.len() - i,
    {
        r.push(v[i].clone());
        i = i + 1;
    }
    proof {
        assert(r@ =~= v@);
    }
    r
}

} // verus!
