//! The per-connection session handler: the callback target that the
//! protocol engine drives.  It decides authentication (accept-all policy),
//! accepts channel opens into the shared registry, and turns an inbound
//! payload into the list of writes of a broadcast pass.  The surrounding
//! runtime performs the writes; every decision is made here.
use vstd::prelude::*;

use crate::registry::{ChannelKey, Registry};

verus! {

/// The decision returned to the protocol engine for an authentication
/// attempt.
#[derive(Clone, Copy, PartialEq, Eq, Structural, Debug)]
pub enum Auth {
    /// Let the client in.
    Accept,
    /// Turn the client away.  The current policy never returns this; it
    /// exists so that a stricter policy can be substituted without touching
    /// the registry or the broadcast rule.
    Reject,
}

/// One write of a broadcast pass: deliver `payload` to the channel
/// registered under `key`.
pub struct ChannelWrite {
    /// The channel that receives the bytes.
    pub key: ChannelKey,
    /// The bytes to deliver, exactly as they arrived.
    pub payload: Vec<u8>,
}

/// The authentication policy: accept any syntactically valid public key
/// for any username.  A deliberately permissive stance, not a security
/// boundary; substitute this one function to tighten it.
pub fn accept_all_policy(_username: &str, _pubkey: &Vec<u8>) -> (decision: Auth)
    ensures
        decision == Auth::Accept,
{
    Auth::Accept
}

/// One connected client's session state: the identifier issued at accept
/// time and the most recently presented public key, if any attempt has
/// been made yet.  The key is stored as the plain bytes of its wire
/// encoding; parsing and signature checks belong to the protocol engine.
pub struct SSHServer {
    /// Process-lifetime-unique identifier of this client.
    pub id: u64,
    /// The public key of the last authentication attempt, or `None` before
    /// the first one.  Re-authentication overwrites; only the last key is
    /// retained.
    pub client_pubkey: Option<Vec<u8>>,
}

impl SSHServer {
    /// The recorded key as a mathematical value.
    pub open spec fn pubkey_view(&self) -> Option<Seq<u8>> {
        match self.client_pubkey {
            Some(k) => Some(k@),
            None => None,
        }
    }

    /// Decide an authentication attempt and record the presented key,
    /// overwriting any earlier one.  The accept-all policy never rejects,
    /// so every attempt succeeds, whatever the username and whatever the
    /// (syntactically valid) key.
    pub fn auth_publickey(&mut self, username: &str, pubkey: Vec<u8>) -> (decision: Auth)
        ensures
            decision == Auth::Accept,
            final(self).pubkey_view() == Some(pubkey@),
            final(self).id == old(self).id,
    {
        let decision = accept_all_policy(username, &pubkey);
        self.client_pubkey = Some(pubkey);
        decision
    }

    /// Accept a session-channel open and register the new channel under
    /// (this client, the engine-assigned channel identifier).  Always
    /// accepts.  The engine never reuses a live channel identifier within
    /// one connection, so the key is fresh.
    pub fn channel_open_session(&self, registry: &mut Registry, channel: u64) -> (accept: bool)
        requires
            old(registry).wf(),
            !old(registry).contains_key(ChannelKey { client: self.id, channel }),
        ensures
            accept,
            final(registry)@ =~= old(registry)@.push(ChannelKey { client: self.id, channel }),
            final(registry).wf(),
    {
        registry.open_channel(ChannelKey { client: self.id, channel });
        true
    }

    /// React to bytes arriving on one of this client's channels: fan the
    /// payload out to every channel currently in the registry — channels
    /// of other clients and the sender's own channel alike (the origin
    /// channel is deliberately not excluded, so its identifier goes
    /// unread).  The result lists one write per registered entry, in
    /// registry order, each carrying the payload verbatim; the caller
    /// performs the writes before releasing the registry.
    pub fn data(&self, registry: &Registry, _channel: u64, data: &Vec<u8>) -> (writes: Vec<
        ChannelWrite,
    >)
        ensures
            writes@.len() == registry@.len(),
            forall|i: int|
                0 <= i < writes@.len() ==> (#[trigger] writes@[i]).key == registry@[i]
                    && writes@[i].payload@ =~= data@,
    {
        broadcast_writes(registry, data)
    }
}

/// The broadcast rule itself: one write per registered channel, in
/// registry order, each carrying the payload unchanged — no transformation,
/// no per-recipient addressing, no self-exclusion.
pub fn broadcast_writes(registry: &Registry, data: &Vec<u8>) -> (writes: Vec<ChannelWrite>)
    ensures
        writes@.len() == registry@.len(),
        forall|i: int|
            0 <= i < writes@.len() ==> (#[trigger] writes@[i]).key == registry@[i]
                && writes@[i].payload@ =~= data@,
{
    let n = registry.len();
    let mut writes: Vec<ChannelWrite> = Vec::new();
    let mut i: usize = 0;
    while i < n
        invariant
            n == registry@.len(),
            i <= n,
            writes@.len() == i,
            forall|j: int|
                0 <= j < i ==> (#[trigger] writes@[j]).key == registry@[j] && writes@[j].payload@
                    =~= data@,
        decreases n - i,
    {
        let key = registry.key_at(i);
        let payload = copy_payload(data);
        writes.push(ChannelWrite { key, payload });
        i += 1;
    }
    writes
}

/// Byte-for-byte copy of a payload, so that each recipient of a broadcast
/// gets the bytes exactly as they arrived.
fn copy_payload(data: &Vec<u8>) -> (out: Vec<u8>)
    ensures
        out@ =~= data@,
{
    let n = data.len();
    let mut out: Vec<u8> = Vec::new();
    let mut i: usize = 0;
    while i < n
        invariant
            n == data@.len(),
            i <= n,
            out@ =~= data@.take(i as int),
        decreases n - i,
    {
        out.push(data[i]);
        i += 1;
    }
    out
}

/// Broadcast completeness: every channel registered when the pass begins
/// receives the exact payload by the time the pass is planned — there is a
/// write for each registered key, carrying the payload verbatim.  Follows
/// from the write list mirroring the registry entry by entry, as the
/// contract of `broadcast_writes` states.
pub proof fn lemma_broadcast_complete(
    keys: Seq<ChannelKey>,
    writes: Seq<ChannelWrite>,
    payload: Seq<u8>,
)
    requires
        writes.len() == keys.len(),
        forall|i: int|
            0 <= i < writes.len() ==> (#[trigger] writes[i]).key == keys[i] && writes[i].payload@
                =~= payload,
    ensures
        forall|k: ChannelKey|
            keys.contains(k) ==> exists|i: int|
                0 <= i < writes.len() && (#[trigger] writes[i]).key == k && writes[i].payload@
                    =~= payload,
{
    assert forall|k: ChannelKey| keys.contains(k) implies exists|i: int|
        0 <= i < writes.len() && (#[trigger] writes[i]).key == k && writes[i].payload@
            =~= payload by {
        let j = choose|j: int| 0 <= j < keys.len() && keys[j] == k;
        assert(0 <= j < writes.len() && writes[j].key == k && writes[j].payload@ =~= payload);
    }
}

/// A single broadcast pass visits every registered entry exactly once:
/// since the write list mirrors the registry entry by entry and no two
/// live entries share a key, no key is written to twice in one pass.
pub proof fn lemma_broadcast_exactly_once(
    keys: Seq<ChannelKey>,
    writes: Seq<ChannelWrite>,
)
    requires
        writes.len() == keys.len(),
        forall|i: int| 0 <= i < writes.len() ==> (#[trigger] writes[i]).key == keys[i],
        forall|i: int, j: int| 0 <= i < j < keys.len() ==> #[trigger] keys[i] != #[trigger] keys[j],
    ensures
        forall|i: int, j: int|
            0 <= i < writes.len() && 0 <= j < writes.len() && (#[trigger] writes[i]).key == (
            #[trigger] writes[j]).key ==> i == j,
{
    assert forall|i: int, j: int|
        0 <= i < writes.len() && 0 <= j < writes.len() && (#[trigger] writes[i]).key == (
        #[trigger] writes[j]).key implies i == j by {
        if i < j {
            assert(keys[i] != keys[j]);
        } else if j < i {
            assert(keys[j] != keys[i]);
        }
    }
}

} // verus!
