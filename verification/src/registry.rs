//! The channel registry: the single piece of state shared by every live
//! session.  It records which channels are currently open, keyed by the
//! globally unique pair of a client identifier and that client's channel
//! identifier.  Entries are only ever added (the server never removes a
//! channel), and no two live entries ever share a key.
use vstd::prelude::*;

verus! {

/// Globally unique key of one open channel: the identifier of the client
/// that owns it paired with the engine-assigned channel identifier, which
/// is unique only within that client's connection.
#[derive(Clone, Copy, PartialEq, Eq, Structural, Debug)]
pub struct ChannelKey {
    /// Process-lifetime-unique identifier of the owning client.
    pub client: u64,
    /// Channel identifier assigned by the protocol engine, scoped to the client.
    pub channel: u64,
}

/// The shared mapping of open channels.  A caller serialises access to it
/// (one lock around each insert or broadcast pass); the registry itself is
/// plain sequential state.  Its view is the sequence of registered keys in
/// insertion order; well-formedness says that no key appears twice.
pub struct Registry {
    entries: Vec<ChannelKey>,
}

impl Registry {
    /// The registered keys, in insertion order.
    pub closed spec fn view(&self) -> Seq<ChannelKey> {
        self.entries@
    }

    /// No two live entries share a key.
    pub open spec fn wf(&self) -> bool {
        forall|i: int, j: int|
            0 <= i < j < self@.len() ==> #[trigger] self@[i] != #[trigger] self@[j]
    }

    /// Whether a channel with this key is currently registered.
    pub open spec fn contains_key(&self, key: ChannelKey) -> bool {
        self@.contains(key)
    }

    /// An empty registry, trivially well-formed.
    pub fn new() -> (reg: Registry)
        ensures
            reg@ =~= Seq::<ChannelKey>::empty(),
            reg.wf(),
    {
        Registry { entries: Vec::new() }
    }

    /// How many channels are currently registered.
    pub fn len(&self) -> (n: usize)
        ensures
            n == self@.len(),
    {
        self.entries.len()
    }

    /// The key of the entry at a given position of the pass order.
    pub fn key_at(&self, i: usize) -> (key: ChannelKey)
        requires
            i < self@.len(),
        ensures
            key == self@[i as int],
    {
        self.entries[i]
    }

    /// Whether a channel with this key is currently registered.
    pub fn contains(&self, key: ChannelKey) -> (present: bool)
        ensures
            present == self.contains_key(key),
    {
        let n = self.entries.len();
        let mut i: usize = 0;
        while i < n
            invariant
                n == self@.len(),
                i <= n,
                forall|j: int| 0 <= j < i ==> self@[j] != key,
            decreases n - i,
        {
            if self.entries[i] == key {
                assert(0 <= (i as int) < self@.len() && self@[i as int] == key);
                return true;
            }
            i += 1;
        }
        assert(forall|j: int| 0 <= j < self@.len() ==> self@[j] != key);
        false
    }

    /// Register a newly opened channel.  The caller guarantees that the key
    /// is fresh (the protocol engine never reuses a live channel identifier
    /// within a connection), so uniqueness of keys is preserved.
    pub fn open_channel(&mut self, key: ChannelKey)
        requires
            old(self).wf(),
            !old(self).contains_key(key),
        ensures
            final(self)@ =~= old(self)@.push(key),
            final(self).wf(),
            final(self).contains_key(key),
    {
        self.entries.push(key);
        proof {
            let s = self@;
            let n = old(self)@.len() as int;
            assert(s[n] == key);
            assert forall|i: int, j: int| 0 <= i < j < s.len() implies s[i] != s[j] by {
                if j < n {
                    assert(old(self)@[i] != old(self)@[j]);
                } else {
                    assert(!old(self)@.contains(key));
                    assert(old(self)@[i] == s[i]);
                    if s[i] == key {
                        assert(old(self)@.contains(key));
                    }
                }
            }
        }
    }
}

} // verus!
