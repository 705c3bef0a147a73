//! The client factory: the listener-side glue that, on each accepted
//! connection, issues the next client identifier and builds a fresh
//! session handler for it.  A ghost history of every identifier issued so
//! far carries the monotonicity guarantee: identifiers strictly increase
//! and are never reused.
use vstd::prelude::*;

use crate::handler::SSHServer;

verus! {

/// Issues client identifiers and builds one session handler per accepted
/// connection.  All handlers built by one factory share one registry; the
/// caller passes that registry to the handler's operations.
pub struct ClientFactory {
    next_id: u64,
    issued: Ghost<Seq<u64>>,
}

impl ClientFactory {
    /// Every identifier issued so far, oldest first.
    pub closed spec fn issued_ids(&self) -> Seq<u64> {
        self.issued@
    }

    /// The identifier the next accepted connection will get.
    pub closed spec fn next(&self) -> u64 {
        self.next_id
    }

    /// Issued identifiers strictly increase, and each lies below the next
    /// one to be issued — so no identifier is ever reassigned.
    pub open spec fn wf(&self) -> bool {
        &&& forall|i: int, j: int|
            0 <= i < j < self.issued_ids().len() ==> self.issued_ids()[i] < self.issued_ids()[j]
        &&& forall|i: int|
            0 <= i < self.issued_ids().len() ==> #[trigger] self.issued_ids()[i] < self.next()
    }

    /// The identifier the next accepted connection will get.  Callers that
    /// cannot reason about the ghost state read this to rule out counter
    /// exhaustion before accepting a connection.
    pub fn next_client_id(&self) -> (n: u64)
        ensures
            n == self.next(),
    {
        self.next_id
    }

    /// A fresh factory that has issued nothing and starts counting at zero.
    pub fn new() -> (factory: ClientFactory)
        ensures
            factory.wf(),
            factory.issued_ids() =~= Seq::<u64>::empty(),
            factory.next() == 0,
    {
        ClientFactory { next_id: 0, issued: Ghost(Seq::empty()) }
    }

    /// Accept one connection: hand out the next identifier, record it in
    /// the history, and build a handler that carries it and starts with no
    /// authenticated key.  The new identifier is strictly greater than
    /// every one issued before.
    pub fn new_client(&mut self) -> (handler: SSHServer)
        requires
            old(self).wf(),
            old(self).next() < u64::MAX,
        ensures
            final(self).wf(),
            handler.id == old(self).next(),
            handler.client_pubkey is None,
            final(self).next() == old(self).next() + 1,
            final(self).issued_ids() =~= old(self).issued_ids().push(handler.id),
            forall|i: int|
                0 <= i < old(self).issued_ids().len() ==> #[trigger] old(self).issued_ids()[i]
                    < handler.id,
    {
        let id = self.next_id;
        self.next_id = self.next_id + 1;
        proof {
            self.issued@ = self.issued@.push(id);
        }
        SSHServer { id, client_pubkey: None }
    }
}

} // verus!
