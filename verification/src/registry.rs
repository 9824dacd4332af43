//! The connection registry: at most one live actor per identifier.
//!
//! The registry is the one resource shared across connections. It is modelled
//! here as a sequence of actors whose identifiers are pairwise distinct; the
//! boundary serialises access to it and drives each actor's I/O loops,
//! feeding their observations back through [`ConnectionRegistry::actor_event`].

use vstd::prelude::*;
use crate::actor::{ActorAction, ActorEvent, ConnectionActor};
use crate::config::{uri_check, uri_ok, ConnectionKind, WebSocketConfig};
use crate::errors::WsError;
use crate::info::{ConnState, ConnectionInfo};
use crate::text::string_eq_str;
use vstd::pervasive::VecAdditionalExecFns;

verus! {

/// All identifiers in `s` are pairwise distinct.
pub open spec fn ids_unique(s: Seq<ConnectionActor>) -> bool {
    forall|i: int, j: int| 0 <= i < j < s.len() ==> s[i].id() != s[j].id()
}

/// Some entry of `s` serves `id`.
pub open spec fn has_id(s: Seq<ConnectionActor>, id: Seq<char>) -> bool {
    exists|i: int| 0 <= i < s.len() && s[i].id() == id
}

/// The index of the entry serving `id` (meaningful only when `has_id`).
pub open spec fn idx_of(s: Seq<ConnectionActor>, id: Seq<char>) -> int {
    choose|i: int| 0 <= i < s.len() && s[i].id() == id
}

/// The entry serving `id` (meaningful only when `has_id`).
pub open spec fn entry_at(s: Seq<ConnectionActor>, id: Seq<char>) -> ConnectionActor {
    s[idx_of(s, id)]
}

/// With pairwise-distinct identifiers, an entry found at `i` is the entry
/// `idx_of` and `entry_at` speak of.
pub proof fn lemma_idx_of(s: Seq<ConnectionActor>, id: Seq<char>, i: int)
    requires
        ids_unique(s),
        0 <= i < s.len(),
        s[i].id() == id,
    ensures
        has_id(s, id),
        idx_of(s, id) == i,
        entry_at(s, id) == s[i],
{
    assert(has_id(s, id));
    let j = idx_of(s, id);
    assert(0 <= j < s.len() && s[j].id() == id);
    if j != i {
        if j < i {
            assert(s[j].id() != s[i].id());
        } else {
            assert(s[i].id() != s[j].id());
        }
    }
}

/// Replacing the entry at `i` by one serving the same identifier keeps the
/// identifiers distinct and leaves every other identifier's entry unchanged.
pub proof fn lemma_update_preserves(s: Seq<ConnectionActor>, i: int, e: ConnectionActor)
    requires
        ids_unique(s),
        0 <= i < s.len(),
        e.id() == s[i].id(),
    ensures
        ids_unique(s.update(i, e)),
        has_id(s.update(i, e), e.id()),
        entry_at(s.update(i, e), e.id()) == e,
        forall|x: Seq<char>| x != e.id() ==> has_id(s.update(i, e), x) == has_id(s, x),
        forall|x: Seq<char>|
            x != e.id() && has_id(s, x) ==> entry_at(s.update(i, e), x) == entry_at(s, x),
{
    let s2 = s.update(i, e);
    assert forall|p: int, q: int| 0 <= p < q < s2.len() implies s2[p].id() != s2[q].id() by {
        if p == i {
            assert(s[p].id() != s[q].id());
        } else if q == i {
            assert(s[p].id() != s[q].id());
        } else {
            assert(s[p].id() != s[q].id());
        }
    }
    lemma_idx_of(s2, e.id(), i);
    assert forall|x: Seq<char>| x != e.id() implies has_id(s2, x) == has_id(s, x) by {
        if has_id(s, x) {
            let j = idx_of(s, x);
            assert(0 <= j < s.len() && s[j].id() == x);
            assert(j != i);
            assert(s2[j].id() == x);
            assert(has_id(s2, x));
        }
        if has_id(s2, x) {
            let j = choose|j: int| 0 <= j < s2.len() && s2[j].id() == x;
            assert(j != i);
            assert(s[j].id() == x);
            assert(has_id(s, x));
        }
    }
    assert forall|x: Seq<char>|
        x != e.id() && has_id(s, x) implies entry_at(s2, x) == entry_at(s, x) by {
        let j = idx_of(s, x);
        assert(0 <= j < s.len() && s[j].id() == x);
        lemma_idx_of(s, x, j);
        assert(j != i);
        assert(s2[j] == s[j]);
        lemma_idx_of(s2, x, j);
    }
}

/// Appending an entry for a fresh identifier keeps the identifiers distinct
/// and leaves every other identifier's entry unchanged.
pub proof fn lemma_push_preserves(s: Seq<ConnectionActor>, e: ConnectionActor)
    requires
        ids_unique(s),
        !has_id(s, e.id()),
    ensures
        ids_unique(s.push(e)),
        has_id(s.push(e), e.id()),
        entry_at(s.push(e), e.id()) == e,
        forall|x: Seq<char>| x != e.id() ==> has_id(s.push(e), x) == has_id(s, x),
        forall|x: Seq<char>|
            x != e.id() && has_id(s, x) ==> entry_at(s.push(e), x) == entry_at(s, x),
{
    let s2 = s.push(e);
    assert forall|p: int, q: int| 0 <= p < q < s2.len() implies s2[p].id() != s2[q].id() by {
        if q == s.len() {
            assert(s2[p] == s[p]);
            if s[p].id() == e.id() {
                assert(has_id(s, e.id()));
            }
        } else {
            assert(s2[p] == s[p]);
            assert(s2[q] == s[q]);
        }
    }
    lemma_idx_of(s2, e.id(), s.len() as int);
    assert forall|x: Seq<char>| x != e.id() implies has_id(s2, x) == has_id(s, x) by {
        if has_id(s, x) {
            let j = idx_of(s, x);
            assert(0 <= j < s.len() && s[j].id() == x);
            assert(s2[j].id() == x);
            assert(has_id(s2, x));
        }
        if has_id(s2, x) {
            let j = choose|j: int| 0 <= j < s2.len() && s2[j].id() == x;
            assert(j != s.len());
            assert(s[j].id() == x);
            assert(has_id(s, x));
        }
    }
    assert forall|x: Seq<char>|
        x != e.id() && has_id(s, x) implies entry_at(s2, x) == entry_at(s, x) by {
        let j = idx_of(s, x);
        assert(0 <= j < s.len() && s[j].id() == x);
        lemma_idx_of(s, x, j);
        assert(s2[j] == s[j]);
        lemma_idx_of(s2, x, j);
    }
}

/// Removing the entry at `i` keeps the identifiers distinct, drops exactly
/// that identifier, and leaves every other identifier's entry unchanged.
pub proof fn lemma_remove_preserves(s: Seq<ConnectionActor>, i: int)
    requires
        ids_unique(s),
        0 <= i < s.len(),
    ensures
        ids_unique(s.remove(i)),
        !has_id(s.remove(i), s[i].id()),
        forall|x: Seq<char>| x != s[i].id() ==> has_id(s.remove(i), x) == has_id(s, x),
        forall|x: Seq<char>|
            x != s[i].id() && has_id(s, x) ==> entry_at(s.remove(i), x) == entry_at(s, x),
{
    let s2 = s.remove(i);
    assert(s2.len() == s.len() - 1);
    assert(forall|k: int| 0 <= k < i ==> s2[k] == s[k]);
    assert(forall|k: int| i <= k < s2.len() ==> s2[k] == s[k + 1]);
    assert forall|p: int, q: int| 0 <= p < q < s2.len() implies s2[p].id() != s2[q].id() by {
        let p0 = if p < i { p } else { p + 1 };
        let q0 = if q < i { q } else { q + 1 };
        assert(s2[p] == s[p0]);
        assert(s2[q] == s[q0]);
        assert(s[p0].id() != s[q0].id());
    }
    if has_id(s2, s[i].id()) {
        let j = choose|j: int| 0 <= j < s2.len() && s2[j].id() == s[i].id();
        let j0 = if j < i { j } else { j + 1 };
        assert(s2[j] == s[j0]);
        assert(j0 != i);
        assert(s[j0].id() != s[i].id());
    }
    assert forall|x: Seq<char>| x != s[i].id() implies has_id(s2, x) == has_id(s, x) by {
        if has_id(s, x) {
            let j = idx_of(s, x);
            assert(0 <= j < s.len() && s[j].id() == x);
            assert(j != i);
            let j2 = if j < i { j } else { j - 1 };
            assert(s2[j2] == s[j]);
            assert(has_id(s2, x));
        }
        if has_id(s2, x) {
            let j = choose|j: int| 0 <= j < s2.len() && s2[j].id() == x;
            let j0 = if j < i { j } else { j + 1 };
            assert(s[j0].id() == x);
            assert(has_id(s, x));
        }
    }
    assert forall|x: Seq<char>|
        x != s[i].id() && has_id(s, x) implies entry_at(s2, x) == entry_at(s, x) by {
        let j = idx_of(s, x);
        assert(0 <= j < s.len() && s[j].id() == x);
        lemma_idx_of(s, x, j);
        assert(j != i);
        let j2 = if j < i { j } else { j - 1 };
        assert(s2[j2] == s[j]);
        lemma_idx_of(s2, x, j2);
    }
}

/// What starting a connection attempt decided.
#[derive(Clone, Copy, PartialEq, Eq, Structural, Debug)]
pub enum ConnectStart {
    /// A live, connected entry already serves the identifier: nothing to do.
    AlreadyConnected,
    /// A fresh entry was created; the caller must attempt the handshake and
    /// report its outcome through `connect_finish`.
    Handshake,
}

/// The identifier-to-actor map of the connection manager.
pub struct ConnectionRegistry {
    pub entries: Vec<ConnectionActor>,
}

impl ConnectionRegistry {
    /// The registry's invariant: pairwise-distinct identifiers, and every
    /// entry well-formed.
    pub open spec fn wf(self) -> bool {
        &&& ids_unique(self.entries@)
        &&& forall|i: int| 0 <= i < self.entries@.len() ==> (#[trigger] self.entries@[i]).wf()
    }

    /// Whether an entry serves `id`.
    pub open spec fn has(self, id: Seq<char>) -> bool {
        has_id(self.entries@, id)
    }

    /// The entry serving `id` (meaningful only when `has`).
    pub open spec fn at(self, id: Seq<char>) -> ConnectionActor {
        entry_at(self.entries@, id)
    }

    /// What a status query for `id` reports.
    pub open spec fn spec_status(self, id: Seq<char>) -> Option<ConnectionInfo> {
        if self.has(id) {
            Some(self.at(id).info)
        } else {
            None
        }
    }

    /// An empty registry.
    pub fn new() -> (r: ConnectionRegistry)
        ensures
            r.wf(),
            r.entries@.len() == 0,
            forall|x: Seq<char>| !r.has(x),
    {
        ConnectionRegistry { entries: Vec::new() }
    }

    /// The index of the entry serving `id`, if any.
    fn position(&self, id: &str) -> (r: Option<usize>)
        ensures
            match r {
                Some(i) => i < self.entries@.len() && self.entries@[i as int].id() == id@,
                None => !self.has(id@),
            },
    {
        let n = self.entries.len();
        let mut k: usize = 0;
        while k < n
            invariant
                n == self.entries@.len(),
                k <= n,
                forall|j: int| 0 <= j < k ==> self.entries@[j].id() != id@,
            decreases n - k,
        {
            if string_eq_str(&self.entries[k].info.config.id, id) {
                return Some(k);
            }
            k = k + 1;
        }
        None
    }

    /// A consistent snapshot of one connection's health record, or nothing
    /// if no entry serves `id`.
    pub fn status(&self, id: &str) -> (r: Option<ConnectionInfo>)
        requires
            self.wf(),
        ensures
            r == self.spec_status(id@),
    {
        match self.position(id) {
            Some(i) => {
                proof {
                    lemma_idx_of(self.entries@, id@, i as int);
                }
                Some(self.entries[i].info.clone())
            },
            None => None,
        }
    }

    /// A snapshot of every live entry's health record, one per entry, in
    /// registry order.
    pub fn all_status(&self) -> (r: Vec<ConnectionInfo>)
        requires
            self.wf(),
        ensures
            r@.len() == self.entries@.len(),
            forall|i: int| 0 <= i < r@.len() ==> r@[i] == self.entries@[i].info,
    {
        let n = self.entries.len();
        let mut out: Vec<ConnectionInfo> = Vec::new();
        let mut k: usize = 0;
        while k < n
            invariant
                n == self.entries@.len(),
                k <= n,
                out@.len() == k,
                forall|i: int| 0 <= i < k ==> out@[i] == self.entries@[i].info,
            decreases n - k,
        {
            out.push(self.entries[k].info.clone());
            k = k + 1;
        }
        out
    }

    /// Accepts a subscription against `id`: the entry must exist and be of
    /// the subscriber kind. Nothing changes; inbound frames already flow to
    /// the receive hook while the entry lives.
    pub fn subscribe(&self, id: &str) -> (r: Result<(), WsError>)
        requires
            self.wf(),
        ensures
            r is Ok <==> self.has(id@) && self.at(id@).info.config.kind()
                == Some(ConnectionKind::Subscriber),
            r == Err::<(), WsError>(WsError::NotConnected) <==> !self.has(id@),
            r == Err::<(), WsError>(WsError::WrongConnectionKind) <==> self.has(id@)
                && self.at(id@).info.config.kind() != Some(ConnectionKind::Subscriber),
    {
        match self.position(id) {
            Some(i) => {
                proof {
                    lemma_idx_of(self.entries@, id@, i as int);
                }
                match self.entries[i].info.config.parse_kind() {
                    Some(ConnectionKind::Subscriber) => Ok(()),
                    _ => Err(WsError::WrongConnectionKind),
                }
            },
            None => Err(WsError::NotConnected),
        }
    }

    /// Enqueues `message` onto `id`'s outbound queue: appended at the back,
    /// behind everything submitted before it. Fails with `NotConnected` if
    /// no live entry serves `id` — none at all, or one whose actor has
    /// terminally failed and drains nothing any more — and with
    /// `WrongConnectionKind` if the entry is not of the sender kind; failure
    /// changes nothing.
    pub fn send(&mut self, id: &str, message: String) -> (r: Result<(), WsError>)
        requires
            old(self).wf(),
        ensures
            final(self).wf(),
            r is Ok <==> old(self).has(id@) && old(self).at(id@).info.state != ConnState::Error
                && old(self).at(id@).info.config.kind() == Some(ConnectionKind::Sender),
            r == Err::<(), WsError>(WsError::NotConnected) <==> !old(self).has(id@) || old(
                self,
            ).at(id@).info.state == ConnState::Error,
            r == Err::<(), WsError>(WsError::WrongConnectionKind) <==> old(self).has(id@) && old(
                self,
            ).at(id@).info.state != ConnState::Error && old(self).at(id@).info.config.kind()
                != Some(ConnectionKind::Sender),
            r is Err ==> *final(self) == *old(self),
            r is Ok ==> {
                &&& final(self).has(id@)
                &&& final(self).at(id@).pending@ == old(self).at(id@).pending@.push(message)
                &&& final(self).at(id@).info == old(self).at(id@).info
                &&& final(self).at(id@).cancel_requested == old(self).at(id@).cancel_requested
                &&& final(self).at(id@).reconnect_used == old(self).at(id@).reconnect_used
                &&& final(self).entries@.len() == old(self).entries@.len()
            },
            forall|x: Seq<char>| x != id@ ==> final(self).has(x) == old(self).has(x),
            forall|x: Seq<char>|
                x != id@ && old(self).has(x) ==> final(self).at(x) == old(self).at(x),
    {
        let ghost s0 = self.entries@;
        match self.position(id) {
            Some(i) => {
                proof {
                    lemma_idx_of(s0, id@, i as int);
                }
                let errored = match self.entries[i].info.state {
                    ConnState::Error => true,
                    _ => false,
                };
                if errored {
                    return Err(WsError::NotConnected);
                }
                let kind = self.entries[i].info.config.parse_kind();
                match kind {
                    Some(ConnectionKind::Sender) => {
                        let a = &mut self.entries[i];
                        a.pending.push(message);
                        proof {
                            lemma_update_preserves(s0, i as int, self.entries@[i as int]);
                        }
                        Ok(())
                    },
                    _ => Err(WsError::WrongConnectionKind),
                }
            },
            None => Err(WsError::NotConnected),
        }
    }

    /// Hands the send loop the next outbound message for `id`: the queue
    /// front, in submission order. Nothing else changes.
    pub fn next_outbound(&mut self, id: &str) -> (r: Option<String>)
        requires
            old(self).wf(),
        ensures
            final(self).wf(),
            r is Some <==> old(self).has(id@) && old(self).at(id@).pending@.len() > 0,
            r is None ==> *final(self) == *old(self),
            r is Some ==> {
                &&& r == Some(old(self).at(id@).pending@[0])
                &&& final(self).has(id@)
                &&& final(self).at(id@).pending@ == old(self).at(id@).pending@.drop_first()
                &&& final(self).at(id@).info == old(self).at(id@).info
                &&& final(self).at(id@).cancel_requested == old(self).at(id@).cancel_requested
                &&& final(self).at(id@).reconnect_used == old(self).at(id@).reconnect_used
            },
            forall|x: Seq<char>| x != id@ ==> final(self).has(x) == old(self).has(x),
            forall|x: Seq<char>|
                x != id@ && old(self).has(x) ==> final(self).at(x) == old(self).at(x),
    {
        let ghost s0 = self.entries@;
        match self.position(id) {
            Some(i) => {
                proof {
                    lemma_idx_of(s0, id@, i as int);
                }
                if self.entries[i].pending.len() == 0 {
                    None
                } else {
                    let a = &mut self.entries[i];
                    let m = a.pending.remove(0);
                    proof {
                        assert(a.pending@ =~= s0[i as int].pending@.drop_first());
                        lemma_update_preserves(s0, i as int, self.entries@[i as int]);
                    }
                    Some(m)
                }
            },
            None => None,
        }
    }

    /// Sets `id`'s cancellation flag. Idempotent: the result says whether
    /// this call was the first to set it, so the socket is released exactly
    /// once. No entry, no change.
    pub fn request_cancel(&mut self, id: &str) -> (first: bool)
        requires
            old(self).wf(),
        ensures
            final(self).wf(),
            !old(self).has(id@) ==> !first && *final(self) == *old(self),
            old(self).has(id@) ==> {
                &&& first == !old(self).at(id@).cancel_requested
                &&& final(self).has(id@)
                &&& final(self).at(id@).cancel_requested
                &&& final(self).at(id@).info == old(self).at(id@).info
                &&& final(self).at(id@).pending@ == old(self).at(id@).pending@
                &&& final(self).at(id@).reconnect_used == old(self).at(id@).reconnect_used
            },
            forall|x: Seq<char>| x != id@ ==> final(self).has(x) == old(self).has(x),
            forall|x: Seq<char>|
                x != id@ && old(self).has(x) ==> final(self).at(x) == old(self).at(x),
    {
        let ghost s0 = self.entries@;
        match self.position(id) {
            Some(i) => {
                proof {
                    lemma_idx_of(s0, id@, i as int);
                }
                let a = &mut self.entries[i];
                let first = !a.cancel_requested;
                a.cancel_requested = true;
                proof {
                    lemma_update_preserves(s0, i as int, self.entries@[i as int]);
                }
                first
            },
            None => false,
        }
    }

    /// Removes `id`'s entry once its actor has released the socket.
    /// Idempotent: reports whether an entry was there. Afterwards no entry
    /// serves `id`, and every other entry stands as before.
    pub fn disconnect(&mut self, id: &str) -> (had: bool)
        requires
            old(self).wf(),
        ensures
            final(self).wf(),
            had == old(self).has(id@),
            !final(self).has(id@),
            !had ==> *final(self) == *old(self),
            forall|x: Seq<char>| x != id@ ==> final(self).has(x) == old(self).has(x),
            forall|x: Seq<char>|
                x != id@ && old(self).has(x) ==> final(self).at(x) == old(self).at(x),
    {
        let ghost s0 = self.entries@;
        match self.position(id) {
            Some(i) => {
                proof {
                    lemma_idx_of(s0, id@, i as int);
                    lemma_remove_preserves(s0, i as int);
                }
                self.entries.remove(i);
                true
            },
            None => false,
        }
    }

    /// Starts a connection attempt for `config`.
    ///
    /// A live, connected entry makes this a no-op success unconditionally:
    /// there is nothing to dial, so not even the target URL is examined.
    /// Only when a handshake would actually be attempted is the URL checked;
    /// one that does not parse is refused and changes nothing. Otherwise any
    /// stale entry is replaced by a fresh actor in `Connecting`, and the
    /// caller must attempt the handshake and report its outcome through
    /// `connect_finish`. The per-identifier serialisation of concurrent
    /// attempts is the boundary's duty; the fresh entry in `Connecting` is
    /// the guard it checks.
    pub fn connect_begin(&mut self, config: WebSocketConfig) -> (r: Result<ConnectStart, WsError>)
        requires
            old(self).wf(),
        ensures
            final(self).wf(),
            old(self).has(config.id@) && old(self).at(config.id@).info.state
                == ConnState::Connected ==> r == Ok::<ConnectStart, WsError>(
                ConnectStart::AlreadyConnected,
            ) && *final(self) == *old(self),
            !(old(self).has(config.id@) && old(self).at(config.id@).info.state
                == ConnState::Connected) && !uri_ok(config.ws_url@) ==> (r matches Err(
                WsError::ConnectFailed(_),
            )) && *final(self) == *old(self),
            !(old(self).has(config.id@) && old(self).at(config.id@).info.state
                == ConnState::Connected) && uri_ok(config.ws_url@) ==> {
                &&& r == Ok::<ConnectStart, WsError>(ConnectStart::Handshake)
                &&& final(self).has(config.id@)
                &&& final(self).at(config.id@).info.config == config
                &&& final(self).at(config.id@).info.state == ConnState::Connecting
                &&& final(self).at(config.id@).info.message_count == 0
                &&& final(self).at(config.id@).info.error_count == 0
                &&& final(self).at(config.id@).info.connection_time is None
                &&& final(self).at(config.id@).info.last_message_time is None
                &&& final(self).at(config.id@).info.last_error is None
                &&& final(self).at(config.id@).pending@ == Seq::<String>::empty()
                &&& !final(self).at(config.id@).cancel_requested
                &&& !final(self).at(config.id@).reconnect_used
            },
            forall|x: Seq<char>| x != config.id@ ==> final(self).has(x) == old(self).has(x),
            forall|x: Seq<char>|
                x != config.id@ && old(self).has(x) ==> final(self).at(x) == old(self).at(x),
    {
        let ghost s0 = self.entries@;
        let ghost cid = config.id@;
        let found = self.position(config.id.as_str());
        match found {
            Some(i) => {
                proof {
                    lemma_idx_of(s0, cid, i as int);
                }
                let connected = self.entries[i].info.is_connected();
                if connected {
                    Ok(ConnectStart::AlreadyConnected)
                } else {
                    match uri_check(config.ws_url.as_str()) {
                        Err(e) => Err(WsError::ConnectFailed(e)),
                        Ok(()) => {
                            let fresh = ConnectionActor::new(config);
                            proof {
                                lemma_update_preserves(s0, i as int, fresh);
                            }
                            self.entries.set(i, fresh);
                            Ok(ConnectStart::Handshake)
                        },
                    }
                }
            },
            None => {
                match uri_check(config.ws_url.as_str()) {
                    Err(e) => Err(WsError::ConnectFailed(e)),
                    Ok(()) => {
                        let fresh = ConnectionActor::new(config);
                        proof {
                            lemma_push_preserves(s0, fresh);
                        }
                        self.entries.push(fresh);
                        Ok(ConnectStart::Handshake)
                    },
                }
            },
        }
    }

    /// Records the outcome of the initial handshake that `connect_begin`
    /// asked for.
    ///
    /// Success turns the entry `Connected`, stamps the connection time and
    /// restores the reconnect budget, as every arrival in `Connected` does;
    /// failure removes the entry — a refused handshake leaves nothing behind
    /// — and reports `ConnectFailed` with the handshake's error text. With
    /// no attempt in flight for `id`, nothing changes.
    pub fn connect_finish(&mut self, id: &str, outcome: Result<i64, String>) -> (r: Result<
        (),
        WsError,
    >)
        requires
            old(self).wf(),
        ensures
            final(self).wf(),
            old(self).has(id@) && old(self).at(id@).info.state == ConnState::Connecting
                ==> match outcome {
                Ok(now) => {
                    &&& r == Ok::<(), WsError>(())
                    &&& final(self).has(id@)
                    &&& final(self).at(id@).info == (ConnectionInfo {
                        state: ConnState::Connected,
                        connection_time: Some(now),
                        ..old(self).at(id@).info
                    })
                    &&& final(self).at(id@).pending@ == old(self).at(id@).pending@
                    &&& final(self).at(id@).cancel_requested == old(self).at(
                        id@,
                    ).cancel_requested
                    &&& !final(self).at(id@).reconnect_used
                },
                Err(e) => {
                    &&& r == Err::<(), WsError>(WsError::ConnectFailed(e))
                    &&& !final(self).has(id@)
                },
            },
            !(old(self).has(id@) && old(self).at(id@).info.state == ConnState::Connecting) ==> r
                == Err::<(), WsError>(WsError::NotConnected) && *final(self) == *old(self),
            forall|x: Seq<char>| x != id@ ==> final(self).has(x) == old(self).has(x),
            forall|x: Seq<char>|
                x != id@ && old(self).has(x) ==> final(self).at(x) == old(self).at(x),
    {
        let ghost s0 = self.entries@;
        match self.position(id) {
            Some(i) => {
                proof {
                    lemma_idx_of(s0, id@, i as int);
                }
                let connecting = match self.entries[i].info.state {
                    ConnState::Connecting => true,
                    _ => false,
                };
                if connecting {
                    match outcome {
                        Ok(now) => {
                            let a = &mut self.entries[i];
                            a.info.state = ConnState::Connected;
                            a.info.connection_time = Some(now);
                            a.reconnect_used = false;
                            proof {
                                lemma_update_preserves(s0, i as int, self.entries@[i as int]);
                            }
                            Ok(())
                        },
                        Err(e) => {
                            proof {
                                lemma_remove_preserves(s0, i as int);
                            }
                            self.entries.remove(i);
                            Err(WsError::ConnectFailed(e))
                        },
                    }
                } else {
                    Err(WsError::NotConnected)
                }
            },
            None => Err(WsError::NotConnected),
        }
    }

    /// Feeds one observed event to `id`'s actor and hands back the loops'
    /// next duty. With no entry left for `id`, the loops are told to stop.
    pub fn actor_event(&mut self, id: &str, ev: ActorEvent) -> (a: ActorAction)
        requires
            old(self).wf(),
            old(self).has(id@) ==> old(self).at(id@).counters_have_room(),
        ensures
            final(self).wf(),
            !old(self).has(id@) ==> a == ActorAction::StopLoops && *final(self) == *old(self),
            old(self).has(id@) ==> {
                &&& final(self).has(id@)
                &&& final(self).at(id@) == old(self).at(id@).step(ev).0
                &&& a == old(self).at(id@).step(ev).1
            },
            forall|x: Seq<char>| x != id@ ==> final(self).has(x) == old(self).has(x),
            forall|x: Seq<char>|
                x != id@ && old(self).has(x) ==> final(self).at(x) == old(self).at(x),
    {
        let ghost s0 = self.entries@;
        match self.position(id) {
            Some(i) => {
                proof {
                    lemma_idx_of(s0, id@, i as int);
                }
                let entry = &mut self.entries[i];
                let act = entry.on_event(ev);
                proof {
                    lemma_update_preserves(s0, i as int, self.entries@[i as int]);
                }
                act
            },
            None => ActorAction::StopLoops,
        }
    }
}

/// At most one live entry exists per identifier at any instant: two distinct
/// entries of a well-formed registry never serve the same identifier. Every
/// operation of [`ConnectionRegistry`] ensures well-formedness, and
/// `connect_begin` replaces a stale entry instead of adding a second one, so
/// this holds throughout.
pub proof fn lemma_at_most_one_entry(r: ConnectionRegistry, i: int, j: int)
    requires
        r.wf(),
        0 <= i < r.entries@.len(),
        0 <= j < r.entries@.len(),
        i != j,
    ensures
        r.entries@[i].id() != r.entries@[j].id(),
{
    if i < j {
        assert(r.entries@[i].id() != r.entries@[j].id());
    } else {
        assert(r.entries@[j].id() != r.entries@[i].id());
    }
}

/// Messages submitted one after the other stand in the outbound queue in
/// submission order: `send` appends at the back (its contract says the queue
/// becomes the old queue with the message pushed), so after two submissions
/// the first stands directly before the second, and `next_outbound` hands
/// the front out first.
pub proof fn lemma_send_order(q: Seq<String>, m1: String, m2: String)
    ensures
        q.push(m1).push(m2).len() == q.len() + 2,
        q.push(m1).push(m2)[q.len() as int] == m1,
        q.push(m1).push(m2)[q.len() as int + 1] == m2,
{
}

/// After a disconnect of `id` no entry serves it — `disconnect` ensures
/// exactly that — so a status query straight after reports nothing.
pub proof fn lemma_status_none_after_disconnect(r: ConnectionRegistry, id: Seq<char>)
    requires
        !r.has(id),
    ensures
        r.spec_status(id) is None,
{
}

} // verus!
