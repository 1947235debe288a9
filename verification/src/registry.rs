//! The table of open sockets and the handles that name them.
use std::collections::HashMap;
use std::sync::Arc;
use tokio::net::UdpSocket;
use tokio::sync::{Mutex, Notify};
use vstd::prelude::*;

verus! {

broadcast use vstd::std_specs::hash::group_hash_axioms;

/// The socket of `tokio`. Its values are carried through and never looked into.
#[verifier::external_type_specification]
#[verifier::external_body]
pub struct ExUdpSocket(UdpSocket);

/// The asynchronous lock of `tokio`. Its values are identities, carried through and never looked
/// into.
#[verifier::external_type_specification]
#[verifier::external_body]
#[verifier::reject_recursive_types(T)]
pub struct ExMutex<T: ?Sized>(Mutex<T>);

/// The wake-up signal of `tokio`. Its values are identities, carried through and never looked into.
#[verifier::external_type_specification]
#[verifier::external_body]
pub struct ExNotify(Notify);

/// Calls `tokio::sync::Mutex::new`, which makes a lock of its own: a lock is known by its identity,
/// and the new one is none of those that the sockets of `used` have. Whether a lock is held changes
/// over time and is no part of its value here.
#[verifier::external_body]
fn new_lock(used: &HashMap<i64, SocketState>) -> (lock: Mutex<()>)
    ensures
        forall|h: i64| #[trigger] used@.contains_key(h) ==> *used@[h].recv_lock != lock,
{
    Mutex::new(())
}

/// Calls `tokio::sync::Notify::new`, which makes a signal of its own: a signal is known by its
/// identity, and the new one is none of those that the sockets of `used` have. Who waits for a
/// signal changes over time and is no part of its value here.
#[verifier::external_body]
fn new_signal(used: &HashMap<i64, SocketState>) -> (signal: Notify)
    ensures
        forall|h: i64| #[trigger] used@.contains_key(h) ==> *used@[h].closing != signal,
{
    Notify::new()
}

/// Calls `Arc::clone`, which returns a second pointer to what `shared` points to.
#[verifier::external_body]
fn share<T>(shared: &Arc<T>) -> (copy: Arc<T>)
    ensures
        copy == *shared,
{
    Arc::clone(shared)
}

/// One open socket.
pub struct SocketState {
    /// The system socket; `None` until a bind succeeds.
    pub socket: Option<Arc<UdpSocket>>,
    /// Held while a datagram is awaited, so that concurrent receives take turns.
    pub recv_lock: Arc<Mutex<()>>,
    /// What the receives that wait are woken by when the socket is closed.
    pub closing: Arc<Notify>,
    /// The address family, chosen when the socket was created.
    pub ipv6: bool,
}

/// What a registry holds.
#[verifier::ext_equal]
pub struct RegistryView {
    /// The open sockets by handle.
    pub sockets: Map<i64, SocketState>,
    /// The handle that the next socket gets.
    pub next_id: i64,
}

/// The open sockets, by handle.
pub struct Registry {
    sockets: HashMap<i64, SocketState>,
    next_id: i64,
}

impl View for Registry {
    type V = RegistryView;

    closed spec fn view(&self) -> RegistryView {
        RegistryView { sockets: self.sockets@, next_id: self.next_id }
    }
}

/// Takes the next handle from the counter and moves the counter on.
pub fn next_id(counter: &mut i64) -> (id: i64)
    requires
        *old(counter) < i64::MAX,
    ensures
        id == *old(counter),
        *final(counter) == *old(counter) + 1,
{
    let id: i64 = *counter;
    *counter = *counter + 1;
    id
}

impl RegistryView {
    /// Handles are positive, every open socket has one that was handed out, and no two open sockets
    /// share a receive lock or a closing signal.
    pub open spec fn well_formed(self) -> bool {
        &&& self.next_id >= 1
        &&& forall|h: i64| #[trigger]
            self.sockets.contains_key(h) ==> 1 <= h < self.next_id
        &&& forall|h: i64, k: i64|
            #![trigger self.sockets.contains_key(h), self.sockets.contains_key(k)]
            self.sockets.contains_key(h) && self.sockets.contains_key(k) && h != k ==> {
                &&& self.sockets[h].recv_lock != self.sockets[k].recv_lock
                &&& self.sockets[h].closing != self.sockets[k].closing
            }
    }

    /// Whether no open socket has this receive lock or this closing signal.
    pub open spec fn is_fresh(self, recv_lock: Arc<Mutex<()>>, closing: Arc<Notify>) -> bool {
        forall|h: i64| #[trigger]
            self.sockets.contains_key(h) ==> {
                &&& self.sockets[h].recv_lock != recv_lock
                &&& self.sockets[h].closing != closing
            }
    }

    /// Whether `handle` names an open socket.
    pub open spec fn is_open(self, handle: i64) -> bool {
        self.sockets.contains_key(handle)
    }

    /// The system socket behind `handle`: `None` when the handle is not open or not bound.
    pub open spec fn bound_socket(self, handle: i64) -> Option<Arc<UdpSocket>> {
        if self.is_open(handle) {
            self.sockets[handle].socket
        } else {
            None
        }
    }

    /// The registry with one more unbound socket, under the next handle.
    pub open spec fn opened(
        self,
        ipv6: bool,
        recv_lock: Arc<Mutex<()>>,
        closing: Arc<Notify>,
    ) -> RegistryView {
        RegistryView {
            sockets: self.sockets.insert(
                self.next_id,
                SocketState { socket: None, recv_lock, closing, ipv6 },
            ),
            next_id: (self.next_id + 1) as i64,
        }
    }

    /// Whether `handle` names an open socket that has no system socket yet.
    pub open spec fn is_unbound(self, handle: i64) -> bool {
        self.is_open(handle) && self.sockets[handle].socket is None
    }

    /// The registry once `socket` is the system socket of `handle`; unchanged if `handle` is not
    /// open or has a system socket already.
    pub open spec fn attached(self, handle: i64, socket: Arc<UdpSocket>) -> RegistryView {
        if self.is_unbound(handle) {
            RegistryView {
                sockets: self.sockets.insert(
                    handle,
                    SocketState { socket: Some(socket), ..self.sockets[handle] },
                ),
                next_id: self.next_id,
            }
        } else {
            self
        }
    }

    /// The registry without `handle`.
    pub open spec fn closed(self, handle: i64) -> RegistryView {
        RegistryView { sockets: self.sockets.remove(handle), next_id: self.next_id }
    }

    /// The registry that a program starts with.
    pub open spec fn initial() -> RegistryView {
        RegistryView { sockets: Map::empty(), next_id: 1 }
    }

    /// Opening a socket with a lock and a signal of its own keeps the registry well formed, as long
    /// as a handle is left.
    pub proof fn lemma_opened(
        self,
        ipv6: bool,
        recv_lock: Arc<Mutex<()>>,
        closing: Arc<Notify>,
    )
        requires
            self.well_formed(),
            self.next_id < i64::MAX,
            self.is_fresh(recv_lock, closing),
        ensures
            self.opened(ipv6, recv_lock, closing).well_formed(),
    {
        let after = self.opened(ipv6, recv_lock, closing);
        assert forall|h: i64| #[trigger] after.sockets.contains_key(h) implies 1 <= h
            < after.next_id by {
            assert(h == self.next_id || self.sockets.contains_key(h));
        }
        assert forall|h: i64, k: i64|
            #![trigger after.sockets.contains_key(h), after.sockets.contains_key(k)]
            after.sockets.contains_key(h) && after.sockets.contains_key(k) && h != k implies {
            &&& after.sockets[h].recv_lock != after.sockets[k].recv_lock
            &&& after.sockets[h].closing != after.sockets[k].closing
        } by {
            assert(h == self.next_id || self.sockets.contains_key(h));
            assert(k == self.next_id || self.sockets.contains_key(k));
        }
    }

    /// Attaching a system socket keeps the registry well formed.
    pub proof fn lemma_attached(self, handle: i64, socket: Arc<UdpSocket>)
        requires
            self.well_formed(),
        ensures
            self.attached(handle, socket).well_formed(),
    {
        let after = self.attached(handle, socket);
        assert forall|h: i64| #[trigger] after.sockets.contains_key(h) implies 1 <= h
            < after.next_id by {
            assert(self.sockets.contains_key(h));
        }
        assert forall|h: i64, k: i64|
            #![trigger after.sockets.contains_key(h), after.sockets.contains_key(k)]
            after.sockets.contains_key(h) && after.sockets.contains_key(k) && h != k implies {
            &&& after.sockets[h].recv_lock != after.sockets[k].recv_lock
            &&& after.sockets[h].closing != after.sockets[k].closing
        } by {
            assert(self.sockets.contains_key(h) && self.sockets.contains_key(k));
        }
    }

    /// Closing a socket keeps the registry well formed.
    pub proof fn lemma_closed(self, handle: i64)
        requires
            self.well_formed(),
        ensures
            self.closed(handle).well_formed(),
    {
        let after = self.closed(handle);
        assert forall|h: i64| #[trigger] after.sockets.contains_key(h) implies 1 <= h
            < after.next_id by {
            assert(self.sockets.contains_key(h));
        }
        assert forall|h: i64, k: i64|
            #![trigger after.sockets.contains_key(h), after.sockets.contains_key(k)]
            after.sockets.contains_key(h) && after.sockets.contains_key(k) && h != k implies {
            &&& after.sockets[h].recv_lock != after.sockets[k].recv_lock
            &&& after.sockets[h].closing != after.sockets[k].closing
        } by {
            assert(self.sockets.contains_key(h) && self.sockets.contains_key(k));
        }
    }
}

impl Registry {
    /// An empty registry; the first handle is 1.
    pub fn new() -> (registry: Self)
        ensures
            registry@ == RegistryView::initial(),
            registry@.well_formed(),
    {
        Registry { sockets: HashMap::new(), next_id: 1 }
    }

    /// Whether a handle is left for one more socket.
    pub fn has_free_handle(&self) -> (free: bool)
        ensures
            free == (self@.next_id < i64::MAX),
    {
        self.next_id < i64::MAX
    }

    /// The state of the socket that `handle` names.
    pub fn get(&self, handle: i64) -> (state: Option<&SocketState>)
        ensures
            state == (if self@.is_open(handle) {
                Some(&self@.sockets[handle])
            } else {
                None
            }),
    {
        self.sockets.get(&handle)
    }

    /// The system socket behind `handle`, shared; `None` when the handle is not open or not bound.
    pub fn bound_socket(&self, handle: i64) -> (socket: Option<Arc<UdpSocket>>)
        ensures
            socket == self@.bound_socket(handle),
    {
        match self.sockets.get(&handle) {
            Some(state) => state.share_socket(),
            None => None,
        }
    }

    /// Registers an unbound socket, with a lock and a signal of its own, and returns its handle.
    pub fn open(&mut self, ipv6: bool) -> (handle: i64)
        requires
            old(self)@.well_formed(),
            old(self)@.next_id < i64::MAX,
        ensures
            handle == old(self)@.next_id,
            handle >= 1,
            !old(self)@.is_open(handle),
            final(self)@.is_open(handle),
            final(self)@ == old(self)@.opened(
                ipv6,
                final(self)@.sockets[handle].recv_lock,
                final(self)@.sockets[handle].closing,
            ),
            old(self)@.is_fresh(
                final(self)@.sockets[handle].recv_lock,
                final(self)@.sockets[handle].closing,
            ),
            final(self)@.well_formed(),
    {
        let handle: i64 = next_id(&mut self.next_id);
        let state = SocketState {
            socket: None,
            recv_lock: Arc::new(new_lock(&self.sockets)),
            closing: Arc::new(new_signal(&self.sockets)),
            ipv6,
        };
        proof {
            old(self)@.lemma_opened(ipv6, state.recv_lock, state.closing);
        }
        self.sockets.insert(handle, state);
        handle
    }

    /// Makes `socket` the system socket of `handle`. Returns `false`, and changes nothing, if
    /// `handle` is not open or has a system socket already.
    pub fn attach(&mut self, handle: i64, socket: Arc<UdpSocket>) -> (attached: bool)
        requires
            old(self)@.well_formed(),
        ensures
            attached == old(self)@.is_unbound(handle),
            final(self)@ == old(self)@.attached(handle, socket),
            final(self)@.well_formed(),
    {
        proof {
            old(self)@.lemma_attached(handle, socket);
        }
        match self.sockets.remove(&handle) {
            Some(state) => {
                let unbound: bool = state.socket.is_none();
                let kept = if unbound {
                    SocketState {
                        socket: Some(socket),
                        recv_lock: state.recv_lock,
                        closing: state.closing,
                        ipv6: state.ipv6,
                    }
                } else {
                    state
                };
                self.sockets.insert(handle, kept);
                assert(self@.sockets =~= old(self)@.attached(handle, socket).sockets);
                unbound
            },
            None => {
                assert(self@.sockets =~= old(self)@.sockets);
                false
            },
        }
    }

    /// Drops the socket that `handle` names, if there is one, and returns the signal that wakes its
    /// waiting receives.
    pub fn close(&mut self, handle: i64) -> (closing: Option<Arc<Notify>>)
        requires
            old(self)@.well_formed(),
        ensures
            closing == (if old(self)@.is_open(handle) {
                Some(old(self)@.sockets[handle].closing)
            } else {
                None
            }),
            final(self)@ == old(self)@.closed(handle),
            final(self)@.well_formed(),
    {
        proof {
            old(self)@.lemma_closed(handle);
        }
        match self.sockets.remove(&handle) {
            Some(state) => Some(state.closing),
            None => None,
        }
    }
}

impl SocketState {
    /// The system socket, shared.
    pub fn share_socket(&self) -> (socket: Option<Arc<UdpSocket>>)
        ensures
            socket == self.socket,
    {
        match &self.socket {
            Some(socket) => Some(share(socket)),
            None => None,
        }
    }

    /// The receive lock, shared.
    pub fn share_lock(&self) -> (lock: Arc<Mutex<()>>)
        ensures
            lock == self.recv_lock,
    {
        share(&self.recv_lock)
    }

    /// The closing signal, shared.
    pub fn share_closing(&self) -> (closing: Arc<Notify>)
        ensures
            closing == self.closing,
    {
        share(&self.closing)
    }
}

} // verus!
