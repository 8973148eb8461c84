//! The peer table: who is registered as a peer, and the decisions of the
//! accept and connect paths.
//!
//! The table holds one entry per live session, keyed by the textual form of
//! the peer's address. It never holds a loopback address and never holds a
//! key twice.

use vstd::prelude::*;
use crate::message::{texts, MessageView, NetworkMessage, MAX_ADDRS};

verus! {

/// The address to listen on where any port will do.
pub const ANY_ADDRESS: &'static str = "0.0.0.0:0";

/// What the session manager reads of a socket address: its textual form,
/// which is the key of the peer table, and whether it is a loopback
/// address.
#[derive(Clone, Debug, PartialEq, Eq)]
pub struct PeerAddress {
    pub text: String,
    pub loopback: bool,
}

/// The contents of a [`PeerAddress`].
pub struct PeerAddressView {
    pub text: Seq<char>,
    pub loopback: bool,
}

impl View for PeerAddress {
    type V = PeerAddressView;

    open spec fn view(&self) -> PeerAddressView {
        PeerAddressView { text: self.text@, loopback: self.loopback }
    }
}

/// An entry of the peer table.
#[derive(Clone, Debug, PartialEq, Eq)]
pub struct PeerNode {
    pub address: PeerAddress,
    /// When the session started; it is not refreshed afterwards.
    pub last_seen: i64,
}

/// The contents of a [`PeerNode`].
pub struct PeerNodeView {
    pub address: PeerAddressView,
    pub last_seen: i64,
}

impl View for PeerNode {
    type V = PeerNodeView;

    open spec fn view(&self) -> PeerNodeView {
        PeerNodeView { address: self.address@, last_seen: self.last_seen }
    }
}

/// Whether the table holds an entry under `key`.
pub open spec fn has_peer(peers: Seq<PeerNodeView>, key: Seq<char>) -> bool {
    exists|i: int| 0 <= i < peers.len() && #[trigger] peers[i].address.text == key
}

/// The position of the entry under `key`, where the table holds one.
pub open spec fn peer_index(peers: Seq<PeerNodeView>, key: Seq<char>) -> int {
    choose|i: int| 0 <= i < peers.len() && #[trigger] peers[i].address.text == key
}

/// What holds of every peer table: no key occurs twice, and no entry is a
/// loopback address.
pub open spec fn table_wf(peers: Seq<PeerNodeView>) -> bool {
    &&& forall|i: int, j: int|
        0 <= i < j < peers.len() ==> #[trigger] peers[i].address.text
            != #[trigger] peers[j].address.text
    &&& forall|i: int| 0 <= i < peers.len() ==> !(#[trigger] peers[i]).address.loopback
}

/// The table after `node` is stored under its key: it takes the place of
/// the entry with that key, or is added as a new entry.
pub open spec fn with_peer(peers: Seq<PeerNodeView>, node: PeerNodeView) -> Seq<PeerNodeView> {
    if has_peer(peers, node.address.text) {
        peers.update(peer_index(peers, node.address.text), node)
    } else {
        peers.push(node)
    }
}

/// The table after an attempt to register `node`: a loopback address is
/// never registered.
pub open spec fn registered(peers: Seq<PeerNodeView>, node: PeerNodeView) -> Seq<PeerNodeView> {
    if node.address.loopback {
        peers
    } else {
        with_peer(peers, node)
    }
}

/// The table without the entry under `key`.
pub open spec fn without_peer(peers: Seq<PeerNodeView>, key: Seq<char>) -> Seq<PeerNodeView> {
    if has_peer(peers, key) {
        peers.remove(peer_index(peers, key))
    } else {
        peers
    }
}

/// The keys of the table, in table order.
pub open spec fn peer_keys(peers: Seq<PeerNodeView>) -> Seq<Seq<char>> {
    Seq::new(peers.len(), |i: int| peers[i].address.text)
}

/// The addresses that answer a `GetAddr`: the first [`MAX_ADDRS`] keys of
/// the table, or all of them if there are fewer.
pub open spec fn advertised(peers: Seq<PeerNodeView>) -> Seq<Seq<char>> {
    if peers.len() <= MAX_ADDRS {
        peer_keys(peers)
    } else {
        peer_keys(peers).take(MAX_ADDRS as int)
    }
}

/// Whether the connect path dials `addr`: not a loopback address, and not
/// a peer already.
pub open spec fn should_dial(peers: Seq<PeerNodeView>, addr: PeerAddressView) -> bool {
    !addr.loopback && !has_peer(peers, addr.text)
}

/// The state of the session manager: the peer table and the address the
/// node listens on.
pub struct P2PNetwork {
    peers: Vec<PeerNode>,
    listener_addr: PeerAddress,
}

/// The contents of a [`P2PNetwork`].
pub struct NetworkView {
    /// The peer table, in order of first registration.
    pub peers: Seq<PeerNodeView>,
    pub listener_addr: PeerAddressView,
}

impl View for P2PNetwork {
    type V = NetworkView;

    closed spec fn view(&self) -> NetworkView {
        NetworkView {
            peers: Seq::new(self.peers@.len(), |i: int| self.peers@[i]@),
            listener_addr: self.listener_addr@,
        }
    }
}

impl P2PNetwork {
    #[verifier::type_invariant]
    spec fn inv(self) -> bool {
        table_wf(self@.peers)
    }

    /// A session manager that listens on `listener_addr` and has no peers.
    pub fn new(listener_addr: PeerAddress) -> (net: Self)
        ensures
            net@.peers == Seq::<PeerNodeView>::empty(),
            net@.listener_addr == listener_addr@,
            table_wf(net@.peers),
    {
        P2PNetwork { peers: Vec::new(), listener_addr }
    }

    /// The number of registered peers.
    pub fn peer_count(&self) -> (n: usize)
        ensures
            n == self@.peers.len(),
    {
        self.peers.len()
    }

    /// The address the node listens on.
    pub fn local_addr(&self) -> (addr: &PeerAddress)
        ensures
            addr@ == self@.listener_addr,
    {
        &self.listener_addr
    }

    /// Moves the table out, leaving an empty one behind.
    fn take_peers(&mut self) -> (peers: Vec<PeerNode>)
        ensures
            peers == old(self).peers,
            final(self).peers@.len() == 0,
            final(self).listener_addr == old(self).listener_addr,
    {
        let mut peers: Vec<PeerNode> = Vec::new();
        core::mem::swap(&mut self.peers, &mut peers);
        peers
    }

    /// Looks up the entry under `key`.
    fn find(&self, key: &String) -> (found: Option<usize>)
        ensures
            match found {
                Some(i) => has_peer(self@.peers, key@) && i == peer_index(self@.peers, key@),
                None => !has_peer(self@.peers, key@),
            },
    {
        proof {
            use_type_invariant(self);
        }
        let mut i: usize = 0;
        while i < self.peers.len()
            invariant
                i <= self.peers.len(),
                table_wf(self@.peers),
                forall|k: int| 0 <= k < i ==> (#[trigger] self@.peers[k]).address.text != key@,
            decreases self.peers.len() - i,
        {
            if self.peers[i].address.text == *key {
                assert(self@.peers[i as int].address.text == key@);
                return Some(i);
            }
            i += 1;
        }
        None
    }

    /// The entry of the peer at `addr`, if it is registered.
    pub fn peer(&self, addr: &PeerAddress) -> (found: Option<&PeerNode>)
        ensures
            found is Some <==> has_peer(self@.peers, addr@.text),
            found matches Some(node) ==> node@ == self@.peers[peer_index(
                self@.peers,
                addr@.text,
            )],
    {
        match self.find(&addr.text) {
            Some(i) => Some(&self.peers[i]),
            None => None,
        }
    }

    /// Decides whether to dial `addr`: a loopback address is not dialled,
    /// nor is an address that is a peer already.
    pub fn connect(&self, addr: &PeerAddress) -> (dial: bool)
        ensures
            dial == should_dial(self@.peers, addr@),
    {
        if addr.loopback {
            return false;
        }
        self.find(&addr.text).is_none()
    }

    /// Registers the peer at `address` with a session that started at
    /// `now`. A loopback address is refused and leaves the table as it
    /// was; an address that is registered already gets the new entry in
    /// place of the old one.
    pub fn register(&mut self, address: PeerAddress, now: i64) -> (accepted: bool)
        ensures
            accepted == !address@.loopback,
            final(self)@.peers == registered(
                old(self)@.peers,
                PeerNodeView { address: address@, last_seen: now },
            ),
            final(self)@.listener_addr == old(self)@.listener_addr,
            table_wf(final(self)@.peers),
    {
        proof {
            use_type_invariant(&*self);
        }
        if address.loopback {
            return false;
        }
        let found = self.find(&address.text);
        let node = PeerNode { address, last_seen: now };
        let mut peers = self.take_peers();
        match found {
            Some(i) => {
                peers.set(i, node);
            },
            None => {
                peers.push(node);
            },
        }
        let ghost after = Seq::new(peers@.len(), |k: int| peers@[k]@);
        assert(after =~= registered(old(self)@.peers, node@));
        self.peers = peers;
        true
    }

    /// Removes the entry of the peer whose socket reports `address`, if
    /// there is one.
    pub fn forget(&mut self, address: &PeerAddress) -> (removed: bool)
        ensures
            removed == has_peer(old(self)@.peers, address@.text),
            final(self)@.peers == without_peer(old(self)@.peers, address@.text),
            final(self)@.listener_addr == old(self)@.listener_addr,
            table_wf(final(self)@.peers),
    {
        proof {
            use_type_invariant(&*self);
        }
        match self.find(&address.text) {
            Some(i) => {
                let mut peers = self.take_peers();
                peers.remove(i);
                let ghost after = Seq::new(peers@.len(), |k: int| peers@[k]@);
                assert(after =~= old(self)@.peers.remove(i as int));
                self.peers = peers;
                true
            },
            None => false,
        }
    }

    /// The addresses to answer a `GetAddr` with: at most [`MAX_ADDRS`] keys
    /// of the table.
    pub fn known_addresses(&self) -> (list: Vec<String>)
        ensures
            texts(list@) == advertised(self@.peers),
            list@.len() <= MAX_ADDRS,
    {
        let mut list: Vec<String> = Vec::new();
        let mut i: usize = 0;
        while i < self.peers.len() && i < MAX_ADDRS
            invariant
                i <= self.peers.len(),
                i <= MAX_ADDRS,
                list@.len() == i,
                forall|k: int| 0 <= k < i ==> (#[trigger] list@[k])@ == self@.peers[k].address.text,
            decreases self.peers.len() - i,
        {
            list.push(self.peers[i].address.text.clone());
            i += 1;
        }
        list
    }

    /// The `Addr` message that answers a `GetAddr`.
    pub fn addr_reply(&self) -> (reply: NetworkMessage)
        ensures
            reply@ == MessageView::Addr(advertised(self@.peers)),
            advertised(self@.peers).len() <= MAX_ADDRS,
    {
        NetworkMessage::Addr(self.known_addresses())
    }
}

/// Whether the table holds exactly one entry under `key`.
pub open spec fn holds_once(peers: Seq<PeerNodeView>, key: Seq<char>) -> bool {
    exists|i: int|
        0 <= i < peers.len() && #[trigger] peers[i].address.text == key && forall|j: int|
            0 <= j < peers.len() && #[trigger] peers[j].address.text == key ==> j == i
}

/// Registering keeps the table well formed: keys stay unique and no
/// loopback address comes in.
pub proof fn registering_keeps_table_wf(peers: Seq<PeerNodeView>, node: PeerNodeView)
    requires
        table_wf(peers),
    ensures
        table_wf(registered(peers, node)),
{
}

/// Forgetting keeps the table well formed.
pub proof fn forgetting_keeps_table_wf(peers: Seq<PeerNodeView>, key: Seq<char>)
    requires
        table_wf(peers),
    ensures
        table_wf(without_peer(peers, key)),
{
}

/// A loopback address is registered on neither path: the connect path does
/// not dial it, and an attempt to register it leaves the table as it was.
pub proof fn loopback_is_never_registered(peers: Seq<PeerNodeView>, node: PeerNodeView)
    requires
        node.address.loopback,
    ensures
        !should_dial(peers, node.address),
        registered(peers, node) == peers,
{
}

/// Connecting to an address that is no loopback address leaves exactly one
/// entry under it, and a second connect to it does not dial. (The table
/// after a connect is the table with the peer registered where the connect
/// path dials, and the table as it was where it does not.)
pub proof fn connecting_twice_leaves_one_entry(
    peers: Seq<PeerNodeView>,
    addr: PeerAddressView,
    first: i64,
    second: i64,
)
    requires
        table_wf(peers),
        !addr.loopback,
    ensures
        ({
            let once = connected(peers, addr, first);
            let twice = connected(once, addr, second);
            &&& !should_dial(once, addr)
            &&& twice == once
            &&& holds_once(twice, addr.text)
        }),
{
    if should_dial(peers, addr) {
        registered_peer_is_held_once(peers, PeerNodeView { address: addr, last_seen: first });
    } else {
        assert(peers[peer_index(peers, addr.text)].address.text == addr.text);
    }
}

/// The table after a connect to `addr` whose dial, if one is made,
/// succeeds at time `now`.
pub open spec fn connected(peers: Seq<PeerNodeView>, addr: PeerAddressView, now: i64) -> Seq<
    PeerNodeView,
> {
    if should_dial(peers, addr) {
        registered(peers, PeerNodeView { address: addr, last_seen: now })
    } else {
        peers
    }
}

/// After a node is registered the table holds exactly one entry under its
/// key, and that entry is the node. The table grows by one entry where the
/// key is new and keeps its length where it is not.
pub proof fn registered_peer_is_held_once(peers: Seq<PeerNodeView>, node: PeerNodeView)
    requires
        table_wf(peers),
        !node.address.loopback,
    ensures
        holds_once(registered(peers, node), node.address.text),
        registered(peers, node)[peer_index(registered(peers, node), node.address.text)] == node,
        has_peer(peers, node.address.text) ==> registered(peers, node).len() == peers.len(),
        !has_peer(peers, node.address.text) ==> registered(peers, node).len() == peers.len() + 1,
{
    let key = node.address.text;
    let after = registered(peers, node);
    let at = if has_peer(peers, key) {
        peer_index(peers, key)
    } else {
        peers.len() as int
    };
    assert(after[at] == node);
    assert forall|j: int| 0 <= j < after.len() && #[trigger] after[j].address.text == key implies j
        == at by {
        if j != at {
            assert(after[j] == peers[j]);
        }
    }
}

/// Registering the same address a second time, as when two sessions with
/// one peer start at once, still leaves exactly one entry under it, with
/// the later time.
pub proof fn registering_twice_leaves_one_entry(
    peers: Seq<PeerNodeView>,
    addr: PeerAddressView,
    first: i64,
    second: i64,
)
    requires
        table_wf(peers),
        !addr.loopback,
    ensures
        ({
            let once = registered(peers, PeerNodeView { address: addr, last_seen: first });
            let twice = registered(once, PeerNodeView { address: addr, last_seen: second });
            &&& twice.len() == once.len()
            &&& holds_once(twice, addr.text)
            &&& twice[peer_index(twice, addr.text)].last_seen == second
        }),
{
    let n1 = PeerNodeView { address: addr, last_seen: first };
    let n2 = PeerNodeView { address: addr, last_seen: second };
    let once = registered(peers, n1);
    registering_keeps_table_wf(peers, n1);
    registered_peer_is_held_once(peers, n1);
    registered_peer_is_held_once(once, n2);
}

/// An `Addr` reply never holds more than [`MAX_ADDRS`] addresses, however
/// many peers the table holds; it holds all of them where they are no more
/// than that, each address in it is the key of a peer, and none occurs in
/// it twice.
pub proof fn addr_reply_is_bounded(peers: Seq<PeerNodeView>)
    ensures
        advertised(peers).len() <= MAX_ADDRS,
        advertised(peers).len() <= peers.len(),
        peers.len() <= MAX_ADDRS ==> advertised(peers).len() == peers.len(),
        peers.len() > MAX_ADDRS ==> advertised(peers).len() == MAX_ADDRS,
        forall|i: int|
            0 <= i < advertised(peers).len() ==> has_peer(peers, #[trigger] advertised(peers)[i]),
        table_wf(peers) ==> advertised(peers).no_duplicates(),
{
    if table_wf(peers) {
        assert forall|i: int, j: int|
            0 <= i < advertised(peers).len() && 0 <= j < advertised(peers).len() && i
                != j implies advertised(peers)[i] != advertised(peers)[j] by {
            assert(advertised(peers)[i] == peers[i].address.text);
            assert(advertised(peers)[j] == peers[j].address.text);
        }
    }
    assert forall|i: int| 0 <= i < advertised(peers).len() implies has_peer(
        peers,
        #[trigger] advertised(peers)[i],
    ) by {
        assert(peers[i].address.text == advertised(peers)[i]);
    }
}

/// Once a peer is forgotten the table holds no entry under its key; the
/// other entries stay, in their order.
pub proof fn forgotten_peer_is_gone(peers: Seq<PeerNodeView>, key: Seq<char>)
    requires
        table_wf(peers),
    ensures
        !has_peer(without_peer(peers, key), key),
        has_peer(peers, key) ==> without_peer(peers, key).len() == peers.len() - 1,
        forall|other: Seq<char>|
            other != key ==> (has_peer(without_peer(peers, key), other) <==> has_peer(
                peers,
                other,
            )),
{
    let after = without_peer(peers, key);
    if has_peer(peers, key) {
        let i = peer_index(peers, key);
        assert forall|j: int| 0 <= j < after.len() implies (#[trigger] after[j]).address.text
            != key by {
            assert(after[j] == if j < i { peers[j] } else { peers[j + 1] });
        }
        assert forall|other: Seq<char>| other != key implies (has_peer(after, other) <==> has_peer(
            peers,
            other,
        )) by {
            if has_peer(peers, other) {
                let j = peer_index(peers, other);
                let moved = if j < i { j } else { j - 1 };
                assert(after[moved].address.text == other);
            }
            if has_peer(after, other) {
                let j = peer_index(after, other);
                let origin = if j < i { j } else { j + 1 };
                assert(peers[origin].address.text == other);
            }
        }
    }
}

} // verus!
