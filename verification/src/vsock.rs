//! The vsock-to-TIPC bridge.
//!
//! Each vsock connection from the host is forwarded to a TIPC port of the
//! kernel. This module holds the state of each connection, the table of open
//! connections, and every decision the bridge makes on a vsock event or a
//! TIPC handle event. The device and kernel calls are made by the caller,
//! which hands their results to these functions.
use vstd::prelude::*;
use vstd::slice::slice_to_vec;
use vstd::string::StringSliceAdditionalSpecFns;

use crate::err::Error;
use crate::hal::PAGE_SIZE;
use crate::handle::{HandleRef, HandleRefView};
use crate::lk_error::{error_of_code, named_code, LkError};

verus! {

/// The longest TIPC port path, terminating zero byte included.
pub const IPC_PORT_PATH_MAX: usize = 64;

/// The state of a vsock connection.
#[derive(Clone, Copy, Debug, PartialEq, Eq, Structural)]
pub enum VsockConnectionState {
    Invalid,
    VsockOnly,
    TipcOnly,
    TipcConnecting,
    TipcSendBlocked,
    Active,
    TipcClosed,
    Closed,
}

impl Default for VsockConnectionState {
    fn default() -> (r: VsockConnectionState)
        ensures
            r == VsockConnectionState::Invalid,
    {
        VsockConnectionState::Invalid
    }
}

/// A vsock socket address.
#[derive(Clone, Copy, Debug, PartialEq, Eq, Structural)]
pub struct VsockAddr {
    /// Context identifier.
    pub cid: u64,
    /// Port number.
    pub port: u32,
}

/// One bridged connection.
pub struct VsockConnection {
    pub peer: VsockAddr,
    pub local_port: u32,
    pub state: VsockConnectionState,
    /// The bytes of the TIPC port name, without a terminating zero byte.
    pub tipc_port_name: Option<Vec<u8>>,
    pub href: HandleRef,
    pub tx_count: u64,
    pub tx_since_rx: u64,
    pub rx_count: u64,
    pub rx_since_tx: u64,
    /// Holds the bytes received from the peer while TIPC is blocked.
    pub rx_buffer: Vec<u8>,
    /// How many bytes of `rx_buffer` are still to be sent to TIPC.
    pub rx_pending: usize,
}

/// The size of a connection's receive buffer: twice the vsock receive buffer,
/// so that pending data can be held while TIPC blocks.
pub open spec fn rx_buffer_len() -> nat {
    (2 * PAGE_SIZE) as nat
}

impl VsockConnection {
    /// The parts of the connection other than its state and handle reference.
    pub open spec fn same_data(self, other: VsockConnection) -> bool {
        &&& self.peer == other.peer
        &&& self.local_port == other.local_port
        &&& self.tipc_port_name == other.tipc_port_name
        &&& self.tx_count == other.tx_count
        &&& self.tx_since_rx == other.tx_since_rx
        &&& self.rx_count == other.rx_count
        &&& self.rx_since_tx == other.rx_since_tx
        &&& self.rx_buffer@ == other.rx_buffer@
        &&& self.rx_pending == other.rx_pending
    }

    /// Whether this connection is the one from `peer` to `local_port`.
    pub open spec fn is_for(self, peer: VsockAddr, local_port: u32) -> bool {
        self.peer == peer && self.local_port == local_port
    }

    /// A new connection from `peer` to `local_port`, waiting for its TIPC side,
    /// whose handle reference record lies at `href_address`.
    pub fn new(peer: VsockAddr, local_port: u32, href_address: usize) -> (c: VsockConnection)
        requires
            href_address != 0,
        ensures
            c.peer == peer,
            c.local_port == local_port,
            c.state == VsockConnectionState::VsockOnly,
            c.tipc_port_name is None,
            c.href@ == (HandleRefView {
                address: href_address,
                handle: 0,
                id: 0,
                emask: 0,
                cookie: 0,
                attached: false,
            }),
            c.tx_count == 0 && c.tx_since_rx == 0 && c.rx_count == 0 && c.rx_since_tx == 0,
            c.rx_buffer@ == Seq::new(rx_buffer_len(), |i: int| 0u8),
            c.rx_pending == 0,
            cookie_consistent(c),
    {
        let buffer_len: usize = 2 * PAGE_SIZE;
        let mut rx_buffer: Vec<u8> = Vec::new();
        while rx_buffer.len() < buffer_len
            invariant
                buffer_len == rx_buffer_len(),
                rx_buffer.len() <= buffer_len,
                forall|i: int| 0 <= i < rx_buffer.len() ==> rx_buffer@[i] == 0u8,
            decreases buffer_len - rx_buffer.len(),
        {
            rx_buffer.push(0u8);
        }
        assert(rx_buffer@ == Seq::new(rx_buffer_len(), |i: int| 0u8));
        VsockConnection {
            peer,
            local_port,
            state: VsockConnectionState::VsockOnly,
            tipc_port_name: None,
            href: HandleRef::new(href_address),
            tx_count: 0,
            tx_since_rx: 0,
            rx_count: 0,
            rx_since_tx: 0,
            rx_buffer,
            rx_pending: 0,
        }
    }

    /// Completes an attempt to send the pending bytes to TIPC, given what the
    /// kernel's `ipc_send_msg` returned.
    ///
    /// If TIPC has no room, the connection blocks with its bytes still pending.
    /// A kernel error is returned as is; sending fewer bytes than pending is
    /// `ERR_BAD_LEN`; in both cases the connection is unchanged. When all the
    /// pending bytes were sent, the connection is active again with nothing
    /// pending.
    pub fn tipc_try_send(&mut self, sent: i32) -> (r: Result<(), Error>)
        requires
            0 < old(self).rx_pending < PAGE_SIZE,
            old(self).state == VsockConnectionState::Active || old(self).state
                == VsockConnectionState::TipcSendBlocked,
        ensures
            sent == named_code(LkError::ERR_NOT_ENOUGH_BUFFER) ==> {
                &&& r is Ok
                &&& final(self).state == VsockConnectionState::TipcSendBlocked
                &&& final(self).same_data(*old(self))
                &&& final(self).href@ == old(self).href@
            },
            sent < 0 && sent != named_code(LkError::ERR_NOT_ENOUGH_BUFFER) ==> {
                &&& r == Err::<(), Error>(Error::Lk(error_of_code(sent)))
                &&& *final(self) == *old(self)
            },
            sent >= 0 && sent != old(self).rx_pending ==> {
                &&& r == Err::<(), Error>(Error::Lk(LkError::ERR_BAD_LEN))
                &&& *final(self) == *old(self)
            },
            sent >= 0 && sent == old(self).rx_pending ==> {
                &&& r is Ok
                &&& final(self).state == VsockConnectionState::Active
                &&& final(self).tx_since_rx == 0
                &&& final(self).rx_pending == 0
                &&& final(self).href@ == old(self).href@
                &&& final(self).peer == old(self).peer
                &&& final(self).local_port == old(self).local_port
                &&& final(self).tipc_port_name == old(self).tipc_port_name
                &&& final(self).tx_count == old(self).tx_count
                &&& final(self).rx_count == old(self).rx_count
                &&& final(self).rx_since_tx == old(self).rx_since_tx
                &&& final(self).rx_buffer@ == old(self).rx_buffer@
            },
            cookie_consistent(*old(self)) ==> cookie_consistent(*final(self)),
    {
        let length = self.rx_pending;
        if sent == LkError::ERR_NOT_ENOUGH_BUFFER.code() {
            self.state = VsockConnectionState::TipcSendBlocked;
            return Ok(());
        } else if sent < 0 {
            return Err(Error::Lk(LkError::from_code(sent)));
        } else if sent as usize != length {
            return Err(Error::Lk(LkError::ERR_BAD_LEN));
        }
        self.state = VsockConnectionState::Active;
        self.tx_since_rx = 0;
        self.rx_pending = 0;
        Ok(())
    }
}

/// What to do with a connection after handling an event for it.
#[derive(Clone, Copy, Debug, PartialEq, Eq, Structural)]
pub enum ConnectionStateAction {
    /// Nothing to do: the connection stays open.
    NoAction,
    /// TIPC asked for the connection to be closed: close it, and keep it until
    /// the peer acknowledges.
    Close,
    /// Close the connection and remove it without waiting for the peer.
    Remove,
}

/// Whether a connection in state `s` holds an open TIPC handle that closing
/// must release.
pub open spec fn holds_tipc(s: VsockConnectionState) -> bool {
    ||| s == VsockConnectionState::Active
    ||| s == VsockConnectionState::TipcConnecting
    ||| s == VsockConnectionState::TipcSendBlocked
}

/// Whether the connection's cookie names its own handle reference record
/// exactly while it holds a TIPC handle, and is null otherwise: the cookie is
/// how a TIPC event finds its connection.
pub open spec fn cookie_consistent(c: VsockConnection) -> bool {
    if holds_tipc(c.state) {
        c.href@.cookie == c.href@.address
    } else {
        c.href@.cookie == 0
    }
}

/// The state of a connection after closing it with `action`: a connection
/// with a vsock side open or a TIPC side not yet closed ends up with its TIPC
/// side closed, and closed altogether when it is to be removed.
pub open spec fn state_after_close(s: VsockConnectionState, action: ConnectionStateAction) -> VsockConnectionState {
    if s == VsockConnectionState::VsockOnly || holds_tipc(s) || s == VsockConnectionState::TipcClosed {
        if action == ConnectionStateAction::Remove {
            VsockConnectionState::Closed
        } else {
            VsockConnectionState::TipcClosed
        }
    } else {
        s
    }
}

/// The kernel work that closing a connection calls for.
pub struct CloseActions {
    /// The handle reference must be detached from the handle set.
    pub detach: bool,
    /// This TIPC handle must be closed.
    pub close_handle: Option<usize>,
    /// The connection is finished and must be removed from the table.
    pub remove: bool,
}

/// Closes the connection `c` as `action` asks.
///
/// A connection that holds a TIPC handle releases it: its reference is
/// detached, its handle closed and its cookie cleared. The connection is to be
/// removed once it is closed and no cookie refers to it any more.
pub fn vsock_connection_close(c: &mut VsockConnection, action: ConnectionStateAction) -> (r: CloseActions)
    ensures
        final(c).state == state_after_close(old(c).state, action),
        final(c).same_data(*old(c)),
        holds_tipc(old(c).state) ==> {
            &&& final(c).href@ == (HandleRefView {
                attached: false,
                handle: 0,
                cookie: 0,
                ..old(c).href@
            })
            &&& r.detach == old(c).href@.attached
            &&& r.close_handle == (if old(c).href@.handle != 0 {
                Some(old(c).href@.handle)
            } else {
                None
            })
        },
        !holds_tipc(old(c).state) ==> {
            &&& final(c).href@ == old(c).href@
            &&& !r.detach
            &&& r.close_handle is None
        },
        r.remove == (final(c).state == VsockConnectionState::Closed && final(c).href@.cookie == 0),
        cookie_consistent(*old(c)) ==> cookie_consistent(*final(c)),
{
    let mut actions = CloseActions { detach: false, close_handle: None, remove: false };
    if c.state == VsockConnectionState::VsockOnly {
        c.state = VsockConnectionState::TipcClosed;
    }
    if c.state == VsockConnectionState::Active || c.state == VsockConnectionState::TipcConnecting
        || c.state == VsockConnectionState::TipcSendBlocked {
        // The handle set holds the only reference to the handle, and a wait on
        // it may already have handed out this connection's cookie.
        actions.detach = c.href.detach();
        actions.close_handle = c.href.handle_close();
        c.href.set_cookie(0);
        c.state = VsockConnectionState::TipcClosed;
    }
    if action == ConnectionStateAction::Remove && c.state == VsockConnectionState::TipcClosed {
        c.state = VsockConnectionState::Closed;
    }
    if c.state == VsockConnectionState::Closed && c.href.cookie() == 0 {
        actions.remove = true;
    }
    actions
}

/// Whether no two connections of the table are for the same peer and local port.
pub open spec fn unique_connections(connections: Seq<VsockConnection>) -> bool {
    forall|i: int, j: int|
        0 <= i < connections.len() && 0 <= j < connections.len() && i != j
            ==> !(#[trigger] connections[i]).is_for(#[trigger] connections[j].peer, connections[j].local_port)
}

/// Whether the table holds a connection from `peer` to `local_port`.
pub open spec fn has_connection(connections: Seq<VsockConnection>, peer: VsockAddr, local_port: u32) -> bool {
    exists|i: int| 0 <= i < connections.len() && (#[trigger] connections[i]).is_for(peer, local_port)
}

/// The index of the first connection from `peer` to `local_port`, if any.
pub fn vsock_connection_lookup_peer(connections: &Vec<VsockConnection>, peer: VsockAddr, local_port: u32) -> (r: Option<usize>)
    ensures
        r is None <==> !has_connection(connections@, peer, local_port),
        r matches Some(i) ==> {
            &&& i < connections.len()
            &&& connections@[i as int].is_for(peer, local_port)
            &&& forall|j: int| 0 <= j < i ==> !(#[trigger] connections@[j]).is_for(peer, local_port)
        },
{
    let mut i: usize = 0;
    while i < connections.len()
        invariant
            i <= connections.len(),
            forall|j: int| 0 <= j < i ==> !(#[trigger] connections@[j]).is_for(peer, local_port),
        decreases connections.len() - i,
    {
        if connections[i].peer == peer && connections[i].local_port == local_port {
            return Some(i);
        }
        i = i + 1;
    }
    None
}

/// The index of the first connection whose handle reference record lies at
/// `cookie`, if any.
pub fn vsock_connection_lookup_cookie(connections: &Vec<VsockConnection>, cookie: usize) -> (r: Option<usize>)
    ensures
        r is None <==> forall|j: int| 0 <= j < connections.len() ==> (#[trigger] connections@[j]).href@.address != cookie,
        r matches Some(i) ==> {
            &&& i < connections.len()
            &&& connections@[i as int].href@.address == cookie
            &&& forall|j: int| 0 <= j < i ==> (#[trigger] connections@[j]).href@.address != cookie
        },
{
    let mut i: usize = 0;
    while i < connections.len()
        invariant
            i <= connections.len(),
            forall|j: int| 0 <= j < i ==> (#[trigger] connections@[j]).href@.address != cookie,
        decreases connections.len() - i,
    {
        if connections[i].href.as_mut_ptr() == cookie {
            return Some(i);
        }
        i = i + 1;
    }
    None
}

/// The table after closing its `index`-th connection: the closed connection
/// in its place, or, when it is to be removed, the last connection moved into
/// its place.
pub open spec fn table_after_close(old_table: Seq<VsockConnection>, index: int, closed: VsockConnection, removed: bool) -> Seq<VsockConnection> {
    if removed {
        old_table.update(index, old_table.last()).drop_last()
    } else {
        old_table.update(index, closed)
    }
}

/// Carries out `action` on the `index`-th connection of the table, after an
/// event for it was handled: nothing for `NoAction`; otherwise the connection is
/// closed, and removed from the table when closing finishes it.
pub fn vsock_connection_finish(connections: &mut Vec<VsockConnection>, index: usize, action: ConnectionStateAction) -> (r: CloseActions)
    requires
        index < old(connections).len(),
    ensures
        action == ConnectionStateAction::NoAction ==> {
            &&& final(connections)@ == old(connections)@
            &&& !r.detach && r.close_handle is None && !r.remove
        },
        action != ConnectionStateAction::NoAction ==> {
            let c = old(connections)@[index as int];
            let closed = final(connections)@.len() == old(connections)@.len() - 1;
            &&& closed == r.remove
            &&& r.detach == (holds_tipc(c.state) && c.href@.attached)
            &&& r.close_handle == (if holds_tipc(c.state) && c.href@.handle != 0 {
                Some(c.href@.handle)
            } else {
                None
            })
            &&& r.remove == (state_after_close(c.state, action) == VsockConnectionState::Closed && (
            if holds_tipc(c.state) {
                0usize
            } else {
                c.href@.cookie
            }) == 0)
            &&& r.remove ==> final(connections)@ == table_after_close(old(connections)@, index as int, c, true)
            &&& !r.remove ==> {
                &&& final(connections)@.len() == old(connections)@.len()
                &&& forall|j: int| 0 <= j < old(connections)@.len() && j != index ==> final(connections)@[j] == old(connections)@[j]
                &&& final(connections)@[index as int].state == state_after_close(c.state, action)
                &&& final(connections)@[index as int].same_data(c)
                &&& final(connections)@[index as int].href@ == (if holds_tipc(c.state) {
                    HandleRefView { attached: false, handle: 0, cookie: 0, ..c.href@ }
                } else {
                    c.href@
                })
            }
        },
{
    if action == ConnectionStateAction::NoAction {
        return CloseActions { detach: false, close_handle: None, remove: false };
    }
    let r = vsock_connection_close(&mut connections[index], action);
    if r.remove {
        let _ = connections.swap_remove(index);
    }
    r
}

} // verus!

verus! {

/// An entry of the map from vsock ports to TIPC ports.
pub struct TipcPortAcl {
    /// The TIPC port name; empty for the ports whose peer sends the name.
    pub name: &'static str,
    /// Whether connections to this port are accepted.
    pub enabled: bool,
}

/// Which of the mapped TIPC services the kernel was built with.
#[derive(Clone, Copy, Debug, PartialEq, Eq, Structural)]
pub struct PortFeatures {
    pub authmgr: bool,
    pub hwcrypto_hal: bool,
    pub securestorage_hal: bool,
    pub widevine_aidl_comm: bool,
    pub gatekeeper: bool,
    pub keymint: bool,
}

proof fn lemma_short_ascii_name(name: &str)
    requires
        vstd::utf8::is_ascii_chars(name@),
        name@.len() < IPC_PORT_PATH_MAX,
    ensures
        name.spec_bytes().len() < IPC_PORT_PATH_MAX,
{
    vstd::utf8::is_ascii_chars_encode_utf8(name@);
}

/// The number of vsock ports that the port map covers.
pub const PORT_MAP_LEN: usize = 10;

/// The map from vsock ports to TIPC ports. Connections to ports 0 and 1 send
/// the TIPC port name in their first packet; each other port stands for one
/// TIPC service and is enabled when the kernel has that service.
pub fn port_map(features: PortFeatures) -> (r: Vec<TipcPortAcl>)
    ensures
        r.len() == PORT_MAP_LEN,
        r@[0].name@ == ""@ && r@[0].enabled,
        r@[1].name@ == ""@ && r@[1].enabled,
        r@[2].name@ == "com.android.trusty.authmgr"@ && r@[2].enabled == features.authmgr,
        r@[3].name@ == "com.android.trusty.hwcryptooperations"@ && r@[3].enabled
            == features.hwcrypto_hal,
        r@[4].name@ == "com.android.trusty.rust.hwcryptohal.V1"@ && r@[4].enabled
            == features.hwcrypto_hal,
        r@[5].name@ == "com.android.trusty.securestorage"@ && r@[5].enabled
            == features.securestorage_hal,
        r@[6].name@ == "com.android.trusty.widevine.transact"@ && r@[6].enabled
            == features.widevine_aidl_comm,
        r@[7].name@ == "com.android.trusty.storage.proxy"@ && r@[7].enabled
            == features.securestorage_hal,
        r@[8].name@ == "com.android.trusty.gatekeeper"@ && r@[8].enabled == features.gatekeeper,
        r@[9].name@ == "com.android.trusty.keymint"@ && r@[9].enabled == features.keymint,
        forall|i: int| 0 <= i < r.len() ==> (#[trigger] r@[i].name).spec_bytes().len() < IPC_PORT_PATH_MAX,
{
    let mut r: Vec<TipcPortAcl> = Vec::new();
    proof {
        reveal_strlit("");
        lemma_short_ascii_name("");
    }
    r.push(TipcPortAcl { name: "", enabled: true });
    proof {
        reveal_strlit("");
        lemma_short_ascii_name("");
    }
    r.push(TipcPortAcl { name: "", enabled: true });
    proof {
        reveal_strlit("com.android.trusty.authmgr");
        lemma_short_ascii_name("com.android.trusty.authmgr");
    }
    r.push(TipcPortAcl { name: "com.android.trusty.authmgr", enabled: features.authmgr });
    proof {
        reveal_strlit("com.android.trusty.hwcryptooperations");
        lemma_short_ascii_name("com.android.trusty.hwcryptooperations");
    }
    r.push(TipcPortAcl { name: "com.android.trusty.hwcryptooperations", enabled: features.hwcrypto_hal });
    proof {
        reveal_strlit("com.android.trusty.rust.hwcryptohal.V1");
        lemma_short_ascii_name("com.android.trusty.rust.hwcryptohal.V1");
    }
    r.push(TipcPortAcl { name: "com.android.trusty.rust.hwcryptohal.V1", enabled: features.hwcrypto_hal });
    proof {
        reveal_strlit("com.android.trusty.securestorage");
        lemma_short_ascii_name("com.android.trusty.securestorage");
    }
    r.push(TipcPortAcl { name: "com.android.trusty.securestorage", enabled: features.securestorage_hal });
    proof {
        reveal_strlit("com.android.trusty.widevine.transact");
        lemma_short_ascii_name("com.android.trusty.widevine.transact");
    }
    r.push(TipcPortAcl { name: "com.android.trusty.widevine.transact", enabled: features.widevine_aidl_comm });
    proof {
        reveal_strlit("com.android.trusty.storage.proxy");
        lemma_short_ascii_name("com.android.trusty.storage.proxy");
    }
    r.push(TipcPortAcl { name: "com.android.trusty.storage.proxy", enabled: features.securestorage_hal });
    proof {
        reveal_strlit("com.android.trusty.gatekeeper");
        lemma_short_ascii_name("com.android.trusty.gatekeeper");
    }
    r.push(TipcPortAcl { name: "com.android.trusty.gatekeeper", enabled: features.gatekeeper });
    proof {
        reveal_strlit("com.android.trusty.keymint");
        lemma_short_ascii_name("com.android.trusty.keymint");
    }
    r.push(TipcPortAcl { name: "com.android.trusty.keymint", enabled: features.keymint });
    r
}

} // verus!

verus! {

/// Whether the peers of connections to this local port send the TIPC port name
/// in their first packet.
pub open spec fn sends_port_name(port: u32) -> bool {
    port == 0 || port == 1
}

/// Whether `c` is a new connection from `peer` to `local_port`, as
/// `VsockConnection::new` makes it, apart from its TIPC port name.
pub open spec fn fresh_connection(c: VsockConnection, peer: VsockAddr, local_port: u32, href_address: usize) -> bool {
    &&& c.peer == peer
    &&& c.local_port == local_port
    &&& c.state == VsockConnectionState::VsockOnly
    &&& c.href@ == (HandleRefView {
        address: href_address,
        handle: 0,
        id: 0,
        emask: 0,
        cookie: 0,
        attached: false,
    })
    &&& c.tx_count == 0 && c.tx_since_rx == 0 && c.rx_count == 0 && c.rx_since_tx == 0
    &&& c.rx_buffer@ == Seq::new(rx_buffer_len(), |i: int| 0u8)
    &&& c.rx_pending == 0
}

/// Handles a connection request from `peer` to `local`.
///
/// A second connection from the same peer to the same port is refused with
/// `ERR_ALREADY_EXISTS`. Ports 0 and 1 wait for the peer to send the TIPC port
/// name. Any other port in the port map connects to its TIPC port when that is
/// enabled (`ERR_NOT_VALID` when it is not); a port beyond the map is
/// `ERR_OUT_OF_RANGE`.
///
/// On success, the new connection, with its TIPC port name when it is known.
/// The caller connects it to TIPC when it has a name, and adds it to the table
/// with `add_connection` if that succeeds.
pub fn vsock_rx_op_request(connections: &Vec<VsockConnection>, port_map: &Vec<TipcPortAcl>, peer: VsockAddr, local: VsockAddr, href_address: usize) -> (r: Result<VsockConnection, Error>)
    requires
        href_address != 0,
    ensures
        has_connection(connections@, peer, local.port) ==> r == Err::<VsockConnection, Error>(
            Error::Lk(LkError::ERR_ALREADY_EXISTS),
        ),
        !has_connection(connections@, peer, local.port) ==> {
            &&& sends_port_name(local.port) ==> (r matches Ok(c) && fresh_connection(c, peer, local.port, href_address) && c.tipc_port_name is None)
            &&& !sends_port_name(local.port) && local.port < port_map.len() && port_map@[local.port as int].enabled
                ==> (r matches Ok(c) && fresh_connection(c, peer, local.port, href_address)
                && (c.tipc_port_name matches Some(name) && name@ == port_map@[local.port as int].name.spec_bytes()))
            &&& !sends_port_name(local.port) && local.port < port_map.len() && !port_map@[local.port as int].enabled
                ==> r == Err::<VsockConnection, Error>(Error::Lk(LkError::ERR_NOT_VALID))
            &&& !sends_port_name(local.port) && local.port >= port_map.len() ==> r == Err::<VsockConnection, Error>(
                Error::Lk(LkError::ERR_OUT_OF_RANGE),
            )
        },
{
    if vsock_connection_lookup_peer(connections, peer, local.port).is_some() {
        return Err(Error::Lk(LkError::ERR_ALREADY_EXISTS));
    }
    let mut c = VsockConnection::new(peer, local.port, href_address);
    if local.port == 0 || local.port == 1 {
        // wait for the peer to send the TIPC port name
    } else if (local.port as usize) < port_map.len() {
        if port_map[local.port as usize].enabled {
            c.tipc_port_name = Some(slice_to_vec(port_map[local.port as usize].name.as_bytes()));
        } else {
            return Err(Error::Lk(LkError::ERR_NOT_VALID));
        }
    } else {
        return Err(Error::Lk(LkError::ERR_OUT_OF_RANGE));
    }
    Ok(c)
}

/// Adds a connection for a peer and port that the table does not hold yet.
pub fn add_connection(connections: &mut Vec<VsockConnection>, c: VsockConnection)
    requires
        !has_connection(old(connections)@, c.peer, c.local_port),
    ensures
        final(connections)@ == old(connections)@.push(c),
        unique_connections(old(connections)@) ==> unique_connections(final(connections)@),
{
    connections.push(c);
}

/// The zero-terminated path of the connection's TIPC port, as the kernel's
/// `ipc_port_connect_async` takes it.
pub fn tipc_port_path(c: &VsockConnection) -> (r: Vec<u8>)
    requires
        c.tipc_port_name matches Some(name) && name.len() < IPC_PORT_PATH_MAX,
    ensures
        r@ == c.tipc_port_name->Some_0@.push(0u8),
        r.len() <= IPC_PORT_PATH_MAX,
{
    let name = c.tipc_port_name.as_ref().unwrap();
    let mut path: Vec<u8> = Vec::new();
    let mut i: usize = 0;
    while i < name.len()
        invariant
            i <= name.len(),
            path@ == name@.subrange(0, i as int),
        decreases name.len() - i,
    {
        path.push(name[i]);
        i = i + 1;
    }
    assert(name@.subrange(0, name@.len() as int) == name@);
    path.push(0u8);
    path
}

/// Records the start of a TIPC connection for `c`, once the kernel's
/// `ipc_port_connect_async` stored `handle` in its handle reference: the
/// connection waits for TIPC, and its handle reference is set up to be found
/// by its own record's address, for every event, under the peer's port.
pub fn vsock_connect_tipc(c: &mut VsockConnection, handle: usize)
    requires
        old(c).tipc_port_name matches Some(name) && name.len() < IPC_PORT_PATH_MAX,
    ensures
        final(c).state == VsockConnectionState::TipcConnecting,
        final(c).same_data(*old(c)),
        final(c).href@ == (HandleRefView {
            handle,
            cookie: old(c).href@.address,
            emask: u32::MAX,
            id: old(c).peer.port,
            ..old(c).href@
        }),
        cookie_consistent(*final(c)),
{
    c.href.set_handle(handle);
    c.state = VsockConnectionState::TipcConnecting;
    // The connection may move, but the record of its handle reference does not.
    let cookie = c.href.as_mut_ptr();
    c.href.set_cookie(cookie);
    assert(!0u32 == u32::MAX) by (bit_vector);
    c.href.set_emask(!0u32);
    c.href.set_id(c.peer.port);
}

/// Completes attaching the connection's handle reference to the handle set,
/// given the status of the kernel's `handle_set_attach`. On failure the TIPC
/// handle is closed (the second result is the handle for the kernel to close)
/// and the kernel error is returned.
pub fn vsock_connect_tipc_attach(set: &crate::handle_set::HandleSet, c: &mut VsockConnection, status: i32) -> (r: (Result<(), Error>, Option<usize>))
    requires
        !old(c).href@.attached,
    ensures
        final(c).same_data(*old(c)),
        final(c).state == old(c).state,
        status == crate::lk_error::NO_ERROR ==> {
            &&& r.0 is Ok
            &&& r.1 is None
            &&& final(c).href@ == (HandleRefView { attached: true, ..old(c).href@ })
        },
        status != crate::lk_error::NO_ERROR ==> {
            &&& r.0 == Err::<(), Error>(Error::Lk(error_of_code(status)))
            &&& r.1 == (if old(c).href@.handle != 0 {
                Some(old(c).href@.handle)
            } else {
                None
            })
            &&& final(c).href@ == (HandleRefView { handle: 0, ..old(c).href@ })
        },
        cookie_consistent(*old(c)) ==> cookie_consistent(*final(c)),
{
    match set.attach(&mut c.href, status) {
        Ok(()) => (Ok(()), None),
        Err(e) => {
            let closed = c.href.handle_close();
            (Err(Error::Lk(e)), closed)
        },
    }
}

/// The TIPC port name a peer sent in the first `data_len` bytes of `packet`:
/// one trailing newline is dropped (so that a name can be typed by hand), and
/// a name holding a zero byte is no name.
pub open spec fn packet_port_name(packet: Seq<u8>, data_len: int) -> Option<Seq<u8>> {
    let name = if packet[data_len - 1] == 10u8 {
        packet.subrange(0, data_len - 1)
    } else {
        packet.subrange(0, data_len)
    };
    if name.contains(0u8) {
        None
    } else {
        Some(name)
    }
}

/// The TIPC port name a peer sent in the first `data_len` bytes of `packet`.
pub fn port_name_from_packet(packet: &Vec<u8>, data_len: usize) -> (r: Option<Vec<u8>>)
    requires
        0 < data_len <= packet.len(),
    ensures
        r matches Some(name) ==> packet_port_name(packet@, data_len as int) == Some(name@),
        r is None ==> packet_port_name(packet@, data_len as int) is None,
{
    let mut len = data_len;
    if packet[len - 1] == 10u8 {
        len = len - 1;
    }
    let mut name: Vec<u8> = Vec::new();
    let mut i: usize = 0;
    while i < len
        invariant
            len <= data_len <= packet.len(),
            i <= len,
            name@ == packet@.subrange(0, i as int),
            !name@.contains(0u8),
        decreases len - i,
    {
        if packet[i] == 0u8 {
            assert(packet@.subrange(0, len as int)[i as int] == 0u8);
            return None;
        }
        name.push(packet[i]);
        i = i + 1;
    }
    Some(name)
}

/// Records the TIPC port name a peer sent on a connection to port 0 or 1, from
/// the `data_len` bytes the device received. Returns whether the packet held a
/// valid name; the caller then connects the connection to TIPC.
pub fn vsock_connect_on_rx(c: &mut VsockConnection, packet: &Vec<u8>, data_len: usize) -> (named: bool)
    requires
        sends_port_name(old(c).local_port),
        0 < data_len <= packet.len(),
        data_len < IPC_PORT_PATH_MAX,
    ensures
        named == final(c).tipc_port_name is Some,
        packet_port_name(packet@, data_len as int) matches Some(name) ==> (final(c).tipc_port_name matches Some(n) && n@ == name),
        packet_port_name(packet@, data_len as int) is None ==> final(c).tipc_port_name is None,
        final(c).tipc_port_name matches Some(n) ==> n.len() < IPC_PORT_PATH_MAX,
        final(c).state == old(c).state,
        final(c).href@ == old(c).href@,
        final(c).peer == old(c).peer && final(c).local_port == old(c).local_port,
        final(c).rx_pending == old(c).rx_pending && final(c).rx_buffer@ == old(c).rx_buffer@,
        final(c).tx_count == old(c).tx_count && final(c).rx_count == old(c).rx_count,
        final(c).tx_since_rx == old(c).tx_since_rx && final(c).rx_since_tx == old(c).rx_since_tx,
        cookie_consistent(*old(c)) ==> cookie_consistent(*final(c)),
{
    let name = port_name_from_packet(packet, data_len);
    let named = name.is_some();
    c.tipc_port_name = name;
    named
}

/// Marks a connection whose TIPC side just connected as active.
pub fn vsock_tx_tipc_ready(c: &mut VsockConnection)
    requires
        old(c).state == VsockConnectionState::TipcConnecting,
    ensures
        final(c).state == VsockConnectionState::Active,
        final(c).same_data(*old(c)),
        final(c).href@ == old(c).href@,
        cookie_consistent(*old(c)) ==> cookie_consistent(*final(c)),
{
    c.state = VsockConnectionState::Active;
}

/// Records `received` bytes that the device placed at the start of the
/// receive buffer of an active connection, for one vsock packet of `length`
/// bytes; they are pending until sent to TIPC.
pub fn vsock_rx_channel(c: &mut VsockConnection, length: usize, received: usize)
    requires
        old(c).state == VsockConnectionState::Active,
        received == length,
        length <= old(c).rx_buffer.len(),
        old(c).rx_count < u64::MAX,
        old(c).rx_since_tx < u64::MAX,
    ensures
        final(c).rx_pending == received,
        final(c).rx_count == old(c).rx_count + 1,
        final(c).rx_since_tx == old(c).rx_since_tx + 1,
        final(c).state == old(c).state,
        final(c).href@ == old(c).href@,
        final(c).peer == old(c).peer && final(c).local_port == old(c).local_port,
        final(c).tipc_port_name == old(c).tipc_port_name,
        final(c).rx_buffer@ == old(c).rx_buffer@,
        final(c).tx_count == old(c).tx_count && final(c).tx_since_rx == old(c).tx_since_rx,
        cookie_consistent(*old(c)) ==> cookie_consistent(*final(c)),
{
    c.rx_pending = received;
    c.rx_count = c.rx_count + 1;
    c.rx_since_tx = c.rx_since_tx + 1;
}

/// Records a message forwarded from TIPC to the peer.
pub fn vsock_tx_forwarded(c: &mut VsockConnection)
    requires
        old(c).tx_count < u64::MAX,
        old(c).tx_since_rx < u64::MAX,
    ensures
        final(c).tx_count == old(c).tx_count + 1,
        final(c).tx_since_rx == old(c).tx_since_rx + 1,
        final(c).rx_since_tx == 0,
        final(c).state == old(c).state,
        final(c).href@ == old(c).href@,
        final(c).peer == old(c).peer && final(c).local_port == old(c).local_port,
        final(c).tipc_port_name == old(c).tipc_port_name,
        final(c).rx_buffer@ == old(c).rx_buffer@ && final(c).rx_pending == old(c).rx_pending,
        final(c).rx_count == old(c).rx_count,
        cookie_consistent(*old(c)) ==> cookie_consistent(*final(c)),
{
    c.tx_count = c.tx_count + 1;
    c.tx_since_rx = c.tx_since_rx + 1;
    c.rx_since_tx = 0;
}

/// Whether a TIPC message of `len` bytes was read whole: `ipc_read_msg`
/// returned its length.
pub fn tipc_read_complete(read: i32, len: usize) -> (r: bool)
    ensures
        r == (read >= 0 && read == len),
{
    read >= 0 && read as usize == len
}

} // verus!

verus! {

/// How a data packet for a connection is handled, by the connection's state.
#[derive(Clone, Copy, Debug, PartialEq, Eq, Structural)]
pub enum RxStep {
    /// The packet holds the TIPC port name: record it and connect.
    ConnectOnRx,
    /// Forward the packet to TIPC.
    Forward,
    /// TIPC is blocked: keep the packet for later.
    Requeue,
    /// The connection cannot take data now: fail with this error, which resets
    /// and removes the connection.
    Reject(LkError),
}

/// How a data packet is handled for a connection in state `state`.
pub fn rx_step(state: VsockConnectionState) -> (r: RxStep)
    ensures
        state == VsockConnectionState::VsockOnly ==> r == RxStep::ConnectOnRx,
        state == VsockConnectionState::Active ==> r == RxStep::Forward,
        state == VsockConnectionState::TipcSendBlocked ==> r == RxStep::Requeue,
        state != VsockConnectionState::VsockOnly && state != VsockConnectionState::Active && state
            != VsockConnectionState::TipcSendBlocked ==> r == RxStep::Reject(LkError::ERR_BAD_STATE),
{
    match state {
        VsockConnectionState::VsockOnly => RxStep::ConnectOnRx,
        VsockConnectionState::Active => RxStep::Forward,
        VsockConnectionState::TipcSendBlocked => RxStep::Requeue,
        _ => RxStep::Reject(LkError::ERR_BAD_STATE),
    }
}

/// What to do with a connection after handling a packet for it: a failure
/// resets the peer and removes the connection at once.
pub fn rx_outcome_action(r: &Result<(), Error>) -> (action: ConnectionStateAction)
    ensures
        r is Ok ==> action == ConnectionStateAction::NoAction,
        r is Err ==> action == ConnectionStateAction::Remove,
{
    match r {
        Ok(()) => ConnectionStateAction::NoAction,
        Err(_) => ConnectionStateAction::Remove,
    }
}

/// The kind of an event from the vsock device.
#[derive(Clone, Copy, Debug, PartialEq, Eq, Structural)]
pub enum VsockEventKind {
    ConnectionRequest,
    Connected,
    Disconnected,
    Received(usize),
    CreditRequest,
    CreditUpdate,
}

/// How the receive loop handles an event from the vsock device.
#[derive(Clone, Copy, Debug, PartialEq, Eq, Structural)]
pub enum RxEventPlan {
    /// A peer asks to connect: `vsock_rx_op_request`, resetting the peer on failure.
    AcceptRequest,
    /// A packet of this many bytes arrived for a connection.
    Deliver(usize),
    /// The peer closed its side: remove the connection.
    Disconnect,
    /// Nothing to do.
    Ignore,
    /// An event the bridge never expects (outbound connections and credit
    /// requests): a fatal error.
    Unsupported,
}

/// How the receive loop handles an event of kind `kind`.
pub fn rx_event_plan(kind: VsockEventKind) -> (r: RxEventPlan)
    ensures
        kind == VsockEventKind::ConnectionRequest ==> r == RxEventPlan::AcceptRequest,
        kind matches VsockEventKind::Received(length) ==> r == RxEventPlan::Deliver(length),
        kind == VsockEventKind::Disconnected ==> r == RxEventPlan::Disconnect,
        kind == VsockEventKind::CreditUpdate ==> r == RxEventPlan::Ignore,
        kind == VsockEventKind::Connected || kind == VsockEventKind::CreditRequest ==> r
            == RxEventPlan::Unsupported,
{
    match kind {
        VsockEventKind::ConnectionRequest => RxEventPlan::AcceptRequest,
        VsockEventKind::Connected => RxEventPlan::Unsupported,
        VsockEventKind::Received(length) => RxEventPlan::Deliver(length),
        VsockEventKind::Disconnected => RxEventPlan::Disconnect,
        VsockEventKind::CreditUpdate => RxEventPlan::Ignore,
        VsockEventKind::CreditRequest => RxEventPlan::Unsupported,
    }
}

/// What the transmit loop does after waiting on the handle set.
#[derive(Clone, Copy, Debug, PartialEq, Eq, Structural)]
pub enum TxWaitPlan {
    /// A handle has events: dispatch them to its connection.
    Dispatch,
    /// The set is empty: wait for it to become non-empty.
    WaitUntilNonEmpty,
    /// Nothing happened within the timeout: report statistics and wait with no
    /// timeout.
    Inactive,
    /// The wait failed: pause, then wait again.
    Backoff,
    /// Wait on the set again.
    Restart,
}

/// What the transmit loop does with the result of `handle_set_wait`.
pub fn tx_wait_plan(ret: Result<(), LkError>) -> (r: TxWaitPlan)
    ensures
        r == wait_plan_of(ret),
        ret is Ok ==> r == TxWaitPlan::Dispatch,
        ret == Err::<(), LkError>(LkError::ERR_NOT_FOUND) ==> r == TxWaitPlan::WaitUntilNonEmpty,
        ret == Err::<(), LkError>(LkError::ERR_TIMED_OUT) ==> r == TxWaitPlan::Inactive,
        ret matches Err(e) && e != LkError::ERR_NOT_FOUND && e != LkError::ERR_TIMED_OUT ==> r
            == TxWaitPlan::Backoff,
{
    match ret {
        Ok(()) => TxWaitPlan::Dispatch,
        Err(LkError::ERR_NOT_FOUND) => TxWaitPlan::WaitUntilNonEmpty,
        Err(LkError::ERR_TIMED_OUT) => TxWaitPlan::Inactive,
        Err(_) => TxWaitPlan::Backoff,
    }
}

/// What the transmit loop does after waiting for the empty set to become
/// non-empty: a timeout counts as inactivity; otherwise it waits on the set
/// again.
pub fn tx_wait_nonempty_plan(ret: Result<(), LkError>) -> (r: TxWaitPlan)
    ensures
        ret == Err::<(), LkError>(LkError::ERR_TIMED_OUT) ==> r == TxWaitPlan::Inactive,
        ret != Err::<(), LkError>(LkError::ERR_TIMED_OUT) ==> r == TxWaitPlan::Restart,
{
    match ret {
        Err(LkError::ERR_TIMED_OUT) => TxWaitPlan::Inactive,
        _ => TxWaitPlan::Restart,
    }
}

/// The events a TIPC handle reported.
#[derive(Clone, Copy, Debug, PartialEq, Eq, Structural)]
pub struct TxEvents {
    /// The connection to the TIPC port completed.
    pub ready: bool,
    /// A message is waiting.
    pub msg: bool,
    /// TIPC has room again for pending bytes.
    pub send_unblocked: bool,
    /// The TIPC side hung up.
    pub hup: bool,
}

/// The events in an event mask.
pub fn tx_events(emask: u32) -> (r: TxEvents)
    ensures
        r.ready == (emask & crate::handle::IPC_HANDLE_POLL_READY != 0),
        r.msg == (emask & crate::handle::IPC_HANDLE_POLL_MSG != 0),
        r.send_unblocked == (emask & crate::handle::IPC_HANDLE_POLL_SEND_UNBLOCKED != 0),
        r.hup == (emask & crate::handle::IPC_HANDLE_POLL_HUP != 0),
{
    TxEvents {
        ready: emask & crate::handle::IPC_HANDLE_POLL_READY != 0,
        msg: emask & crate::handle::IPC_HANDLE_POLL_MSG != 0,
        send_unblocked: emask & crate::handle::IPC_HANDLE_POLL_SEND_UNBLOCKED != 0,
        hup: emask & crate::handle::IPC_HANDLE_POLL_HUP != 0,
    }
}

/// How long the transmit loop waits while connections are active before it
/// reports statistics: five seconds.
pub fn active_timeout() -> (r: crate::handle_set::WaitTime)
    ensures
        r == crate::handle_set::WaitTime::from_secs_spec(5),
{
    crate::handle_set::WaitTime::from_secs(5)
}

/// The timeout of the next wait after a connection's events were handled:
/// messages and hang-ups make the loop active.
pub fn tx_timeout_after(current: crate::handle_set::WaitTime, events: TxEvents) -> (r: crate::handle_set::WaitTime)
    ensures
        events.msg || events.hup ==> r == crate::handle_set::WaitTime::from_secs_spec(5),
        !events.msg && !events.hup ==> r == current,
{
    if events.msg || events.hup {
        active_timeout()
    } else {
        current
    }
}

/// What to do with a connection whose TIPC side hung up, given whether the
/// shutdown request to the peer was sent: close it and wait for the peer, or
/// keep it when the peer is already gone.
pub fn tx_hup_action(shutdown_sent: bool) -> (action: ConnectionStateAction)
    ensures
        shutdown_sent ==> action == ConnectionStateAction::Close,
        !shutdown_sent ==> action == ConnectionStateAction::NoAction,
{
    if shutdown_sent {
        ConnectionStateAction::Close
    } else {
        ConnectionStateAction::NoAction
    }
}

/// What the transmit loop does once its wait is over, besides dispatching.
#[derive(Clone, Copy, Debug, PartialEq, Eq, Structural)]
pub struct TxAfterWait {
    /// A handle was returned with a reference to it: drop that reference once
    /// its events were handled, before waiting again.
    pub decref: bool,
    /// Report the connections' statistics.
    pub print_stats: bool,
    /// Pause this long before waiting again.
    pub backoff: Option<crate::handle_set::WaitTime>,
    /// The timeout of the next wait, unless the events handled change it.
    pub next_timeout: crate::handle_set::WaitTime,
}

/// The plan of `tx_wait_plan` for the result of `handle_set_wait`.
pub open spec fn wait_plan_of(ret: Result<(), LkError>) -> TxWaitPlan {
    match ret {
        Ok(()) => TxWaitPlan::Dispatch,
        Err(e) => if e == LkError::ERR_NOT_FOUND {
            TxWaitPlan::WaitUntilNonEmpty
        } else if e == LkError::ERR_TIMED_OUT {
            TxWaitPlan::Inactive
        } else {
            TxWaitPlan::Backoff
        },
    }
}

/// The plan of one pass of the transmit loop: that of the wait on the set or,
/// when the set was empty, that of the wait for it to become non-empty.
pub open spec fn tx_pass_plan(set_wait: Result<(), LkError>, nonempty_wait: Result<(), LkError>) -> TxWaitPlan {
    if wait_plan_of(set_wait) == TxWaitPlan::WaitUntilNonEmpty {
        if nonempty_wait == Err::<(), LkError>(LkError::ERR_TIMED_OUT) {
            TxWaitPlan::Inactive
        } else {
            TxWaitPlan::Restart
        }
    } else {
        wait_plan_of(set_wait)
    }
}

/// What follows a wait with plan `plan` and timeout `timeout`.
pub open spec fn after_wait_of(plan: TxWaitPlan, timeout: crate::handle_set::WaitTime) -> TxAfterWait {
    TxAfterWait {
        decref: plan == TxWaitPlan::Dispatch,
        print_stats: plan == TxWaitPlan::Inactive,
        backoff: if plan == TxWaitPlan::Backoff {
            Some(crate::handle_set::WaitTime::from_secs_spec(10))
        } else {
            None
        },
        next_timeout: if plan == TxWaitPlan::Inactive {
            crate::handle_set::WaitTime { secs: u64::MAX, nanos: 999_999_999 }
        } else {
            timeout
        },
    }
}

/// What the transmit loop does after a wait whose plan is `plan`, the wait
/// having had timeout `timeout`: a handle's events hold a reference to be
/// dropped; inactivity reports statistics and waits with no timeout; a failed
/// wait pauses ten seconds.
pub fn tx_after_wait(plan: TxWaitPlan, timeout: crate::handle_set::WaitTime) -> (r: TxAfterWait)
    ensures
        r == after_wait_of(plan, timeout),
{
    let backoff = if plan == TxWaitPlan::Backoff {
        Some(crate::handle_set::WaitTime::from_secs(10))
    } else {
        None
    };
    let next_timeout = if plan == TxWaitPlan::Inactive {
        crate::handle_set::WaitTime::max()
    } else {
        timeout
    };
    TxAfterWait {
        decref: plan == TxWaitPlan::Dispatch,
        print_stats: plan == TxWaitPlan::Inactive,
        backoff,
        next_timeout,
    }
}

/// In each pass of the transmit loop, the reference to a handle is dropped
/// exactly when the wait on the set returned one; the loop pauses ten seconds
/// exactly when that wait failed other than by an empty set or a timeout; and
/// it reports statistics and stops timing out exactly when it found nothing to
/// do within the timeout.
pub proof fn lemma_tx_pass(set_wait: Result<(), LkError>, nonempty_wait: Result<(), LkError>, timeout: crate::handle_set::WaitTime)
    ensures
        ({
            let a = after_wait_of(tx_pass_plan(set_wait, nonempty_wait), timeout);
            &&& a.decref <==> set_wait is Ok
            &&& a.backoff is Some <==> (set_wait matches Err(e) && e != LkError::ERR_NOT_FOUND && e
                != LkError::ERR_TIMED_OUT)
            &&& a.backoff is Some ==> a.backoff == Some(crate::handle_set::WaitTime::from_secs_spec(10))
            &&& a.print_stats <==> (set_wait == Err::<(), LkError>(LkError::ERR_TIMED_OUT) || (set_wait
                == Err::<(), LkError>(LkError::ERR_NOT_FOUND) && nonempty_wait == Err::<(), LkError>(
                LkError::ERR_TIMED_OUT,
            )))
            &&& a.print_stats ==> a.next_timeout.is_max()
            &&& !a.print_stats ==> a.next_timeout == timeout
        }),
{
}

/// An event of a connection that the transmit loop cannot handle: the kernel
/// is stopped.
#[derive(Clone, Copy, Debug, PartialEq, Eq, Structural)]
pub enum TxFault {
    /// The event's handle id is not the connection's.
    IdMismatch(u32, u32),
    /// The TIPC side reported ready while the connection was not connecting.
    ReadyInState(VsockConnectionState),
    /// TIPC reported room for pending bytes while the connection was not
    /// blocked on sending.
    UnblockedInState(VsockConnectionState),
    /// TIPC reported room for pending bytes while none were pending.
    NothingPending,
}

/// The steps the transmit loop takes, in this order, for the events of a
/// connection.
#[derive(Clone, Copy, Debug, PartialEq, Eq, Structural)]
pub struct TxDispatch {
    /// Mark the connection active (`vsock_tx_tipc_ready`) and tell the peer.
    pub mark_ready: bool,
    /// Forward a TIPC message to the peer.
    pub forward_message: bool,
    /// Send the pending bytes to TIPC (`tipc_try_send`).
    pub send_pending: bool,
    /// Ask the peer to shut the connection down; `tx_hup_action` gives the
    /// outcome.
    pub shut_down: bool,
}

/// The state of a connection after its `ready` event, if any, was handled.
pub open spec fn state_after_ready(state: VsockConnectionState, events: TxEvents) -> VsockConnectionState {
    if events.ready {
        VsockConnectionState::Active
    } else {
        state
    }
}

/// The steps for the `events` of a handle with id `id` whose cookie names
/// connection `c`, or the fault that stops the kernel: an id that is not the
/// connection's; `ready` for a connection not connecting; `send_unblocked` for
/// one not blocked on sending once `ready` was handled, or with nothing
/// pending.
pub open spec fn dispatch_of(c: VsockConnection, id: u32, events: TxEvents) -> Result<TxDispatch, TxFault> {
    let s = state_after_ready(c.state, events);
    if id != c.href@.id {
        Err(TxFault::IdMismatch(id, c.href@.id))
    } else if events.ready && c.state != VsockConnectionState::TipcConnecting {
        Err(TxFault::ReadyInState(c.state))
    } else if events.send_unblocked && s != VsockConnectionState::TipcSendBlocked {
        Err(TxFault::UnblockedInState(s))
    } else if events.send_unblocked && c.rx_pending == 0 {
        Err(TxFault::NothingPending)
    } else {
        Ok(
            TxDispatch {
                mark_ready: events.ready,
                forward_message: events.msg,
                send_pending: events.send_unblocked,
                shut_down: events.hup,
            },
        )
    }
}

/// The steps the transmit loop takes for the `events` of a handle with id
/// `id` whose cookie names connection `c`, or the fault that stops the kernel.
pub fn tx_dispatch_plan(c: &VsockConnection, id: u32, events: TxEvents) -> (r: Result<TxDispatch, TxFault>)
    ensures
        r == dispatch_of(*c, id, events),
{
    let own = c.href.id_of();
    if id != own {
        return Err(TxFault::IdMismatch(id, own));
    }
    if events.ready && c.state != VsockConnectionState::TipcConnecting {
        return Err(TxFault::ReadyInState(c.state));
    }
    let s = if events.ready {
        VsockConnectionState::Active
    } else {
        c.state
    };
    if events.send_unblocked {
        if s != VsockConnectionState::TipcSendBlocked {
            return Err(TxFault::UnblockedInState(s));
        }
        if c.rx_pending == 0 {
            return Err(TxFault::NothingPending);
        }
    }
    Ok(
        TxDispatch {
            mark_ready: events.ready,
            forward_message: events.msg,
            send_pending: events.send_unblocked,
            shut_down: events.hup,
        },
    )
}

/// Every step the transmit loop takes is one the connection is in a state
/// for: the events are the connection's own; it is marked ready only while
/// connecting; its pending bytes are sent only while it is blocked on sending
/// with bytes pending, and never together with `ready`; and every event
/// reported is handled.
pub proof fn lemma_tx_dispatch_sound(c: VsockConnection, id: u32, events: TxEvents)
    ensures
        dispatch_of(c, id, events) matches Ok(d) ==> {
            &&& id == c.href@.id
            &&& d.mark_ready ==> c.state == VsockConnectionState::TipcConnecting
            &&& d.send_pending ==> c.state == VsockConnectionState::TipcSendBlocked && c.rx_pending > 0
                && !d.mark_ready
            &&& d.mark_ready == events.ready && d.forward_message == events.msg && d.send_pending
                == events.send_unblocked && d.shut_down == events.hup
        },
        dispatch_of(c, id, events) is Err ==> id != c.href@.id || events.ready || events.send_unblocked,
{
}

/// Exactly the events that cannot happen stop the kernel: events for another
/// handle id, `ready` for a connection that is not connecting, and
/// `send_unblocked` unless the connection is blocked on sending, with bytes
/// pending, and no `ready` came with it. In particular the `ready` event of a
/// connecting connection is dispatched, and every other event is handled.
pub proof fn lemma_tx_dispatch_faults(c: VsockConnection, id: u32, events: TxEvents)
    ensures
        dispatch_of(c, id, events) is Err <==> (id != c.href@.id || (events.ready && c.state
            != VsockConnectionState::TipcConnecting) || (events.send_unblocked && (events.ready
            || c.state != VsockConnectionState::TipcSendBlocked || c.rx_pending == 0))),
        id == c.href@.id && c.state == VsockConnectionState::TipcConnecting && !events.send_unblocked
            ==> dispatch_of(c, id, events) == Ok::<TxDispatch, TxFault>(
            TxDispatch {
                mark_ready: events.ready,
                forward_message: events.msg,
                send_pending: false,
                shut_down: events.hup,
            },
        ),
        id == c.href@.id && !events.ready && !events.send_unblocked ==> dispatch_of(c, id, events)
            == Ok::<TxDispatch, TxFault>(
            TxDispatch {
                mark_ready: false,
                forward_message: events.msg,
                send_pending: false,
                shut_down: events.hup,
            },
        ),
{
}

/// An open connection (one with its vsock side open, or holding a TIPC
/// handle) closes its TIPC side on `Close`, and is closed altogether by
/// `Remove`, whether it was closed first or not.
pub proof fn lemma_open_connection_close_then_remove(s: VsockConnectionState)
    requires
        s == VsockConnectionState::VsockOnly || s == VsockConnectionState::Active || s
            == VsockConnectionState::TipcConnecting || s == VsockConnectionState::TipcSendBlocked,
    ensures
        state_after_close(s, ConnectionStateAction::Close) == VsockConnectionState::TipcClosed,
        state_after_close(s, ConnectionStateAction::Remove) == VsockConnectionState::Closed,
        state_after_close(
            state_after_close(s, ConnectionStateAction::Close),
            ConnectionStateAction::Remove,
        ) == VsockConnectionState::Closed,
{
}

/// The port name a peer sends is the whole of the bytes received, less one
/// trailing newline: it is kept exactly when none of those bytes is zero.
pub proof fn lemma_port_name_is_whole_packet(packet: Seq<u8>, data_len: int)
    requires
        0 < data_len <= packet.len(),
    ensures
        ({
            let len = if packet[data_len - 1] == 10u8 {
                data_len - 1
            } else {
                data_len
            };
            &&& packet_port_name(packet, data_len) matches Some(n) ==> {
                &&& n.len() == len
                &&& forall|i: int| 0 <= i < len ==> #[trigger] n[i] == packet[i] && n[i] != 0u8
            }
            &&& packet_port_name(packet, data_len) is None <==> exists|i: int|
                0 <= i < len && #[trigger] packet[i] == 0u8
        }),
{
    let len = if packet[data_len - 1] == 10u8 {
        data_len - 1
    } else {
        data_len
    };
    let name = packet.subrange(0, len);
    if name.contains(0u8) {
        let k = choose|k: int| 0 <= k < name.len() && name[k] == 0u8;
        assert(packet[k] == 0u8);
    } else {
        assert forall|i: int| 0 <= i < len implies packet[i] != 0u8 by {
            assert(name[i] == packet[i]);
        }
    }
}

/// Closing a connection twice with the same action changes nothing the second
/// time.
pub proof fn lemma_close_idempotent(s: VsockConnectionState, action: ConnectionStateAction)
    ensures
        state_after_close(state_after_close(s, action), action) == state_after_close(s, action),
{
}

/// Removing a connection that has a vsock or TIPC side open closes it for
/// good; a mere close never does, unless it was closed already.
pub proof fn lemma_remove_closes(s: VsockConnectionState)
    ensures
        (s == VsockConnectionState::VsockOnly || holds_tipc(s) || s == VsockConnectionState::TipcClosed)
            ==> state_after_close(s, ConnectionStateAction::Remove) == VsockConnectionState::Closed,
        state_after_close(s, ConnectionStateAction::Close) == VsockConnectionState::Closed ==> s
            == VsockConnectionState::Closed,
{
}

/// Closing a connection in the table, and removing it when closing finishes
/// it, keeps the peers and ports of the table's connections unique.
pub proof fn lemma_close_keeps_connections_unique(table: Seq<VsockConnection>, index: int, closed: VsockConnection, removed: bool)
    requires
        unique_connections(table),
        0 <= index < table.len(),
        closed.same_data(table[index]),
    ensures
        unique_connections(table_after_close(table, index, closed, removed)),
{
    let t = table_after_close(table, index, closed, removed);
    if removed {
        assert forall|i: int, j: int|
            0 <= i < t.len() && 0 <= j < t.len() && i != j implies !(#[trigger] t[i]).is_for(#[trigger] t[j].peer, t[j].local_port) by {
            let oi = if i == index { table.len() - 1 } else { i };
            let oj = if j == index { table.len() - 1 } else { j };
            assert(t[i] == table[oi]);
            assert(t[j] == table[oj]);
            assert(table[oi].is_for(table[oj].peer, table[oj].local_port) ==> false);
        }
    } else {
        assert forall|i: int, j: int|
            0 <= i < t.len() && 0 <= j < t.len() && i != j implies !(#[trigger] t[i]).is_for(#[trigger] t[j].peer, t[j].local_port) by {
            assert(table[i].is_for(table[j].peer, table[j].local_port) ==> false);
        }
    }
}

/// A connection added to the table is the one a lookup for its peer and port
/// finds: it is the table's last entry and no earlier entry is for them.
pub proof fn lemma_added_connection_is_found(table: Seq<VsockConnection>, c: VsockConnection)
    requires
        !has_connection(table, c.peer, c.local_port),
    ensures
        has_connection(table.push(c), c.peer, c.local_port),
        table.push(c)[table.len() as int] == c,
        forall|j: int| 0 <= j < table.len() ==> !(#[trigger] table.push(c)[j]).is_for(c.peer, c.local_port),
{
    let t = table.push(c);
    assert(t[table.len() as int].is_for(c.peer, c.local_port));
    assert forall|j: int| 0 <= j < table.len() implies !(#[trigger] t[j]).is_for(c.peer, c.local_port) by {
        assert(t[j] == table[j]);
        if table[j].is_for(c.peer, c.local_port) {
            assert(has_connection(table, c.peer, c.local_port));
        }
    }
}

/// A connection whose cookie is consistent, once closed for good, has no
/// cookie left: closing it with `Remove` always removes it from the table.
pub proof fn lemma_consistent_remove_removes(c: VsockConnection)
    requires
        cookie_consistent(c),
        state_after_close(c.state, ConnectionStateAction::Remove) == VsockConnectionState::Closed,
    ensures
        (if holds_tipc(c.state) {
            0usize
        } else {
            c.href@.cookie
        }) == 0,
{
}

/// Whether the cookie of every connection of the table is consistent.
pub open spec fn cookies_consistent(table: Seq<VsockConnection>) -> bool {
    forall|i: int| 0 <= i < table.len() ==> cookie_consistent(#[trigger] table[i])
}

/// Closing a connection of a table whose cookies are consistent, and removing
/// it when closing finishes it, keeps them consistent.
pub proof fn lemma_close_keeps_cookies_consistent(table: Seq<VsockConnection>, index: int, closed: VsockConnection, removed: bool)
    requires
        cookies_consistent(table),
        0 <= index < table.len(),
        cookie_consistent(closed),
    ensures
        cookies_consistent(table_after_close(table, index, closed, removed)),
{
    let t = table_after_close(table, index, closed, removed);
    assert forall|i: int| 0 <= i < t.len() implies cookie_consistent(#[trigger] t[i]) by {
        if removed {
            let oi = if i == index { table.len() - 1 } else { i };
            assert(t[i] == table[oi]);
        } else if i != index {
            assert(t[i] == table[i]);
        }
    }
}

} // verus!
