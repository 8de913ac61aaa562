use trusty_vsock::err::Error;
use trusty_vsock::handle_set::{HandleSet, WaitTime};
use trusty_vsock::lk_error::LkError;
use trusty_vsock::vsock::{
    active_timeout, add_connection, port_map, port_name_from_packet, rx_event_plan,
    rx_outcome_action, rx_step, tipc_port_path, tipc_read_complete, tx_events, tx_hup_action,
    tx_timeout_after, tx_wait_nonempty_plan, tx_wait_plan, vsock_connect_on_rx,
    vsock_connect_tipc, vsock_connect_tipc_attach, vsock_connection_close,
    vsock_connection_finish, vsock_connection_lookup_cookie, vsock_connection_lookup_peer,
    vsock_rx_channel, vsock_rx_op_request, vsock_tx_forwarded, vsock_tx_tipc_ready,
    tx_after_wait, tx_dispatch_plan, ConnectionStateAction, PortFeatures, RxEventPlan, RxStep,
    TxAfterWait, TxDispatch, TxEvents, TxFault, TxWaitPlan, VsockAddr,
    VsockConnection, VsockConnectionState, VsockEventKind, PORT_MAP_LEN,
};

const HOST: VsockAddr = VsockAddr { cid: 2, port: 1234 };

fn all_features(on: bool) -> PortFeatures {
    PortFeatures {
        authmgr: on,
        hwcrypto_hal: on,
        securestorage_hal: on,
        widevine_aidl_comm: on,
        gatekeeper: on,
        keymint: on,
    }
}

fn local(port: u32) -> VsockAddr {
    VsockAddr { cid: 3, port }
}

fn connected(port: u32, address: usize) -> VsockConnection {
    let map = port_map(all_features(true));
    let mut c = vsock_rx_op_request(&Vec::new(), &map, HOST, local(port), address).ok().unwrap();
    vsock_connect_tipc(&mut c, 0x99);
    c
}

#[test]
fn default_state_is_invalid() {
    assert_eq!(VsockConnectionState::default(), VsockConnectionState::Invalid);
}

#[test]
fn new_connection() {
    let c = VsockConnection::new(HOST, 5, 0x1000);
    assert_eq!(c.state, VsockConnectionState::VsockOnly);
    assert_eq!(c.rx_buffer.len(), 8192);
    assert!(c.rx_buffer.iter().all(|b| *b == 0));
    assert_eq!(c.rx_pending, 0);
    assert!(c.tipc_port_name.is_none());
}

#[test]
fn port_map_entries() {
    let map = port_map(all_features(false));
    assert_eq!(map.len(), PORT_MAP_LEN);
    assert!(map[0].enabled && map[1].enabled);
    assert_eq!(map[0].name, "");
    assert_eq!(map[2].name, "com.android.trusty.authmgr");
    assert!(!map[2].enabled);
    assert_eq!(map[9].name, "com.android.trusty.keymint");
    let map = port_map(PortFeatures { keymint: true, ..all_features(false) });
    assert!(map[9].enabled && !map[8].enabled);
}

#[test]
fn request_on_name_ports_waits_for_name() {
    let map = port_map(all_features(true));
    let c = vsock_rx_op_request(&Vec::new(), &map, HOST, local(0), 0x10).ok().unwrap();
    assert_eq!(c.state, VsockConnectionState::VsockOnly);
    assert!(c.tipc_port_name.is_none());
    assert_eq!(c.local_port, 0);
    let c = vsock_rx_op_request(&Vec::new(), &map, HOST, local(1), 0x10).ok().unwrap();
    assert!(c.tipc_port_name.is_none());
}

#[test]
fn request_on_mapped_port_names_tipc_port() {
    let map = port_map(all_features(true));
    let c = vsock_rx_op_request(&Vec::new(), &map, HOST, local(8), 0x10).ok().unwrap();
    assert_eq!(c.tipc_port_name.as_deref(), Some(&b"com.android.trusty.gatekeeper"[..]));
    assert_eq!(tipc_port_path(&c), b"com.android.trusty.gatekeeper\0".to_vec());
}

#[test]
fn request_refusals() {
    let map = port_map(PortFeatures { gatekeeper: false, ..all_features(true) });
    assert!(matches!(
        vsock_rx_op_request(&Vec::new(), &map, HOST, local(8), 0x10),
        Err(Error::Lk(LkError::ERR_NOT_VALID))
    ));
    assert!(matches!(
        vsock_rx_op_request(&Vec::new(), &map, HOST, local(10), 0x10),
        Err(Error::Lk(LkError::ERR_OUT_OF_RANGE))
    ));
    let mut table = Vec::new();
    let c = vsock_rx_op_request(&table, &map, HOST, local(0), 0x10).ok().unwrap();
    add_connection(&mut table, c);
    assert!(matches!(
        vsock_rx_op_request(&table, &map, HOST, local(0), 0x20),
        Err(Error::Lk(LkError::ERR_ALREADY_EXISTS))
    ));
    // Another peer may connect to the same port.
    let other = VsockAddr { cid: 2, port: 999 };
    assert!(vsock_rx_op_request(&table, &map, other, local(0), 0x20).is_ok());
}

#[test]
fn connect_sets_up_handle_reference() {
    let mut c = connected(2, 0x5000);
    assert_eq!(c.state, VsockConnectionState::TipcConnecting);
    assert_eq!(c.href.handle(), 0x99);
    assert_eq!(c.href.cookie(), 0x5000);
    assert_eq!(c.href.emask(), u32::MAX);
    assert_eq!(c.href.id(), HOST.port);
}

#[test]
fn attach_failure_closes_handle() {
    let set = HandleSet::new(0x1).unwrap();
    let mut c = connected(2, 0x5000);
    let (r, closed) = vsock_connect_tipc_attach(&set, &mut c, -5);
    assert!(matches!(r, Err(Error::Lk(LkError::ERR_NO_MEMORY))));
    assert_eq!(closed, Some(0x99));
    assert_eq!(c.href.handle(), 0);
    let mut c = connected(2, 0x5000);
    let (r, closed) = vsock_connect_tipc_attach(&set, &mut c, 0);
    assert!(r.is_ok() && closed.is_none());
    assert!(c.href.is_attached());
}

#[test]
fn port_names_from_packets() {
    let packet = b"com.android.trusty.keymint\nxyz".to_vec();
    assert_eq!(port_name_from_packet(&packet, 27), Some(b"com.android.trusty.keymint".to_vec()));
    assert_eq!(port_name_from_packet(&packet, 26), Some(b"com.android.trusty.keymint".to_vec()));
    assert_eq!(port_name_from_packet(&packet, 3), Some(b"com".to_vec()));
    assert_eq!(port_name_from_packet(&b"a\0b".to_vec(), 3), None);
    assert_eq!(port_name_from_packet(&b"\n".to_vec(), 1), Some(Vec::new()));
}

#[test]
fn connect_on_rx_records_name() {
    let mut c = VsockConnection::new(HOST, 0, 0x10);
    assert!(vsock_connect_on_rx(&mut c, &b"com.foo\n".to_vec(), 8));
    assert_eq!(c.tipc_port_name, Some(b"com.foo".to_vec()));
    let mut c = VsockConnection::new(HOST, 1, 0x10);
    assert!(!vsock_connect_on_rx(&mut c, &b"c\0m".to_vec(), 3));
    assert!(c.tipc_port_name.is_none());
}

#[test]
fn send_results() {
    let mut c = connected(2, 0x5000);
    vsock_tx_tipc_ready(&mut c);
    assert_eq!(c.state, VsockConnectionState::Active);
    vsock_rx_channel(&mut c, 100, 100);
    assert_eq!(c.rx_pending, 100);
    assert_eq!(c.rx_count, 1);
    assert_eq!(c.rx_since_tx, 1);
    // TIPC is full: the connection blocks with its bytes pending.
    assert!(c.tipc_try_send(LkError::ERR_NOT_ENOUGH_BUFFER.code()).is_ok());
    assert_eq!(c.state, VsockConnectionState::TipcSendBlocked);
    assert_eq!(c.rx_pending, 100);
    // A short send is an error that changes nothing.
    assert!(matches!(c.tipc_try_send(50), Err(Error::Lk(LkError::ERR_BAD_LEN))));
    assert_eq!(c.rx_pending, 100);
    // A kernel error is passed on.
    assert!(matches!(c.tipc_try_send(-20), Err(Error::Lk(LkError::ERR_IO))));
    // The whole message goes: active again with nothing pending.
    c.tx_since_rx = 4;
    assert!(c.tipc_try_send(100).is_ok());
    assert_eq!(c.state, VsockConnectionState::Active);
    assert_eq!(c.rx_pending, 0);
    assert_eq!(c.tx_since_rx, 0);
}

#[test]
fn forwarded_messages_are_counted() {
    let mut c = connected(2, 0x5000);
    c.rx_since_tx = 3;
    vsock_tx_forwarded(&mut c);
    assert_eq!((c.tx_count, c.tx_since_rx, c.rx_since_tx), (1, 1, 0));
    assert!(tipc_read_complete(10, 10));
    assert!(!tipc_read_complete(9, 10));
    assert!(!tipc_read_complete(-1, 0));
}

#[test]
fn close_active_connection() {
    let set = HandleSet::new(0x1).unwrap();
    let mut c = connected(2, 0x5000);
    let _ = vsock_connect_tipc_attach(&set, &mut c, 0);
    vsock_tx_tipc_ready(&mut c);
    let actions = vsock_connection_close(&mut c, ConnectionStateAction::Close);
    assert!(actions.detach);
    assert_eq!(actions.close_handle, Some(0x99));
    assert!(!actions.remove);
    assert_eq!(c.state, VsockConnectionState::TipcClosed);
    assert_eq!(c.href.cookie(), 0);
    assert!(!c.href.is_attached());
    // Closing again: the peer acknowledged, remove it.
    let actions = vsock_connection_close(&mut c, ConnectionStateAction::Remove);
    assert!(!actions.detach && actions.close_handle.is_none());
    assert!(actions.remove);
    assert_eq!(c.state, VsockConnectionState::Closed);
}

#[test]
fn close_vsock_only_connection() {
    let mut c = VsockConnection::new(HOST, 0, 0x10);
    let actions = vsock_connection_close(&mut c, ConnectionStateAction::Close);
    assert_eq!(c.state, VsockConnectionState::TipcClosed);
    assert!(!actions.remove && !actions.detach);
    let mut c = VsockConnection::new(HOST, 0, 0x10);
    let actions = vsock_connection_close(&mut c, ConnectionStateAction::Remove);
    assert_eq!(c.state, VsockConnectionState::Closed);
    assert!(actions.remove);
}

#[test]
fn close_is_idempotent() {
    let mut c = connected(2, 0x5000);
    vsock_connection_close(&mut c, ConnectionStateAction::Remove);
    let state = c.state;
    let actions = vsock_connection_close(&mut c, ConnectionStateAction::Remove);
    assert_eq!(c.state, state);
    assert!(actions.remove && !actions.detach && actions.close_handle.is_none());
}

#[test]
fn table_lookup_and_finish() {
    let map = port_map(all_features(true));
    let mut table = Vec::new();
    for (i, port) in [0u32, 1, 0].iter().enumerate() {
        let peer = VsockAddr { cid: 2, port: 100 + i as u32 };
        let c = vsock_rx_op_request(&table, &map, peer, local(*port), 0x1000 * (i + 1)).ok().unwrap();
        add_connection(&mut table, c);
    }
    let peer1 = VsockAddr { cid: 2, port: 101 };
    assert_eq!(vsock_connection_lookup_peer(&table, peer1, 1), Some(1));
    assert_eq!(vsock_connection_lookup_peer(&table, peer1, 0), None);
    assert_eq!(vsock_connection_lookup_cookie(&table, 0x3000), Some(2));
    assert_eq!(vsock_connection_lookup_cookie(&table, 0x4000), None);
    // No action leaves the table alone.
    let actions = vsock_connection_finish(&mut table, 0, ConnectionStateAction::NoAction);
    assert!(!actions.remove);
    assert_eq!(table.len(), 3);
    // Removing the first connection moves the last one into its place.
    let actions = vsock_connection_finish(&mut table, 0, ConnectionStateAction::Remove);
    assert!(actions.remove);
    assert_eq!(table.len(), 2);
    assert_eq!(table[0].peer.port, 102);
    assert_eq!(table[1].peer.port, 101);
    // A mere close keeps it.
    let actions = vsock_connection_finish(&mut table, 1, ConnectionStateAction::Close);
    assert!(!actions.remove);
    assert_eq!(table[1].state, VsockConnectionState::TipcClosed);
}

#[test]
fn rx_steps_by_state() {
    assert_eq!(rx_step(VsockConnectionState::VsockOnly), RxStep::ConnectOnRx);
    assert_eq!(rx_step(VsockConnectionState::Active), RxStep::Forward);
    assert_eq!(rx_step(VsockConnectionState::TipcSendBlocked), RxStep::Requeue);
    assert_eq!(rx_step(VsockConnectionState::TipcConnecting), RxStep::Reject(LkError::ERR_BAD_STATE));
    assert_eq!(rx_step(VsockConnectionState::Closed), RxStep::Reject(LkError::ERR_BAD_STATE));
    assert_eq!(rx_outcome_action(&Ok(())), ConnectionStateAction::NoAction);
    assert_eq!(
        rx_outcome_action(&Err(Error::Lk(LkError::ERR_BAD_STATE))),
        ConnectionStateAction::Remove
    );
}

#[test]
fn rx_event_plans() {
    assert_eq!(rx_event_plan(VsockEventKind::ConnectionRequest), RxEventPlan::AcceptRequest);
    assert_eq!(rx_event_plan(VsockEventKind::Received(7)), RxEventPlan::Deliver(7));
    assert_eq!(rx_event_plan(VsockEventKind::Disconnected), RxEventPlan::Disconnect);
    assert_eq!(rx_event_plan(VsockEventKind::CreditUpdate), RxEventPlan::Ignore);
    assert_eq!(rx_event_plan(VsockEventKind::Connected), RxEventPlan::Unsupported);
    assert_eq!(rx_event_plan(VsockEventKind::CreditRequest), RxEventPlan::Unsupported);
}

#[test]
fn tx_wait_plans() {
    assert_eq!(tx_wait_plan(Ok(())), TxWaitPlan::Dispatch);
    assert_eq!(tx_wait_plan(Err(LkError::ERR_NOT_FOUND)), TxWaitPlan::WaitUntilNonEmpty);
    assert_eq!(tx_wait_plan(Err(LkError::ERR_TIMED_OUT)), TxWaitPlan::Inactive);
    assert_eq!(tx_wait_plan(Err(LkError::ERR_IO)), TxWaitPlan::Backoff);
    assert_eq!(tx_wait_nonempty_plan(Err(LkError::ERR_TIMED_OUT)), TxWaitPlan::Inactive);
    assert_eq!(tx_wait_nonempty_plan(Ok(())), TxWaitPlan::Restart);
}

#[test]
fn tx_event_masks_and_timeouts() {
    let e = tx_events(0x1 | 0x8);
    assert!(e.ready && e.msg && !e.send_unblocked && !e.hup);
    let e = tx_events(0x10 | 0x4);
    assert!(!e.ready && !e.msg && e.send_unblocked && e.hup);
    assert_eq!(active_timeout(), WaitTime::from_secs(5));
    assert_eq!(tx_timeout_after(WaitTime::max(), tx_events(0x8)), WaitTime::from_secs(5));
    assert_eq!(tx_timeout_after(WaitTime::max(), tx_events(0x1)), WaitTime::max());
    assert_eq!(tx_hup_action(true), ConnectionStateAction::Close);
    assert_eq!(tx_hup_action(false), ConnectionStateAction::NoAction);
}

fn events(ready: bool, msg: bool, send_unblocked: bool, hup: bool) -> TxEvents {
    TxEvents { ready, msg, send_unblocked, hup }
}

#[test]
fn tx_after_wait_follows_the_plan() {
    let t = WaitTime::from_secs(5);
    assert_eq!(
        tx_after_wait(TxWaitPlan::Dispatch, t),
        TxAfterWait { decref: true, print_stats: false, backoff: None, next_timeout: t }
    );
    assert_eq!(
        tx_after_wait(TxWaitPlan::Inactive, t),
        TxAfterWait { decref: false, print_stats: true, backoff: None, next_timeout: WaitTime::max() }
    );
    assert_eq!(
        tx_after_wait(TxWaitPlan::Backoff, t),
        TxAfterWait {
            decref: false,
            print_stats: false,
            backoff: Some(WaitTime::from_secs(10)),
            next_timeout: t
        }
    );
    let restart = tx_after_wait(TxWaitPlan::Restart, t);
    assert!(!restart.decref && !restart.print_stats && restart.backoff.is_none());
    assert_eq!(restart.next_timeout, t);
}

#[test]
fn tx_pass_drops_reference_only_after_successful_wait() {
    let t = WaitTime::max();
    assert!(tx_after_wait(tx_wait_plan(Ok(())), t).decref);
    for e in [LkError::ERR_NOT_FOUND, LkError::ERR_TIMED_OUT, LkError::ERR_GENERIC] {
        assert!(!tx_after_wait(tx_wait_plan(Err(e)), t).decref);
    }
    assert!(tx_after_wait(tx_wait_plan(Err(LkError::ERR_GENERIC)), t).backoff.is_some());
    let empty_then_timeout = tx_wait_nonempty_plan(Err(LkError::ERR_TIMED_OUT));
    assert!(tx_after_wait(empty_then_timeout, t).print_stats);
}

#[test]
fn tx_dispatch_plan_checks_events() {
    let mut c = connected(2, 0x5000);
    assert_eq!(
        tx_dispatch_plan(&c, 1, events(true, false, false, false)),
        Err(TxFault::IdMismatch(1, 1234))
    );
    assert_eq!(
        tx_dispatch_plan(&c, 1234, events(true, true, false, true)),
        Ok(TxDispatch { mark_ready: true, forward_message: true, send_pending: false, shut_down: true })
    );
    assert_eq!(
        tx_dispatch_plan(&c, 1234, events(true, false, true, false)),
        Err(TxFault::UnblockedInState(VsockConnectionState::Active))
    );
    assert_eq!(
        tx_dispatch_plan(&c, 1234, events(false, false, true, false)),
        Err(TxFault::UnblockedInState(VsockConnectionState::TipcConnecting))
    );
    vsock_tx_tipc_ready(&mut c);
    assert_eq!(
        tx_dispatch_plan(&c, 1234, events(true, false, false, false)),
        Err(TxFault::ReadyInState(VsockConnectionState::Active))
    );
    c.state = VsockConnectionState::TipcSendBlocked;
    assert_eq!(
        tx_dispatch_plan(&c, 1234, events(false, false, true, false)),
        Err(TxFault::NothingPending)
    );
    c.rx_pending = 5;
    assert_eq!(
        tx_dispatch_plan(&c, 1234, events(false, false, true, false)),
        Ok(TxDispatch { mark_ready: false, forward_message: false, send_pending: true, shut_down: false })
    );
}
