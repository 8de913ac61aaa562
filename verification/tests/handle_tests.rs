use trusty_vsock::handle::HandleRef;
use trusty_vsock::handle_set::{duration_as_ms, HandleSet, WaitTime, INFINITE_TIME};
use trusty_vsock::ipc::{iovec_kern, ipc_msg_kern};
use trusty_vsock::lk_error::LkError;
use trusty_vsock::vmm::VmmPageArray;

#[test]
fn handle_ref_fields() {
    let mut h = HandleRef::new(0x1000);
    assert_eq!(h.as_mut_ptr(), 0x1000);
    assert_eq!(h.handle(), 0);
    h.set_emask(5);
    h.set_id(7);
    h.set_cookie(0x1000);
    assert_eq!(h.emask(), 5);
    assert_eq!(h.id(), 7);
    assert_eq!(h.cookie(), 0x1000);
}

#[test]
fn handle_close_only_once() {
    let mut h = HandleRef::new(0x1000);
    assert_eq!(h.handle_close(), None);
    h.set_handle(0x55);
    assert_eq!(h.handle_decref(), 0x55);
    assert_eq!(h.handle_close(), Some(0x55));
    assert_eq!(h.handle(), 0);
    assert_eq!(h.handle_close(), None);
}

#[test]
fn attach_and_detach() {
    let set = HandleSet::new(0x77).unwrap();
    assert_eq!(set.as_raw(), 0x77);
    assert!(HandleSet::new(0).is_none());
    let mut h = HandleRef::new(0x1000);
    assert!(!h.detach());
    assert_eq!(set.attach(&mut h, -5), Err(LkError::ERR_NO_MEMORY));
    assert!(!h.is_attached());
    assert_eq!(set.attach(&mut h, 0), Ok(()));
    assert!(h.is_attached());
    assert!(h.detach());
    assert!(!h.is_attached());
}

#[test]
fn wait_timeouts() {
    assert_eq!(duration_as_ms(WaitTime::max()), Ok(INFINITE_TIME));
    assert_eq!(duration_as_ms(WaitTime::from_secs(5)), Ok(5000));
    assert_eq!(duration_as_ms(WaitTime::from_millis(10)), Ok(10));
    assert_eq!(duration_as_ms(WaitTime { secs: 1, nanos: 999_999 }), Ok(1000));
    assert_eq!(duration_as_ms(WaitTime { secs: 4_294_967, nanos: 295_000_000 }), Ok(u32::MAX));
    assert_eq!(duration_as_ms(WaitTime { secs: 4_294_968, nanos: 0 }), Err(LkError::ERR_OUT_OF_RANGE));
    assert_eq!(duration_as_ms(WaitTime { secs: u64::MAX, nanos: 0 }), Err(LkError::ERR_OUT_OF_RANGE));
}

#[test]
fn ipc_messages() {
    let msg = ipc_msg_kern::new(0x4000);
    assert_eq!(msg, ipc_msg_kern { iov: 0x4000, num_iov: 1, handles: 0, num_handles: 0 });
    assert_eq!(ipc_msg_kern::default().num_iov, 0);
    let iov = iovec_kern::from_buffer(0x8000, 16);
    assert_eq!(iov.iov_len, 16);
    assert_eq!(iov.iov_base, 0x8000);
}

#[test]
fn vmm_arrays() {
    let a = VmmPageArray::new(0, 0x9000, 100).ok().unwrap();
    assert_eq!(a.ptr(), 0x9000);
    assert_eq!(a.size(), 100);
    assert!(VmmPageArray::new(1, 0x9000, 100).is_ok());
    assert!(matches!(VmmPageArray::new_physical(-5, 0, 0), Err(LkError::ERR_NO_MEMORY)));
}

#[test]
fn handle_ref_address_never_changes() {
    let mut h = HandleRef::new(0x2000);
    h.set_handle(3);
    h.set_cookie(4);
    h.set_emask(5);
    h.set_id(6);
    h.mark_attached();
    assert!(h.detach());
    assert_eq!(h.handle_close(), Some(3));
    assert_eq!(h.as_mut_ptr(), 0x2000);
}
