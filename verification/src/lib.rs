//! The verified core of a virtio vsock driver for the Trusty kernel, with the
//! kernel support it builds on: status codes, interrupt flags and spin locks,
//! handle references and handle sets, IPC descriptors, VMM arrays, hypervisor
//! page sharing and MMIO guarding, PCI window checks, and the vsock-to-TIPC
//! connection bridge.
//!
//! Every kernel, hypervisor and device call is made by the caller; the
//! functions here take what those calls returned and decide what happens next.
pub mod arith;
pub mod err;
pub mod hal;
pub mod handle;
pub mod handle_set;
pub mod hypervisor;
pub mod interrupt;
pub mod ipc;
pub mod kvm;
pub mod lk_error;
pub mod pci;
pub mod spinlock;
pub mod vmm;
pub mod vsock;
