# trusty_vsock

The verified core of the Trusty kernel's virtio vsock driver and of the kernel
support it builds on.

- `src/` is the library, verified with Verus. It holds the driver's logic:
  kernel status codes, interrupt flags and the spin lock
  protocol, handle references and sets, wait timeouts, IPC descriptors, VMM
  arrays, hypervisor page sharing and MMIO guarding (as a page-by-page run
  that gives back the pages handled before a failure), PCI window checks, the
  BAR and DMA tables and the DMA buffer copies of the hardware abstraction
  layer, and the vsock-to-TIPC bridge: connection states, the connection
  table, what to do after each wait of the transmit loop and on every vsock
  and TIPC event.
- `app/` is the kernel-facing side: the kernel's C interface, the kernel
  objects around it, hypercalls, the PCI probe, the `virtio_drivers::Hal`
  implementation and the receive and transmit threads. It makes the calls,
  hands their results to the library and carries out the steps the library
  returns. Two choices stay there because they rest on the platform alone:
  whether x86_64 reaches PCI through pKVM's hypercall transport, and whether
  the platform has FIQs at all.
- `tests/` exercises the library on concrete values.
