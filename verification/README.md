# axraw

Raw ICMP sockets for an operating system kernel, on top of smoltcp, with the device probes and the
data cache maintenance of the network drivers below them. The library is written in Verus: each
function states what it does in its contract, and Verus proves it.

- `src/raw.rs` holds the raw socket. An operation that waits for the network, or asks the routing
  service, stands there as the steps between the waits.
- `src/raw_laws.rs` states what holds over several calls: which identifier a socket is bound to,
  what is queued, what is delivered, what stays as it is.
- `src/message.rs`, `src/addr.rs`, `src/error.rs` and `src/consts.rs` hold the plain values that
  sockets deal in.
- `src/smol.rs`, `src/sockets.rs` and `src/events.rs` state what is relied on of smoltcp and
  axpoll. Their contracts are not proved.
- `src/dcache.rs` plans which cache lines to clean or invalidate around a DMA transfer, and
  `src/dcache_laws.rs` states that the plan covers the range and nothing beside it.
- `src/drivers.rs` decides, from what the platform and the bus report, which devices to bring up.
- `app/` is the kernel side: locks, waiting, the machine's instructions and the bring-up of devices.
