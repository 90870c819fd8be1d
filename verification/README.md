# rns_interface

The decisions behind three kinds of network interfaces, as a verified library: RNode
radios over Bluetooth Low Energy, RNode radios over Android USB, and TCP backbone links.
The code is Rust with Verus contracts; every function of `src/`, but for the few trusted
wrappers named below, is proved against its `requires` and `ensures`.

## Layout

- `src/kiss.rs`, `src/rnode.rs`, `src/rnode_protocol.rs`: framing, RNode requests and
  responses, and the evidence by which a radio proves the settings it was given.
- `src/ble_rnode/`: connection generations over Bluetooth, from target resolution and
  pairing through startup to the active session and the reconnect policy.
- `src/android_usb_lifecycle/`, `src/android_usb/`: a USB session with its write queue,
  transmit gate, reader, startup barrier, shutdown and quarantine.
- `src/backbone/`: the listener with its fast-flap blocking, its links, and the client.
- `src/text.rs`, `src/payload.rs`, `src/interface.rs`: what they share.
- `app/`: sockets, Bluetooth, JNI, clocks and tasks around the library.
- `tests/`: the library seen from outside.

Time is counted in nanoseconds of a monotonic clock, signal quality and airtime limits in
integers. A loop that alternates outside work and decisions is split: the library holds
the state and decides, and the program performs the action and hands back the event.

## What is trusted

A few items carry contracts that Verus believes: the contents of a `bytes::Bytes` buffer,
the Bluetooth address parser of `bluer`, the operating system's random numbers through
`rand`, and the `Debug` text of a string. Their doc comments say what is claimed of each.
