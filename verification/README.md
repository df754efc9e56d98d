# rknx

A KNX library: cEMI and EMI frames, KNXnet/IP structures, datapoint
encoding and decoding, the KNXnet/IP server's message handling, the
tunnelling client, the TP-UART and USB interfaces, a multi-link router and
a group address cache. The library is written in Verus: each public
function states what it does in `requires`/`ensures`, and Verus proves it.

## Layout

- `src/protocol/` – frames and structures: cEMI (`cemi.rs`), EMI
  (`emi.rs`), the conversion between them (`cemi_adapter.rs`), control
  fields, the transport and application layers (`layers/`), KNXnet/IP
  headers and description blocks, datapoint types (`data/`) and the group
  address cache (`cache/`).
- `src/connection/` – the connection logic as functions from state and
  event to next state and actions: the server (`server.rs`), its tunnel
  connections (`tunnel_connection.rs`), the tunnelling client
  (`tunneling.rs`), TP-UART (`tpuart.rs`), USB (`usb.rs`) and the router
  (`router.rs`). Times are passed in as milliseconds; the variants without
  `_at` read the clock (`clock.rs`).
- `src/api/` – the JSON model of requests and the planning of WebSocket and
  MQTT requests.
- `src/config.rs`, `src/utils/` – configuration, address texts, byte
  helpers, tables, a generic state machine.
- `app/` – the program around the library: sockets, serial ports, HID,
  timers, the database, JSON parsing and printing, floating-point values.
- `tests/` – tests of the library.

Calls into other crates (byteorder, and a few functions of std) are made
through small wrapper functions whose contracts state what those functions
document.
