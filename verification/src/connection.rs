//! Connection logic: the per-client tunnelling state of the server, the
//! server's message handling, the router's filters and the client state
//! machines, each as functions from state and event to next state and
//! actions; sockets, serial ports and timers are driven by the caller.
pub mod clock;
pub mod tunnel_connection;
pub mod service;
pub mod tpuart;
pub mod usb;
pub mod tunneling;
pub mod server;
pub mod router;
