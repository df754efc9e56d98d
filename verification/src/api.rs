//! The control interface: requests read from JSON messages of the
//! WebSocket and MQTT adapters, checked and turned into actions, and JSON
//! values turned into datapoint values.
pub mod manager;
pub mod websocket;
pub mod mqtt;
