//! A WebSocket connection assembled from services: two shuttles that carry
//! items between the application and the socket, and a keepalive.

pub mod client;
pub mod connection;
pub mod io_format;
pub mod keepalive;
pub mod shuttle;
