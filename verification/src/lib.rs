//! Protocol logic of the TakeFlight drone ground station: Tello command and
//! video packets, RTP/JPEG reassembly, the client information channel and the
//! video work queue.

pub mod bytes;
pub mod drone_interface;
pub mod drone_pro;
pub mod error;
pub mod network;
pub mod server;
pub mod tello;
pub mod video;
pub mod vision;
