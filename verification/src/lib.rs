//! Decision logic of a gateway that forwards HTTP requests to one Bluetooth
//! Low Energy peripheral as characteristic writes.

pub mod contract;
pub mod dispatch;
pub mod gateway;
pub mod handle;
pub mod http;
pub mod lifecycle;
pub mod selector;
pub mod status;
pub mod tray;
