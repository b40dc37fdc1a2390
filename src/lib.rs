//! Establishing, persisting and verifying the bridge between the local MQTT
//! broker and a cloud endpoint, and the path rules of the file-transfer
//! endpoint.

pub mod bridge;
pub mod cloud;
pub mod connect;
pub mod error;
pub mod file_transfer;
pub mod probe;
pub mod saga;
pub mod text;
