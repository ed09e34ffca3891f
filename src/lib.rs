//! Migration of LoRaWAN device registrations from a network operator account
//! into a device registry: credential checks, token scoping, endpoint
//! discovery, reconciliation against the registry and the decision protocol
//! that governs each imported device.

pub mod client;
pub mod codec;
pub mod decision;
pub mod errors;
pub mod reconcile;
pub mod ttn;
pub mod types;

pub use client::Config;
pub use errors::Error;
pub use types::{
    validate_uuid_input, Device, DeviceLabel, GetDevice, Label, LabelRequest, NewDevice,
    NewDeviceRequest, NewLabel, NewLabelRequest,
};
