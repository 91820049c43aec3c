//! Verified core of the SUSEE sensor library: the data types of the C API,
//! the persistence of the Streams client state, the single-request response
//! slot used for LoRaWAN transfers, the compressed-message protocol state, the
//! HTTP helpers of the ESP32 sensor, and the decisions of the sensor, management
//! console and application server mock programs.
use vstd::prelude::*;

pub mod api_types;
pub mod text;
pub mod persistence_options;
pub mod client_data_storage;
pub mod client_data_persistence;
pub mod client_data_persistence_std;
pub mod http_tools;
pub mod compressed_transport;
pub mod response_slot;
pub mod command_fetch;
pub mod seed;
pub mod sensor_cli;
pub mod esp_sensor;
pub mod sensor_manager;
pub mod lora_mock;
pub mod management;

verus! {
} // verus!
