//! Data types shared with the C API of the Streams POC library.
use vstd::prelude::*;

verus! {

/// Base path of the vfs_fat data partition that the library manages itself.
pub const VFS_FAT_MOUNT_BASE_PATH: &'static str = "/spiflash";

/// The base path of the vfs_fat data partition that the library manages itself.
pub fn get_vfs_fat_mount_base_path() -> (r: &'static str)
    ensures
        r@ == "/spiflash"@,
{
    VFS_FAT_MOUNT_BASE_PATH
}

/// Possible errors while communicating with the IOTA-Tangle via the Streams protocol.
#[derive(PartialEq, Eq, Structural, Clone, Copy, Debug)]
#[allow(non_camel_case_types)]
pub enum StreamsError {
    STREAMS_OK,
    STREAMS_UNKNOWN_ERROR,
    STREAMS_INTERNAL_PANIC,
    STREAMS_NODE_NOT_AVAILABLE,
    STREAMS_IOTA_BRIDGE_NOT_AVAILABLE,
    STREAMS_RESPONSE_RESOLVED_WITHOUT_REQUEST,
    STREAMS_RESPONSE_INTERNAL_CHANNEL_ERR,
}

/// The integer value of each `StreamsError` in the C API.
pub open spec fn streams_error_code(e: StreamsError) -> int {
    match e {
        StreamsError::STREAMS_OK => 1,
        StreamsError::STREAMS_UNKNOWN_ERROR => -1,
        StreamsError::STREAMS_INTERNAL_PANIC => -2,
        StreamsError::STREAMS_NODE_NOT_AVAILABLE => -3,
        StreamsError::STREAMS_IOTA_BRIDGE_NOT_AVAILABLE => -4,
        StreamsError::STREAMS_RESPONSE_RESOLVED_WITHOUT_REQUEST => -5,
        StreamsError::STREAMS_RESPONSE_INTERNAL_CHANNEL_ERR => -6,
    }
}

/// The text that names each `StreamsError`.
pub open spec fn streams_error_name(e: StreamsError) -> Seq<char> {
    match e {
        StreamsError::STREAMS_OK => "STREAMS_OK"@,
        StreamsError::STREAMS_UNKNOWN_ERROR => "STREAMS_UNKNOWN_ERROR"@,
        StreamsError::STREAMS_INTERNAL_PANIC => "STREAMS_INTERNAL_PANIC"@,
        StreamsError::STREAMS_NODE_NOT_AVAILABLE => "STREAMS_NODE_NOT_AVAILABLE"@,
        StreamsError::STREAMS_IOTA_BRIDGE_NOT_AVAILABLE => "STREAMS_IOTA_BRIDGE_NOT_AVAILABLE"@,
        StreamsError::STREAMS_RESPONSE_RESOLVED_WITHOUT_REQUEST => "STREAMS_RESPONSE_RESOLVED_WITHOUT_REQUEST"@,
        StreamsError::STREAMS_RESPONSE_INTERNAL_CHANNEL_ERR => "STREAMS_RESPONSE_INTERNAL_CHANNEL_ERR"@,
    }
}

impl StreamsError {
    /// The integer value of this error in the C API.
    pub fn code(&self) -> (r: i32)
        ensures
            r == streams_error_code(*self),
    {
        match self {
            StreamsError::STREAMS_OK => 1,
            StreamsError::STREAMS_UNKNOWN_ERROR => -1,
            StreamsError::STREAMS_INTERNAL_PANIC => -2,
            StreamsError::STREAMS_NODE_NOT_AVAILABLE => -3,
            StreamsError::STREAMS_IOTA_BRIDGE_NOT_AVAILABLE => -4,
            StreamsError::STREAMS_RESPONSE_RESOLVED_WITHOUT_REQUEST => -5,
            StreamsError::STREAMS_RESPONSE_INTERNAL_CHANNEL_ERR => -6,
        }
    }

    /// The error whose C API value is `code`, if there is one.
    pub fn from_code(code: i32) -> (r: Option<StreamsError>)
        ensures
            match r {
                Some(e) => streams_error_code(e) == code,
                None => forall|e: StreamsError| streams_error_code(e) != code,
            },
    {
        if code == 1 {
            Some(StreamsError::STREAMS_OK)
        } else if code == -1 {
            Some(StreamsError::STREAMS_UNKNOWN_ERROR)
        } else if code == -2 {
            Some(StreamsError::STREAMS_INTERNAL_PANIC)
        } else if code == -3 {
            Some(StreamsError::STREAMS_NODE_NOT_AVAILABLE)
        } else if code == -4 {
            Some(StreamsError::STREAMS_IOTA_BRIDGE_NOT_AVAILABLE)
        } else if code == -5 {
            Some(StreamsError::STREAMS_RESPONSE_RESOLVED_WITHOUT_REQUEST)
        } else if code == -6 {
            Some(StreamsError::STREAMS_RESPONSE_INTERNAL_CHANNEL_ERR)
        } else {
            None
        }
    }

    /// The text that names this error (what `streams_error_to_string` hands to C).
    pub fn to_text(&self) -> (r: String)
        ensures
            r@ == streams_error_name(*self),
    {
        match self {
            StreamsError::STREAMS_OK => String::from_str("STREAMS_OK"),
            StreamsError::STREAMS_UNKNOWN_ERROR => String::from_str("STREAMS_UNKNOWN_ERROR"),
            StreamsError::STREAMS_INTERNAL_PANIC => String::from_str("STREAMS_INTERNAL_PANIC"),
            StreamsError::STREAMS_NODE_NOT_AVAILABLE => String::from_str("STREAMS_NODE_NOT_AVAILABLE"),
            StreamsError::STREAMS_IOTA_BRIDGE_NOT_AVAILABLE => String::from_str("STREAMS_IOTA_BRIDGE_NOT_AVAILABLE"),
            StreamsError::STREAMS_RESPONSE_RESOLVED_WITHOUT_REQUEST => String::from_str("STREAMS_RESPONSE_RESOLVED_WITHOUT_REQUEST"),
            StreamsError::STREAMS_RESPONSE_INTERNAL_CHANNEL_ERR => String::from_str("STREAMS_RESPONSE_INTERNAL_CHANNEL_ERR"),
        }
    }
}


/// Possible errors of the LoRaWAN communication stack.
#[derive(PartialEq, Eq, Structural, Clone, Copy, Debug)]
#[allow(non_camel_case_types)]
pub enum LoRaWanError {
    LORAWAN_OK,
    LORAWAN_NO_CONNECTION,
    LORAWAN_IOTA_BRIDGE_CONNECTOR_ERROR,
    LORAWAN_EXIT_SENSOR_MANAGER,
}

/// The integer value of each `LoRaWanError` in the C API.
pub open spec fn lorawan_error_code(e: LoRaWanError) -> int {
    match e {
        LoRaWanError::LORAWAN_OK => 1,
        LoRaWanError::LORAWAN_NO_CONNECTION => -1,
        LoRaWanError::LORAWAN_IOTA_BRIDGE_CONNECTOR_ERROR => -2,
        LoRaWanError::LORAWAN_EXIT_SENSOR_MANAGER => -100,
    }
}

impl LoRaWanError {
    /// The error whose C API value is `code`, if there is one.
    pub fn from_code(code: i32) -> (r: Option<LoRaWanError>)
        ensures
            match r {
                Some(e) => lorawan_error_code(e) == code,
                None => forall|e: LoRaWanError| lorawan_error_code(e) != code,
            },
    {
        if code == 1 {
            Some(LoRaWanError::LORAWAN_OK)
        } else if code == -1 {
            Some(LoRaWanError::LORAWAN_NO_CONNECTION)
        } else if code == -2 {
            Some(LoRaWanError::LORAWAN_IOTA_BRIDGE_CONNECTOR_ERROR)
        } else if code == -100 {
            Some(LoRaWanError::LORAWAN_EXIT_SENSOR_MANAGER)
        } else {
            None
        }
    }
}

/// Defines how the vfs_fat data partition, needed to store files in spiflash, is managed.
#[derive(PartialEq, Eq, Structural, Clone, Copy, Debug)]
#[allow(non_camel_case_types)]
pub enum VfsFatManagement {
    /// The library mounts and uses its default '/spiflash' data partition.
    VFS_FAT_STREAMS_POC_LIB_MANAGED,
    /// The application manages the partition; the path names it.
    VFS_FAT_APPLICATION_MANAGED,
}

/// Defines how the Streams client data are stored.
#[derive(PartialEq, Eq, Structural, Clone, Copy, Debug)]
#[allow(non_camel_case_types)]
pub enum StreamsClientDataStorageType {
    /// In a file of the vfs_fat data partition.
    CLIENT_DATA_STORAGE_VFS_FAT,
    /// By the application: initial data in a buffer, updates through a callback.
    CLIENT_DATA_STORAGE_CALL_BACK,
}

/// The initialization state of the sensor's Streams client.
#[derive(PartialEq, Eq, Structural, Clone, Copy, Debug)]
#[allow(non_camel_case_types)]
pub enum StreamsClientInitializationState {
    CLIENT_INIT_STATE_UNKNOWN,
    CLIENT_INIT_STATE_NOT_INITIALIZED,
    CLIENT_INIT_STATE_INITIALIZED,
}

/// Every `StreamsError` keeps its identity through its C API value.
pub proof fn lemma_streams_error_code_roundtrip(e: StreamsError, f: StreamsError)
    ensures
        streams_error_code(e) == streams_error_code(f) ==> e == f,
{
}

} // verus!
