//! Options of the Streams client data persistence, their validation, and the
//! preparation of the persistence settings that the C API hands over.
use vstd::prelude::*;
use crate::api_types::{
    StreamsClientDataStorageType,
    StreamsClientInitializationState,
    VfsFatManagement,
};

verus! {

/// Why a persistence configuration is refused.
#[derive(PartialEq, Eq, Structural, Clone, Copy, Debug)]
pub enum PersistenceOptionsError {
    /// The question whether a callback-stored client is initialized was asked of vfs_fat storage.
    CallBackQueryOnVfsFatStorage,
    /// The initialization state is not allowed for callback storage.
    InitializationStateNotAllowed,
    /// A vfs_fat path was given although the library manages the partition.
    VfsFatPathMustBeNone,
    /// No vfs_fat path was given although the application manages the partition.
    VfsFatPathMustNotBeNone,
    /// Client data were given for a client that is not initialized.
    LatestClientDataMustBeNone,
    /// The client data of an initialized client are empty.
    LatestClientDataMustNotBeEmpty,
    /// No client data were given for an initialized client.
    LatestClientDataMustNotBeNone,
    /// Callback storage was chosen but the update callback is the default one.
    UpdateCallBackIsDefault,
}

/// The view of an optional byte buffer.
pub open spec fn opt_bytes(o: Option<Vec<u8>>) -> Option<Seq<u8>> {
    match o {
        Some(v) => Some(v@),
        None => None,
    }
}

/// The view of an optional string.
pub open spec fn opt_text(o: Option<String>) -> Option<Seq<char>> {
    match o {
        Some(s) => Some(s@),
        None => None,
    }
}

/// Everything needed to manage the persistence of the Streams client data.
pub struct ClientDataPersistenceOptions {
    pub vfs_fat_management: VfsFatManagement,
    pub streams_client_data_storage_type: StreamsClientDataStorageType,
    pub vfs_fat_path: Option<String>,
    pub client_initialization_state: StreamsClientInitializationState,
    pub latest_client_data_bytes: Option<Vec<u8>>,
    /// Whether an update callback has been given (it is kept by the caller).
    pub has_update_client_data_call_back: bool,
}

/// The error, if any, of the vfs_fat path for a management mode.
pub open spec fn vfs_fat_path_error(m: VfsFatManagement, path_is_some: bool) -> Option<PersistenceOptionsError> {
    match m {
        VfsFatManagement::VFS_FAT_STREAMS_POC_LIB_MANAGED => if path_is_some {
            Some(PersistenceOptionsError::VfsFatPathMustBeNone)
        } else {
            None
        },
        VfsFatManagement::VFS_FAT_APPLICATION_MANAGED => if path_is_some {
            None
        } else {
            Some(PersistenceOptionsError::VfsFatPathMustNotBeNone)
        },
    }
}

/// The error, if any, of the client data for an initialization state.
pub open spec fn latest_client_data_error(
    s: StreamsClientInitializationState,
    latest: Option<Seq<u8>>,
) -> Option<PersistenceOptionsError> {
    match s {
        StreamsClientInitializationState::CLIENT_INIT_STATE_UNKNOWN => Some(
            PersistenceOptionsError::InitializationStateNotAllowed,
        ),
        StreamsClientInitializationState::CLIENT_INIT_STATE_NOT_INITIALIZED => match latest {
            Some(_) => Some(PersistenceOptionsError::LatestClientDataMustBeNone),
            None => None,
        },
        StreamsClientInitializationState::CLIENT_INIT_STATE_INITIALIZED => match latest {
            Some(d) => if d.len() == 0 {
                Some(PersistenceOptionsError::LatestClientDataMustNotBeEmpty)
            } else {
                None
            },
            None => Some(PersistenceOptionsError::LatestClientDataMustNotBeNone),
        },
    }
}

impl ClientDataPersistenceOptions {
    /// The first error of these options, if any: the vfs_fat path is checked first, then,
    /// for callback storage, the client data.
    pub open spec fn error(&self) -> Option<PersistenceOptionsError> {
        match vfs_fat_path_error(self.vfs_fat_management, self.vfs_fat_path is Some) {
            Some(e) => Some(e),
            None => if self.streams_client_data_storage_type
                == StreamsClientDataStorageType::CLIENT_DATA_STORAGE_CALL_BACK {
                latest_client_data_error(
                    self.client_initialization_state,
                    opt_bytes(self.latest_client_data_bytes),
                )
            } else {
                None
            },
        }
    }

    /// Whether these options are accepted.
    pub open spec fn is_valid(&self) -> bool {
        self.error() is None
    }

    /// For callback storage, whether the client has been initialized.
    pub fn is_storage_call_back_client_initialized(&self) -> (r: Result<bool, PersistenceOptionsError>)
        ensures
            r == match self.streams_client_data_storage_type {
                StreamsClientDataStorageType::CLIENT_DATA_STORAGE_VFS_FAT => Err(
                    PersistenceOptionsError::CallBackQueryOnVfsFatStorage,
                ),
                StreamsClientDataStorageType::CLIENT_DATA_STORAGE_CALL_BACK => match self.client_initialization_state {
                    StreamsClientInitializationState::CLIENT_INIT_STATE_NOT_INITIALIZED => Ok(false),
                    StreamsClientInitializationState::CLIENT_INIT_STATE_INITIALIZED => Ok(true),
                    StreamsClientInitializationState::CLIENT_INIT_STATE_UNKNOWN => Err(
                        PersistenceOptionsError::InitializationStateNotAllowed,
                    ),
                },
            },
    {
        match self.streams_client_data_storage_type {
            StreamsClientDataStorageType::CLIENT_DATA_STORAGE_CALL_BACK => {
                match self.client_initialization_state {
                    StreamsClientInitializationState::CLIENT_INIT_STATE_NOT_INITIALIZED => Ok(false),
                    StreamsClientInitializationState::CLIENT_INIT_STATE_INITIALIZED => Ok(true),
                    StreamsClientInitializationState::CLIENT_INIT_STATE_UNKNOWN => Err(
                        PersistenceOptionsError::InitializationStateNotAllowed,
                    ),
                }
            },
            StreamsClientDataStorageType::CLIENT_DATA_STORAGE_VFS_FAT => Err(
                PersistenceOptionsError::CallBackQueryOnVfsFatStorage,
            ),
        }
    }

    /// Checks these options: `Ok` exactly when they are valid, else their first error.
    pub fn validate(&self) -> (r: Result<(), PersistenceOptionsError>)
        ensures
            r == match self.error() {
                Some(e) => Err(e),
                None => Ok(()),
            },
    {
        self.validate_vfs_fat_path()?;
        if self.streams_client_data_storage_type
            == StreamsClientDataStorageType::CLIENT_DATA_STORAGE_CALL_BACK {
            self.validate_latest_client_data()?;
        }
        Ok(())
    }

    /// Checks the vfs_fat path against the management mode.
    pub fn validate_vfs_fat_path(&self) -> (r: Result<(), PersistenceOptionsError>)
        ensures
            r == match vfs_fat_path_error(self.vfs_fat_management, self.vfs_fat_path is Some) {
                Some(e) => Err(e),
                None => Ok(()),
            },
    {
        match self.vfs_fat_management {
            VfsFatManagement::VFS_FAT_STREAMS_POC_LIB_MANAGED => {
                if self.vfs_fat_path.is_some() {
                    return Err(PersistenceOptionsError::VfsFatPathMustBeNone);
                }
            },
            VfsFatManagement::VFS_FAT_APPLICATION_MANAGED => {
                if self.vfs_fat_path.is_none() {
                    return Err(PersistenceOptionsError::VfsFatPathMustNotBeNone);
                }
            },
        }
        Ok(())
    }

    /// Checks the client data against the initialization state.
    pub fn validate_latest_client_data(&self) -> (r: Result<(), PersistenceOptionsError>)
        ensures
            r == match latest_client_data_error(
                self.client_initialization_state,
                opt_bytes(self.latest_client_data_bytes),
            ) {
                Some(e) => Err(e),
                None => Ok(()),
            },
    {
        match self.client_initialization_state {
            StreamsClientInitializationState::CLIENT_INIT_STATE_UNKNOWN => {
                Err(PersistenceOptionsError::InitializationStateNotAllowed)
            },
            StreamsClientInitializationState::CLIENT_INIT_STATE_NOT_INITIALIZED => {
                if self.latest_client_data_bytes.is_some() {
                    Err(PersistenceOptionsError::LatestClientDataMustBeNone)
                } else {
                    Ok(())
                }
            },
            StreamsClientInitializationState::CLIENT_INIT_STATE_INITIALIZED => {
                match &self.latest_client_data_bytes {
                    Some(client_data) => {
                        if client_data.len() == 0 {
                            Err(PersistenceOptionsError::LatestClientDataMustNotBeEmpty)
                        } else {
                            Ok(())
                        }
                    },
                    None => Err(PersistenceOptionsError::LatestClientDataMustNotBeNone),
                }
            },
        }
    }
}

} // verus!
