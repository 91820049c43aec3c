//! The persistence settings that the C API fills in (`streams_client_data_persistence_t`),
//! with the pointers turned into plain values: their preparation and their conversion
//! into `ClientDataPersistenceOptions`.
use vstd::prelude::*;
use crate::api_types::{
    StreamsError,
    StreamsClientDataStorageType,
    StreamsClientInitializationState,
    VfsFatManagement,
};
use crate::persistence_options::{
    ClientDataPersistenceOptions,
    PersistenceOptionsError,
    opt_bytes,
    opt_text,
    vfs_fat_path_error,
};

verus! {

/// The persistence settings of the C API. A NULL `vfs_fat_path` or
/// `latest_client_data_bytes` pointer is `None`; `update_call_back_is_default`
/// tells whether the update callback is the library's default one.
pub struct StreamsClientDataPersistence {
    pub vfs_fat_management: VfsFatManagement,
    pub streams_client_data_storage_type: StreamsClientDataStorageType,
    pub vfs_fat_path: Option<String>,
    pub client_initialization_state: StreamsClientInitializationState,
    pub latest_client_data_bytes: Option<Vec<u8>>,
    pub update_call_back_is_default: bool,
}

/// The error, if any, of reading the client data out of the settings.
pub open spec fn unwrap_latest_client_data_error(scdp: &StreamsClientDataPersistence) -> Option<PersistenceOptionsError> {
    match scdp.client_initialization_state {
        StreamsClientInitializationState::CLIENT_INIT_STATE_INITIALIZED => if scdp.latest_client_data_bytes is None {
            Some(PersistenceOptionsError::LatestClientDataMustNotBeNone)
        } else {
            None
        },
        StreamsClientInitializationState::CLIENT_INIT_STATE_NOT_INITIALIZED => None,
        StreamsClientInitializationState::CLIENT_INIT_STATE_UNKNOWN => Some(
            PersistenceOptionsError::InitializationStateNotAllowed,
        ),
    }
}

/// The client data that the settings hand over: those of an initialized client only.
pub open spec fn unwrapped_latest_client_data(scdp: &StreamsClientDataPersistence) -> Option<Seq<u8>> {
    if scdp.client_initialization_state == StreamsClientInitializationState::CLIENT_INIT_STATE_INITIALIZED {
        opt_bytes(scdp.latest_client_data_bytes)
    } else {
        None
    }
}

/// The error, if any, of reading the storage type dependent part of the settings.
pub open spec fn unwrap_storage_type_error(scdp: &StreamsClientDataPersistence) -> Option<PersistenceOptionsError> {
    match scdp.streams_client_data_storage_type {
        StreamsClientDataStorageType::CLIENT_DATA_STORAGE_VFS_FAT => None,
        StreamsClientDataStorageType::CLIENT_DATA_STORAGE_CALL_BACK => match unwrap_latest_client_data_error(scdp) {
            Some(e) => Some(e),
            None => if scdp.update_call_back_is_default {
                Some(PersistenceOptionsError::UpdateCallBackIsDefault)
            } else {
                None
            },
        },
    }
}

/// The error, if any, of turning the settings into options.
pub open spec fn unwrap_error(scdp: &StreamsClientDataPersistence) -> Option<PersistenceOptionsError> {
    match vfs_fat_path_error(scdp.vfs_fat_management, scdp.vfs_fat_path is Some) {
        Some(e) => Some(e),
        None => unwrap_storage_type_error(scdp),
    }
}

/// The options that the settings give when they can be read.
pub open spec fn unwrapped_options_match(scdp: &StreamsClientDataPersistence, o: &ClientDataPersistenceOptions) -> bool {
    let call_back = scdp.streams_client_data_storage_type == StreamsClientDataStorageType::CLIENT_DATA_STORAGE_CALL_BACK;
    &&& o.vfs_fat_management == scdp.vfs_fat_management
    &&& o.streams_client_data_storage_type == scdp.streams_client_data_storage_type
    &&& opt_text(o.vfs_fat_path) == opt_text(scdp.vfs_fat_path)
    &&& o.client_initialization_state == scdp.client_initialization_state
    &&& opt_bytes(o.latest_client_data_bytes) == (if call_back {
        unwrapped_latest_client_data(scdp)
    } else {
        None
    })
    &&& o.has_update_client_data_call_back == call_back
}

/// Whether the settings are accepted: they can be read, and the options they give are valid.
pub open spec fn settings_accepted(scdp: &StreamsClientDataPersistence) -> bool {
    &&& unwrap_error(scdp) is None
    &&& (scdp.streams_client_data_storage_type == StreamsClientDataStorageType::CLIENT_DATA_STORAGE_CALL_BACK
        ==> crate::persistence_options::latest_client_data_error(
        scdp.client_initialization_state,
        unwrapped_latest_client_data(scdp),
    ) is None)
}

fn clone_opt_bytes(o: &Option<Vec<u8>>) -> (r: Option<Vec<u8>>)
    ensures
        opt_bytes(r) == opt_bytes(*o),
{
    match o {
        Some(v) => {
            let c = v.clone();
            assert(c@ =~= v@);
            Some(c)
        },
        None => None,
    }
}

fn clone_opt_text(o: &Option<String>) -> (r: Option<String>)
    ensures
        opt_text(r) == opt_text(*o),
{
    match o {
        Some(s) => Some(s.clone()),
        None => None,
    }
}

/// Reads the vfs_fat path out of the settings and checks it against the management mode.
pub fn unwrap_scdp_vfs_fat(scdp: &StreamsClientDataPersistence) -> (r: Result<Option<String>, PersistenceOptionsError>)
    ensures
        match vfs_fat_path_error(scdp.vfs_fat_management, scdp.vfs_fat_path is Some) {
            Some(e) => r == Err::<Option<String>, PersistenceOptionsError>(e),
            None => r matches Ok(p) && opt_text(p) == opt_text(scdp.vfs_fat_path),
        },
{
    match scdp.vfs_fat_management {
        VfsFatManagement::VFS_FAT_STREAMS_POC_LIB_MANAGED => {
            if scdp.vfs_fat_path.is_some() {
                return Err(PersistenceOptionsError::VfsFatPathMustBeNone);
            }
        },
        VfsFatManagement::VFS_FAT_APPLICATION_MANAGED => {
            if scdp.vfs_fat_path.is_none() {
                return Err(PersistenceOptionsError::VfsFatPathMustNotBeNone);
            }
        },
    }
    Ok(clone_opt_text(&scdp.vfs_fat_path))
}

/// Reads the client data out of the settings: those of an initialized client, none for a
/// client that is not initialized, an error for any other state or missing data.
pub fn unwrap_latest_client_data(scdp: &StreamsClientDataPersistence) -> (r: Result<Option<Vec<u8>>, PersistenceOptionsError>)
    ensures
        match unwrap_latest_client_data_error(scdp) {
            Some(e) => r == Err::<Option<Vec<u8>>, PersistenceOptionsError>(e),
            None => r matches Ok(d) && opt_bytes(d) == unwrapped_latest_client_data(scdp),
        },
{
    match scdp.client_initialization_state {
        StreamsClientInitializationState::CLIENT_INIT_STATE_INITIALIZED => {
            if scdp.latest_client_data_bytes.is_none() {
                return Err(PersistenceOptionsError::LatestClientDataMustNotBeNone);
            }
            Ok(clone_opt_bytes(&scdp.latest_client_data_bytes))
        },
        StreamsClientInitializationState::CLIENT_INIT_STATE_NOT_INITIALIZED => Ok(None),
        StreamsClientInitializationState::CLIENT_INIT_STATE_UNKNOWN => Err(
            PersistenceOptionsError::InitializationStateNotAllowed,
        ),
    }
}

/// Reads the storage type dependent part of the settings: for callback storage the client
/// data and the presence of a callback that is not the default one.
pub fn unwrap_scdp_client_data_storage_type(scdp: &StreamsClientDataPersistence) -> (r: Result<(Option<Vec<u8>>, bool), PersistenceOptionsError>)
    ensures
        match unwrap_storage_type_error(scdp) {
            Some(e) => r == Err::<(Option<Vec<u8>>, bool), PersistenceOptionsError>(e),
            None => r matches Ok((d, cb)) && {
                let call_back = scdp.streams_client_data_storage_type == StreamsClientDataStorageType::CLIENT_DATA_STORAGE_CALL_BACK;
                &&& opt_bytes(d) == (if call_back { unwrapped_latest_client_data(scdp) } else { None })
                &&& cb == call_back
            },
        },
{
    match scdp.streams_client_data_storage_type {
        StreamsClientDataStorageType::CLIENT_DATA_STORAGE_VFS_FAT => Ok((None, false)),
        StreamsClientDataStorageType::CLIENT_DATA_STORAGE_CALL_BACK => {
            let latest_client_data = unwrap_latest_client_data(scdp)?;
            if scdp.update_call_back_is_default {
                return Err(PersistenceOptionsError::UpdateCallBackIsDefault);
            }
            Ok((latest_client_data, true))
        },
    }
}

/// Turns the settings into persistence options, or gives the first reason they cannot be read.
pub fn unwrap_streams_client_data_persistence(scdp: &StreamsClientDataPersistence) -> (r: Result<ClientDataPersistenceOptions, PersistenceOptionsError>)
    ensures
        match unwrap_error(scdp) {
            Some(e) => r matches Err(x) && x == e,
            None => r matches Ok(o) && unwrapped_options_match(scdp, &o),
        },
{
    let opt_string_vfs_fat_path = unwrap_scdp_vfs_fat(scdp)?;
    let (latest_client_data, update_call_back) = unwrap_scdp_client_data_storage_type(scdp)?;
    Ok(ClientDataPersistenceOptions {
        vfs_fat_management: scdp.vfs_fat_management,
        streams_client_data_storage_type: scdp.streams_client_data_storage_type,
        vfs_fat_path: opt_string_vfs_fat_path,
        client_initialization_state: scdp.client_initialization_state,
        latest_client_data_bytes: latest_client_data,
        has_update_client_data_call_back: update_call_back,
    })
}

/// Whether the settings can be read and give valid options.
pub fn validate_client_data_persistence(scdp: &StreamsClientDataPersistence) -> (r: bool)
    ensures
        r == settings_accepted(scdp),
{
    match unwrap_streams_client_data_persistence(scdp) {
        Ok(scdp_opt) => {
            match scdp_opt.validate() {
                Ok(_) => true,
                Err(_) => false,
            }
        },
        Err(_) => false,
    }
}


/// Prepares settings for client data stored in the vfs_fat partition that the library
/// manages. Such settings are always accepted.
#[allow(non_snake_case)]
pub fn prepare_client_data_storage___vfs_fat___streams_poc_lib_managed(
    p_client_data_persistence: &mut StreamsClientDataPersistence,
) -> (r: bool)
    ensures
        final(p_client_data_persistence).streams_client_data_storage_type == StreamsClientDataStorageType::CLIENT_DATA_STORAGE_VFS_FAT,
        final(p_client_data_persistence).vfs_fat_management == VfsFatManagement::VFS_FAT_STREAMS_POC_LIB_MANAGED,
        final(p_client_data_persistence).vfs_fat_path is None,
        final(p_client_data_persistence).client_initialization_state == StreamsClientInitializationState::CLIENT_INIT_STATE_UNKNOWN,
        final(p_client_data_persistence).latest_client_data_bytes is None,
        final(p_client_data_persistence).update_call_back_is_default,
        r == settings_accepted(&*final(p_client_data_persistence)),
        r,
{
    p_client_data_persistence.streams_client_data_storage_type = StreamsClientDataStorageType::CLIENT_DATA_STORAGE_VFS_FAT;
    p_client_data_persistence.vfs_fat_management = VfsFatManagement::VFS_FAT_STREAMS_POC_LIB_MANAGED;
    p_client_data_persistence.vfs_fat_path = None;
    p_client_data_persistence.client_initialization_state = StreamsClientInitializationState::CLIENT_INIT_STATE_UNKNOWN;
    p_client_data_persistence.latest_client_data_bytes = None;
    p_client_data_persistence.update_call_back_is_default = true;
    validate_client_data_persistence(p_client_data_persistence)
}

/// Prepares settings for client data stored in a vfs_fat partition that the application
/// manages under `vfs_fat_path`. They are accepted exactly when a path is given.
#[allow(non_snake_case)]
pub fn prepare_client_data_storage___vfs_fat___application_managed(
    p_client_data_persistence: &mut StreamsClientDataPersistence,
    vfs_fat_path: Option<String>,
) -> (r: bool)
    ensures
        final(p_client_data_persistence).streams_client_data_storage_type == StreamsClientDataStorageType::CLIENT_DATA_STORAGE_VFS_FAT,
        final(p_client_data_persistence).vfs_fat_management == VfsFatManagement::VFS_FAT_APPLICATION_MANAGED,
        opt_text(final(p_client_data_persistence).vfs_fat_path) == opt_text(vfs_fat_path),
        final(p_client_data_persistence).client_initialization_state == StreamsClientInitializationState::CLIENT_INIT_STATE_UNKNOWN,
        final(p_client_data_persistence).latest_client_data_bytes is None,
        final(p_client_data_persistence).update_call_back_is_default,
        r == settings_accepted(&*final(p_client_data_persistence)),
        r == vfs_fat_path is Some,
{
    p_client_data_persistence.streams_client_data_storage_type = StreamsClientDataStorageType::CLIENT_DATA_STORAGE_VFS_FAT;
    p_client_data_persistence.vfs_fat_management = VfsFatManagement::VFS_FAT_APPLICATION_MANAGED;
    p_client_data_persistence.vfs_fat_path = vfs_fat_path;
    p_client_data_persistence.client_initialization_state = StreamsClientInitializationState::CLIENT_INIT_STATE_UNKNOWN;
    p_client_data_persistence.latest_client_data_bytes = None;
    p_client_data_persistence.update_call_back_is_default = true;
    validate_client_data_persistence(p_client_data_persistence)
}

/// Whether callback storage settings are accepted: a callback other than the default one,
/// and, for an initialized client, client data that are not empty.
pub open spec fn call_back_settings_accepted(
    client_is_initialized: bool,
    latest_client_data_bytes: Option<Seq<u8>>,
    update_call_back_is_default: bool,
) -> bool {
    &&& !update_call_back_is_default
    &&& client_is_initialized ==> (latest_client_data_bytes matches Some(d) && d.len() > 0)
}

/// Prepares settings for client data kept by the application, handed in as
/// `latest_client_data_bytes` and updated through the callback, with the vfs_fat partition
/// managed by the library. The data are only taken for an initialized client.
#[allow(non_snake_case)]
pub fn prepare_client_data_storage___call_back___streams_poc_lib_managed_vfs_fat(
    p_client_data_persistence: &mut StreamsClientDataPersistence,
    client_is_initialized: bool,
    latest_client_data_bytes: Option<Vec<u8>>,
    update_call_back_is_default: bool,
) -> (r: bool)
    ensures
        final(p_client_data_persistence).streams_client_data_storage_type == StreamsClientDataStorageType::CLIENT_DATA_STORAGE_CALL_BACK,
        final(p_client_data_persistence).vfs_fat_management == VfsFatManagement::VFS_FAT_STREAMS_POC_LIB_MANAGED,
        final(p_client_data_persistence).vfs_fat_path is None,
        final(p_client_data_persistence).client_initialization_state == (if client_is_initialized {
            StreamsClientInitializationState::CLIENT_INIT_STATE_INITIALIZED
        } else {
            StreamsClientInitializationState::CLIENT_INIT_STATE_NOT_INITIALIZED
        }),
        opt_bytes(final(p_client_data_persistence).latest_client_data_bytes) == (if client_is_initialized {
            opt_bytes(latest_client_data_bytes)
        } else {
            None
        }),
        final(p_client_data_persistence).update_call_back_is_default == update_call_back_is_default,
        r == settings_accepted(&*final(p_client_data_persistence)),
        r == call_back_settings_accepted(client_is_initialized, opt_bytes(latest_client_data_bytes), update_call_back_is_default),
{
    p_client_data_persistence.streams_client_data_storage_type = StreamsClientDataStorageType::CLIENT_DATA_STORAGE_CALL_BACK;
    p_client_data_persistence.vfs_fat_management = VfsFatManagement::VFS_FAT_STREAMS_POC_LIB_MANAGED;
    p_client_data_persistence.vfs_fat_path = None;
    if client_is_initialized {
        p_client_data_persistence.client_initialization_state = StreamsClientInitializationState::CLIENT_INIT_STATE_INITIALIZED;
        p_client_data_persistence.latest_client_data_bytes = latest_client_data_bytes;
    } else {
        p_client_data_persistence.client_initialization_state = StreamsClientInitializationState::CLIENT_INIT_STATE_NOT_INITIALIZED;
        p_client_data_persistence.latest_client_data_bytes = None;
    }
    p_client_data_persistence.update_call_back_is_default = update_call_back_is_default;
    validate_client_data_persistence(p_client_data_persistence)
}

/// Prepares settings for client data kept by the application, with the vfs_fat partition
/// managed by the application under `vfs_fat_path`.
#[allow(non_snake_case)]
pub fn prepare_client_data_storage___call_back___application_managed_vfs_fat(
    p_client_data_persistence: &mut StreamsClientDataPersistence,
    vfs_fat_path: Option<String>,
    client_is_initialized: bool,
    latest_client_data_bytes: Option<Vec<u8>>,
    update_call_back_is_default: bool,
) -> (r: bool)
    ensures
        final(p_client_data_persistence).streams_client_data_storage_type == StreamsClientDataStorageType::CLIENT_DATA_STORAGE_CALL_BACK,
        final(p_client_data_persistence).vfs_fat_management == VfsFatManagement::VFS_FAT_APPLICATION_MANAGED,
        opt_text(final(p_client_data_persistence).vfs_fat_path) == opt_text(vfs_fat_path),
        final(p_client_data_persistence).client_initialization_state == (if client_is_initialized {
            StreamsClientInitializationState::CLIENT_INIT_STATE_INITIALIZED
        } else {
            StreamsClientInitializationState::CLIENT_INIT_STATE_NOT_INITIALIZED
        }),
        opt_bytes(final(p_client_data_persistence).latest_client_data_bytes) == (if client_is_initialized {
            opt_bytes(latest_client_data_bytes)
        } else {
            None
        }),
        final(p_client_data_persistence).update_call_back_is_default == update_call_back_is_default,
        r == settings_accepted(&*final(p_client_data_persistence)),
        r == (vfs_fat_path is Some && call_back_settings_accepted(
            client_is_initialized,
            opt_bytes(latest_client_data_bytes),
            update_call_back_is_default,
        )),
{
    p_client_data_persistence.streams_client_data_storage_type = StreamsClientDataStorageType::CLIENT_DATA_STORAGE_CALL_BACK;
    p_client_data_persistence.vfs_fat_management = VfsFatManagement::VFS_FAT_APPLICATION_MANAGED;
    p_client_data_persistence.vfs_fat_path = vfs_fat_path;
    if client_is_initialized {
        p_client_data_persistence.client_initialization_state = StreamsClientInitializationState::CLIENT_INIT_STATE_INITIALIZED;
        p_client_data_persistence.latest_client_data_bytes = latest_client_data_bytes;
    } else {
        p_client_data_persistence.client_initialization_state = StreamsClientInitializationState::CLIENT_INIT_STATE_NOT_INITIALIZED;
        p_client_data_persistence.latest_client_data_bytes = None;
    }
    p_client_data_persistence.update_call_back_is_default = update_call_back_is_default;
    validate_client_data_persistence(p_client_data_persistence)
}

/// Accepted settings give options that pass validation: what a storage preparation reports
/// is what the library will find when it reads the settings.
pub proof fn lemma_accepted_settings_give_valid_options(
    scdp: StreamsClientDataPersistence,
    o: ClientDataPersistenceOptions,
)
    requires
        settings_accepted(&scdp),
        unwrapped_options_match(&scdp, &o),
    ensures
        o.is_valid(),
{
}

/// What `send_message` of the C API reports: `STREAMS_OK` when the message was sent,
/// `STREAMS_UNKNOWN_ERROR` when sending failed, and `STREAMS_INTERNAL_PANIC` when the
/// library panicked on the way.
pub fn send_message_result(panicked: bool, sent: bool) -> (r: StreamsError)
    ensures
        r == (if panicked {
            StreamsError::STREAMS_INTERNAL_PANIC
        } else if sent {
            StreamsError::STREAMS_OK
        } else {
            StreamsError::STREAMS_UNKNOWN_ERROR
        }),
{
    if panicked {
        StreamsError::STREAMS_INTERNAL_PANIC
    } else if sent {
        StreamsError::STREAMS_OK
    } else {
        StreamsError::STREAMS_UNKNOWN_ERROR
    }
}

/// What `is_streams_channel_initialized` of the C API reports for the outcome of asking the
/// subscriber: its answer, or `false` when asking failed.
pub fn channel_initialized_result<E>(outcome: Result<bool, E>) -> (r: bool)
    ensures
        r == (outcome matches Ok(b) && b),
{
    match outcome {
        Ok(b) => b,
        Err(_) => false,
    }
}

/// Options read from callback-storage settings carry the update callback, so the
/// persistence stores new states through it; options read from file-storage settings carry
/// none.
pub proof fn lemma_callback_settings_hand_on_call_back(scdp: StreamsClientDataPersistence, o: ClientDataPersistenceOptions)
    requires
        unwrap_error(&scdp) is None,
        unwrapped_options_match(&scdp, &o),
    ensures
        scdp.streams_client_data_storage_type == StreamsClientDataStorageType::CLIENT_DATA_STORAGE_CALL_BACK
            ==> o.has_update_client_data_call_back,
        scdp.streams_client_data_storage_type == StreamsClientDataStorageType::CLIENT_DATA_STORAGE_VFS_FAT
            ==> !o.has_update_client_data_call_back,
        o.has_update_client_data_call_back ==> !scdp.update_call_back_is_default,
{
}

} // verus!
