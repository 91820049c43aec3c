use sensor_lib::api_types::{StreamsClientDataStorageType, StreamsClientInitializationState, VfsFatManagement};
use sensor_lib::client_data_persistence::{ClientDataPersistence, ClientStateStorage, PersistenceError, VfsFatHandle};
use sensor_lib::client_data_persistence_std::ClientDataPersistenceStd;
use sensor_lib::client_data_storage::{
    channel_initialized_result, prepare_client_data_storage___call_back___application_managed_vfs_fat,
    prepare_client_data_storage___call_back___streams_poc_lib_managed_vfs_fat,
    prepare_client_data_storage___vfs_fat___application_managed,
    prepare_client_data_storage___vfs_fat___streams_poc_lib_managed, send_message_result,
    unwrap_streams_client_data_persistence, StreamsClientDataPersistence,
};
use sensor_lib::api_types::StreamsError;
use sensor_lib::persistence_options::{ClientDataPersistenceOptions, PersistenceOptionsError};

fn call_back_options(latest: Option<Vec<u8>>, init: StreamsClientInitializationState) -> ClientDataPersistenceOptions {
    ClientDataPersistenceOptions {
        vfs_fat_management: VfsFatManagement::VFS_FAT_STREAMS_POC_LIB_MANAGED,
        streams_client_data_storage_type: StreamsClientDataStorageType::CLIENT_DATA_STORAGE_CALL_BACK,
        vfs_fat_path: None,
        client_initialization_state: init,
        latest_client_data_bytes: latest,
        has_update_client_data_call_back: true,
    }
}

fn vfs_fat_options() -> ClientDataPersistenceOptions {
    ClientDataPersistenceOptions {
        vfs_fat_management: VfsFatManagement::VFS_FAT_APPLICATION_MANAGED,
        streams_client_data_storage_type: StreamsClientDataStorageType::CLIENT_DATA_STORAGE_VFS_FAT,
        vfs_fat_path: Some("/data".to_string()),
        client_initialization_state: StreamsClientInitializationState::CLIENT_INIT_STATE_UNKNOWN,
        latest_client_data_bytes: None,
        has_update_client_data_call_back: false,
    }
}

fn empty_settings() -> StreamsClientDataPersistence {
    StreamsClientDataPersistence {
        vfs_fat_management: VfsFatManagement::VFS_FAT_STREAMS_POC_LIB_MANAGED,
        streams_client_data_storage_type: StreamsClientDataStorageType::CLIENT_DATA_STORAGE_VFS_FAT,
        vfs_fat_path: None,
        client_initialization_state: StreamsClientInitializationState::CLIENT_INIT_STATE_UNKNOWN,
        latest_client_data_bytes: None,
        update_call_back_is_default: true,
    }
}

#[test]
fn call_back_storage_gives_back_what_was_stored() {
    let options = call_back_options(Some(vec![7, 7]), StreamsClientInitializationState::CLIENT_INIT_STATE_INITIALIZED);
    assert_eq!(options.validate(), Ok(()));
    let mut cdp = ClientDataPersistence::new(options);
    let handle = cdp.vfs_fat_handle_for_prepare();
    assert_eq!(handle.base_path, "/spiflash");
    assert!(!handle.is_vfs_managed_by_others);
    assert!(!cdp.needs_state_file());
    cdp.prepare(handle, None);
    assert_eq!(cdp.get_latest_client_state(), Ok(vec![7, 7]));
    assert_eq!(cdp.client_state_storage(), Ok(ClientStateStorage::UpdateCallBack));
    assert_eq!(cdp.persist_new_client_state(vec![1, 2, 3], true), Ok(3));
    assert_eq!(cdp.get_latest_client_state(), Ok(vec![1, 2, 3]));
    assert!(cdp.is_client_state_existing(false));
    assert_eq!(cdp.clear_client_state(false, true), Ok(()));
    assert_eq!(cdp.get_latest_client_state(), Ok(Vec::new()));
    assert!(!cdp.is_client_state_existing(false));
    assert!(cdp.flush_resources());
}

#[test]
fn refused_call_back_keeps_state() {
    let options = call_back_options(None, StreamsClientInitializationState::CLIENT_INIT_STATE_NOT_INITIALIZED);
    let mut cdp = ClientDataPersistence::new(options);
    let handle = cdp.vfs_fat_handle_for_prepare();
    cdp.prepare(handle, None);
    assert_eq!(cdp.get_latest_client_state(), Err(PersistenceError::NoLatestClientData));
    assert!(!cdp.is_client_state_existing(true));
    assert_eq!(cdp.persist_new_client_state(vec![1], false), Err(PersistenceError::CallBackRejected));
    assert_eq!(cdp.get_latest_client_state(), Err(PersistenceError::NoLatestClientData));
    assert_eq!(cdp.clear_client_state(false, false), Err(PersistenceError::CallBackRejected));
}

#[test]
fn call_back_storage_without_call_back_fails() {
    let mut options = call_back_options(None, StreamsClientInitializationState::CLIENT_INIT_STATE_NOT_INITIALIZED);
    options.has_update_client_data_call_back = false;
    let mut cdp = ClientDataPersistence::new(options);
    let handle = cdp.vfs_fat_handle_for_prepare();
    cdp.prepare(handle, None);
    assert_eq!(cdp.client_state_storage(), Err(PersistenceError::NoUpdateCallBack));
    assert_eq!(cdp.persist_new_client_state(vec![1], true), Err(PersistenceError::NoUpdateCallBack));
}

#[test]
fn file_storage_reads_state_file_on_prepare() {
    let mut cdp = ClientDataPersistence::new(vfs_fat_options());
    assert_eq!(cdp.get_vfs_fat_base_path(), Err(PersistenceError::NoVfsFatHandle));
    assert_eq!(cdp.get_client_data_file_name(), Err(PersistenceError::NoVfsFatHandle));
    let handle = cdp.vfs_fat_handle_for_prepare();
    assert_eq!(handle.base_path, "/data");
    assert!(handle.is_vfs_managed_by_others);
    assert!(cdp.needs_state_file());
    cdp.prepare(handle, Some(vec![4, 5, 6]));
    assert_eq!(cdp.get_latest_client_state(), Ok(vec![4, 5, 6]));
    assert_eq!(cdp.get_vfs_fat_base_path(), Ok("/data".to_string()));
    assert_eq!(cdp.get_client_data_file_name(), Ok("/data/user-state-sensor.bin".to_string()));
    assert_eq!(cdp.client_state_storage(), Ok(ClientStateStorage::File("/data/user-state-sensor.bin".to_string())));
    assert!(cdp.is_client_state_existing(true));
    assert!(!cdp.is_client_state_existing(false));
    assert_eq!(cdp.persist_new_client_state(vec![9; 10], true), Ok(10));
    assert_eq!(cdp.persist_new_client_state(vec![9; 10], false), Err(PersistenceError::FileWriteFailed));
    assert_eq!(cdp.clear_client_state(true, false), Err(PersistenceError::FileRemoveFailed));
    assert_eq!(cdp.clear_client_state(false, false), Ok(()));
    assert_eq!(cdp.clear_client_state(true, true), Ok(()));
    assert_eq!(cdp.get_latest_client_state(), Ok(Vec::new()));
    assert!(!cdp.flush_resources());
}

#[test]
fn file_storage_without_state_file_is_empty() {
    let mut cdp = ClientDataPersistence::new(vfs_fat_options());
    let handle = VfsFatHandle::new(None);
    assert!(handle.mounts_partition());
    cdp.prepare(handle, None);
    assert_eq!(cdp.get_latest_client_state(), Ok(Vec::new()));
    assert!(cdp.flush_resources());
}

#[test]
fn options_validation_errors() {
    let mut o = vfs_fat_options();
    o.vfs_fat_path = None;
    assert_eq!(o.validate(), Err(PersistenceOptionsError::VfsFatPathMustNotBeNone));
    let mut o = call_back_options(None, StreamsClientInitializationState::CLIENT_INIT_STATE_INITIALIZED);
    assert_eq!(o.validate(), Err(PersistenceOptionsError::LatestClientDataMustNotBeNone));
    o.latest_client_data_bytes = Some(Vec::new());
    assert_eq!(o.validate(), Err(PersistenceOptionsError::LatestClientDataMustNotBeEmpty));
    let o = call_back_options(Some(vec![1]), StreamsClientInitializationState::CLIENT_INIT_STATE_NOT_INITIALIZED);
    assert_eq!(o.validate(), Err(PersistenceOptionsError::LatestClientDataMustBeNone));
    let o = call_back_options(None, StreamsClientInitializationState::CLIENT_INIT_STATE_UNKNOWN);
    assert_eq!(o.validate(), Err(PersistenceOptionsError::InitializationStateNotAllowed));
    let mut o = vfs_fat_options();
    o.vfs_fat_management = VfsFatManagement::VFS_FAT_STREAMS_POC_LIB_MANAGED;
    assert_eq!(o.validate(), Err(PersistenceOptionsError::VfsFatPathMustBeNone));
    assert_eq!(
        vfs_fat_options().is_storage_call_back_client_initialized(),
        Err(PersistenceOptionsError::CallBackQueryOnVfsFatStorage)
    );
    let o = call_back_options(Some(vec![1]), StreamsClientInitializationState::CLIENT_INIT_STATE_INITIALIZED);
    assert_eq!(o.is_storage_call_back_client_initialized(), Ok(true));
}

#[test]
fn prepare_functions_of_the_c_api() {
    let mut s = empty_settings();
    assert!(prepare_client_data_storage___vfs_fat___streams_poc_lib_managed(&mut s));
    assert!(unwrap_streams_client_data_persistence(&s).is_ok());

    let mut s = empty_settings();
    assert!(!prepare_client_data_storage___vfs_fat___application_managed(&mut s, None));
    assert!(prepare_client_data_storage___vfs_fat___application_managed(&mut s, Some("/app".to_string())));

    let mut s = empty_settings();
    assert!(prepare_client_data_storage___call_back___streams_poc_lib_managed_vfs_fat(&mut s, true, Some(vec![3]), false));
    assert_eq!(s.latest_client_data_bytes, Some(vec![3]));
    assert!(!prepare_client_data_storage___call_back___streams_poc_lib_managed_vfs_fat(&mut s, true, Some(Vec::new()), false));
    assert!(!prepare_client_data_storage___call_back___streams_poc_lib_managed_vfs_fat(&mut s, false, None, true));
    assert!(prepare_client_data_storage___call_back___streams_poc_lib_managed_vfs_fat(&mut s, false, Some(vec![3]), false));
    assert_eq!(s.latest_client_data_bytes, None);

    let mut s = empty_settings();
    assert!(!prepare_client_data_storage___call_back___application_managed_vfs_fat(&mut s, None, false, None, false));
    assert!(prepare_client_data_storage___call_back___application_managed_vfs_fat(&mut s, Some("/a".to_string()), false, None, false));
}

#[test]
fn c_api_results() {
    assert_eq!(send_message_result(true, true), StreamsError::STREAMS_INTERNAL_PANIC);
    assert_eq!(send_message_result(false, true), StreamsError::STREAMS_OK);
    assert_eq!(send_message_result(false, false), StreamsError::STREAMS_UNKNOWN_ERROR);
    assert!(channel_initialized_result::<String>(Ok(true)));
    assert!(!channel_initialized_result::<String>(Ok(false)));
    assert!(!channel_initialized_result(Err("failed".to_string())));
}

#[test]
fn std_persistence_keeps_file_name() {
    let p = ClientDataPersistenceStd::new("user-state-sensor.bin");
    assert_eq!(p.get_file_name(), "user-state-sensor.bin");
    let shared = ClientDataPersistenceStd::new_prepared("state.bin");
    assert_eq!(shared.get_file_name(), "state.bin");
}

#[test]
fn call_back_state_survives_flush_and_prepare() {
    let options = call_back_options(Some(vec![1]), StreamsClientInitializationState::CLIENT_INIT_STATE_INITIALIZED);
    let mut cdp = ClientDataPersistence::new(options);
    let handle = cdp.vfs_fat_handle_for_prepare();
    cdp.prepare(handle, None);
    assert_eq!(cdp.persist_new_client_state(vec![5, 6, 7, 8], true), Ok(4));
    assert!(cdp.flush_resources());
    let handle = cdp.vfs_fat_handle_for_prepare();
    cdp.prepare(handle, Some(vec![0]));
    assert_eq!(cdp.get_latest_client_state(), Ok(vec![5, 6, 7, 8]));
}

#[test]
fn accepted_settings_give_valid_options() {
    let mut s = empty_settings();
    assert!(prepare_client_data_storage___call_back___application_managed_vfs_fat(&mut s, Some("/a".to_string()), true, Some(vec![1, 2]), false));
    let options = unwrap_streams_client_data_persistence(&s).expect("accepted settings unwrap");
    assert_eq!(options.validate(), Ok(()));
    assert_eq!(options.latest_client_data_bytes, Some(vec![1, 2]));
    assert_eq!(options.vfs_fat_path, Some("/a".to_string()));
}
