//! Persistence of the Streams client state of the sensor, either in a file of the
//! vfs_fat partition or through a callback of the application.
//!
//! The file system and the callback are driven by the caller: it mounts the partition,
//! reads the state file, writes or removes it, or calls the callback, and hands the
//! outcome to the functions of this module, which decide what the state becomes.
use vstd::prelude::*;
use crate::api_types::{StreamsClientDataStorageType, StreamsClientInitializationState};
use crate::persistence_options::{ClientDataPersistenceOptions, opt_bytes, opt_text};

verus! {

/// The name of the file that holds the Streams client state.
pub const STREAMS_CLIENT_DATA_FILE_NAME: &'static str = "user-state-sensor.bin";

/// The base path of the partition that the library mounts itself.
pub const BASE_PATH: &'static str = "/spiflash";

/// Why a persistence operation failed.
#[derive(PartialEq, Eq, Structural, Clone, Copy, Debug)]
pub enum PersistenceError {
    /// No vfs_fat handle is available.
    NoVfsFatHandle,
    /// No client state is available.
    NoLatestClientData,
    /// Callback storage was chosen but no update callback was given.
    NoUpdateCallBack,
    /// The update callback could not store the client state.
    CallBackRejected,
    /// The state file could not be written.
    FileWriteFailed,
    /// The state file could not be removed.
    FileRemoveFailed,
}

/// A vfs_fat data partition: the base path and whether someone else manages it.
pub struct VfsFatHandle {
    pub is_vfs_managed_by_others: bool,
    pub base_path: String,
}

impl VfsFatHandle {
    /// The partition for an optional application managed path: that path, managed by the
    /// application, or the library's own partition at `/spiflash`.
    pub fn new(opt_vfs_fat_path: Option<String>) -> (r: VfsFatHandle)
        ensures
            match opt_vfs_fat_path {
                Some(p) => r.is_vfs_managed_by_others && r.base_path@ == p@,
                None => !r.is_vfs_managed_by_others && r.base_path@ == BASE_PATH@,
            },
    {
        match opt_vfs_fat_path {
            Some(vfs_fat_path) => VfsFatHandle { is_vfs_managed_by_others: true, base_path: vfs_fat_path },
            None => VfsFatHandle { is_vfs_managed_by_others: false, base_path: String::from_str(BASE_PATH) },
        }
    }

    /// Whether setting up and dropping this partition means mounting and unmounting it:
    /// only the library's own partition is mounted by the library.
    pub fn mounts_partition(&self) -> (r: bool)
        ensures
            r == !self.is_vfs_managed_by_others,
    {
        !self.is_vfs_managed_by_others
    }
}

/// The path of the client state file in a partition.
pub open spec fn client_state_file_name(base_path: Seq<char>) -> Seq<char> {
    base_path + "/"@ + STREAMS_CLIENT_DATA_FILE_NAME@
}

/// The path of the client state file in the partition at `base_path`.
pub fn compose_client_state_file_name(base_path: &String) -> (r: String)
    ensures
        r@ == client_state_file_name(base_path@),
{
    let r = base_path.clone().concat("/").concat(STREAMS_CLIENT_DATA_FILE_NAME);
    r
}

/// What the persistence looks like: the chosen storage, whether an update callback was
/// given, the base path of the partition once one is held, the latest client state, and
/// whether the persistence is prepared.
pub struct PersistenceView {
    pub storage: StreamsClientDataStorageType,
    pub init_state: StreamsClientInitializationState,
    pub options_latest: Option<Seq<u8>>,
    pub options_vfs_fat_path: Option<Seq<char>>,
    pub has_call_back: bool,
    pub base_path: Option<Seq<char>>,
    pub vfs_managed_by_others: bool,
    pub latest: Option<Seq<u8>>,
    pub prepared: bool,
}

/// Where a new client state goes.
#[derive(PartialEq, Eq, Debug)]
pub enum ClientStateStorage {
    /// Into the file at this path.
    File(String),
    /// To the update callback of the application.
    UpdateCallBack,
}

/// The client state after preparing: read from the state file for file storage (empty when
/// there is no file), kept or taken from the options for callback storage.
pub open spec fn prepared_latest(v: PersistenceView, state_file: Option<Seq<u8>>) -> Option<Seq<u8>> {
    match v.storage {
        StreamsClientDataStorageType::CLIENT_DATA_STORAGE_VFS_FAT => Some(
            match state_file {
                Some(d) => d,
                None => Seq::empty(),
            },
        ),
        StreamsClientDataStorageType::CLIENT_DATA_STORAGE_CALL_BACK => match v.latest {
            Some(d) => Some(d),
            None => if v.init_state == StreamsClientInitializationState::CLIENT_INIT_STATE_INITIALIZED {
                v.options_latest
            } else {
                None
            },
        },
    }
}

/// The persistence after preparing it with the partition at `base_path`, managed by the
/// application or not.
pub open spec fn prepare_next(
    v: PersistenceView,
    base_path: Seq<char>,
    managed_by_others: bool,
    state_file: Option<Seq<u8>>,
) -> PersistenceView {
    PersistenceView {
        latest: prepared_latest(v, state_file),
        base_path: Some(base_path),
        vfs_managed_by_others: managed_by_others,
        prepared: true,
        ..v
    }
}

/// The persistence after flushing its resources.
pub open spec fn flush_next(v: PersistenceView) -> PersistenceView {
    PersistenceView { prepared: false, ..v }
}

/// What reading the latest client state gives.
pub open spec fn latest_result(v: PersistenceView) -> Result<Seq<u8>, PersistenceError> {
    match v.latest {
        Some(d) => Ok(d),
        None => Err(PersistenceError::NoLatestClientData),
    }
}

/// Whether a client state exists: the state file exists for file storage; the latest state
/// is not empty for callback storage.
pub open spec fn state_exists(v: PersistenceView, client_data_file_exists: bool) -> bool {
    match v.storage {
        StreamsClientDataStorageType::CLIENT_DATA_STORAGE_VFS_FAT => client_data_file_exists,
        StreamsClientDataStorageType::CLIENT_DATA_STORAGE_CALL_BACK => match v.latest {
            Some(d) => d.len() > 0,
            None => false,
        },
    }
}

/// The error, if any, of storing a client state before the storage is used.
pub open spec fn storage_error(v: PersistenceView) -> Option<PersistenceError> {
    match v.storage {
        StreamsClientDataStorageType::CLIENT_DATA_STORAGE_VFS_FAT => if v.base_path is None {
            Some(PersistenceError::NoVfsFatHandle)
        } else {
            None
        },
        StreamsClientDataStorageType::CLIENT_DATA_STORAGE_CALL_BACK => if !v.has_call_back {
            Some(PersistenceError::NoUpdateCallBack)
        } else {
            None
        },
    }
}

/// What storing a new client state gives, `stored` telling whether the file was written
/// or the callback accepted the data.
pub open spec fn persist_result(v: PersistenceView, len: nat, stored: bool) -> Result<nat, PersistenceError> {
    match storage_error(v) {
        Some(e) => Err(e),
        None => if stored {
            Ok(len)
        } else {
            match v.storage {
                StreamsClientDataStorageType::CLIENT_DATA_STORAGE_VFS_FAT => Err(PersistenceError::FileWriteFailed),
                StreamsClientDataStorageType::CLIENT_DATA_STORAGE_CALL_BACK => Err(PersistenceError::CallBackRejected),
            }
        },
    }
}

/// The persistence after storing a new client state: the callback storage keeps the state
/// it handed over successfully; the file storage keeps its state until prepared again.
pub open spec fn persist_next(v: PersistenceView, data: Seq<u8>, stored: bool) -> PersistenceView {
    if storage_error(v) is None && stored && v.storage == StreamsClientDataStorageType::CLIENT_DATA_STORAGE_CALL_BACK {
        PersistenceView { latest: Some(data), ..v }
    } else {
        v
    }
}

/// What clearing the client state gives: for file storage, `file_existed` tells whether the
/// state file was there and `stored` whether it was removed; for callback storage, `stored`
/// tells whether the callback accepted the empty state.
pub open spec fn clear_result(v: PersistenceView, file_existed: bool, stored: bool) -> Result<(), PersistenceError> {
    match storage_error(v) {
        Some(e) => Err(e),
        None => match v.storage {
            StreamsClientDataStorageType::CLIENT_DATA_STORAGE_VFS_FAT => if file_existed && !stored {
                Err(PersistenceError::FileRemoveFailed)
            } else {
                Ok(())
            },
            StreamsClientDataStorageType::CLIENT_DATA_STORAGE_CALL_BACK => if stored {
                Ok(())
            } else {
                Err(PersistenceError::CallBackRejected)
            },
        },
    }
}

/// The persistence after clearing the client state: an empty state where the file was
/// removed or the callback accepted the empty state.
pub open spec fn clear_next(v: PersistenceView, file_existed: bool, stored: bool) -> PersistenceView {
    let cleared = match v.storage {
        StreamsClientDataStorageType::CLIENT_DATA_STORAGE_VFS_FAT => file_existed && stored,
        StreamsClientDataStorageType::CLIENT_DATA_STORAGE_CALL_BACK => stored,
    };
    if storage_error(v) is None && cleared {
        PersistenceView { latest: Some(Seq::empty()), ..v }
    } else {
        v
    }
}

/// Manages the persistence of the Streams client state.
pub struct ClientDataPersistence {
    options: ClientDataPersistenceOptions,
    vfs_fat_handle: Option<VfsFatHandle>,
    latest_client_data_bytes: Option<Vec<u8>>,
    is_prepared: bool,
}

impl View for ClientDataPersistence {
    type V = PersistenceView;

    closed spec fn view(&self) -> PersistenceView {
        PersistenceView {
            storage: self.options.streams_client_data_storage_type,
            init_state: self.options.client_initialization_state,
            options_latest: opt_bytes(self.options.latest_client_data_bytes),
            options_vfs_fat_path: opt_text(self.options.vfs_fat_path),
            has_call_back: self.options.has_update_client_data_call_back,
            base_path: match self.vfs_fat_handle {
                Some(h) => Some(h.base_path@),
                None => None,
            },
            vfs_managed_by_others: match self.vfs_fat_handle {
                Some(h) => h.is_vfs_managed_by_others,
                None => false,
            },
            latest: opt_bytes(self.latest_client_data_bytes),
            prepared: self.is_prepared,
        }
    }
}

/// The base path of the partition for some options: the application managed path, or the
/// library's own partition.
pub open spec fn base_path_for(vfs_fat_path: Option<Seq<char>>) -> Seq<char> {
    match vfs_fat_path {
        Some(p) => p,
        None => BASE_PATH@,
    }
}

fn clone_bytes(v: &Vec<u8>) -> (r: Vec<u8>)
    ensures
        r@ == v@,
{
    let c = v.clone();
    assert(c@ =~= v@);
    c
}

impl ClientDataPersistence {
    /// Whether the persistence is consistent: a prepared persistence holds a partition.
    pub open spec fn well_formed(&self) -> bool {
        self@.prepared ==> self@.base_path is Some
    }

    /// A persistence for valid options, not yet prepared.
    pub fn new(options: ClientDataPersistenceOptions) -> (r: ClientDataPersistence)
        requires
            options.is_valid(),
        ensures
            r.well_formed(),
            r@.storage == options.streams_client_data_storage_type,
            r@.init_state == options.client_initialization_state,
            r@.options_latest == opt_bytes(options.latest_client_data_bytes),
            r@.options_vfs_fat_path == opt_text(options.vfs_fat_path),
            r@.has_call_back == options.has_update_client_data_call_back,
            r@.base_path is None,
            r@.latest == opt_bytes(options.latest_client_data_bytes),
            !r@.prepared,
    {
        let latest = match &options.latest_client_data_bytes {
            Some(v) => Some(clone_bytes(v)),
            None => None,
        };
        ClientDataPersistence {
            vfs_fat_handle: None,
            latest_client_data_bytes: latest,
            is_prepared: false,
            options,
        }
    }

    /// The partition that preparing will use.
    pub fn vfs_fat_handle_for_prepare(&self) -> (r: VfsFatHandle)
        ensures
            r.base_path@ == base_path_for(self@.options_vfs_fat_path),
            r.is_vfs_managed_by_others == (self@.options_vfs_fat_path is Some),
    {
        let path = match &self.options.vfs_fat_path {
            Some(p) => Some(p.clone()),
            None => None,
        };
        VfsFatHandle::new(path)
    }

    /// Whether preparing needs the content of the state file (file storage only).
    pub fn needs_state_file(&self) -> (r: bool)
        ensures
            r == (self@.storage == StreamsClientDataStorageType::CLIENT_DATA_STORAGE_VFS_FAT),
    {
        self.options.streams_client_data_storage_type == StreamsClientDataStorageType::CLIENT_DATA_STORAGE_VFS_FAT
    }

    /// Prepares the persistence with the mounted partition and, for file storage, the
    /// content of its state file (`None` when there is no such file).
    pub fn prepare(&mut self, vfs_fat_handle: VfsFatHandle, state_file_content: Option<Vec<u8>>)
        ensures
            final(self).well_formed(),
            final(self)@ == prepare_next(
                old(self)@,
                vfs_fat_handle.base_path@,
                vfs_fat_handle.is_vfs_managed_by_others,
                opt_bytes(state_file_content),
            ),
    {
        match self.options.streams_client_data_storage_type {
            StreamsClientDataStorageType::CLIENT_DATA_STORAGE_VFS_FAT => {
                self.latest_client_data_bytes = match state_file_content {
                    Some(d) => Some(d),
                    None => Some(Vec::new()),
                };
            },
            StreamsClientDataStorageType::CLIENT_DATA_STORAGE_CALL_BACK => {
                if self.latest_client_data_bytes.is_none() {
                    self.latest_client_data_bytes = Self::clone_latest_client_data_from_options(&self.options);
                }
            },
        }
        self.vfs_fat_handle = Some(vfs_fat_handle);
        self.is_prepared = true;
        assert(opt_bytes(self.latest_client_data_bytes) =~~= prepared_latest(old(self)@, opt_bytes(state_file_content)));
    }

    /// The client state held by the options: that of an initialized client.
    fn clone_latest_client_data_from_options(options: &ClientDataPersistenceOptions) -> (r: Option<Vec<u8>>)
        ensures
            opt_bytes(r) == (if options.client_initialization_state == StreamsClientInitializationState::CLIENT_INIT_STATE_INITIALIZED {
                opt_bytes(options.latest_client_data_bytes)
            } else {
                None
            }),
    {
        if options.client_initialization_state == StreamsClientInitializationState::CLIENT_INIT_STATE_INITIALIZED {
            match &options.latest_client_data_bytes {
                Some(client_data) => Some(clone_bytes(client_data)),
                None => None,
            }
        } else {
            None
        }
    }

    /// Ends the use of the resources: the persistence is no longer prepared. Returns whether
    /// the caller must unmount the partition (the library's own one).
    pub fn flush_resources(&mut self) -> (r: bool)
        ensures
            final(self).well_formed(),
            final(self)@ == flush_next(old(self)@),
            r == (old(self)@.base_path is Some && !old(self)@.vfs_managed_by_others),
    {
        self.is_prepared = false;
        match &self.vfs_fat_handle {
            Some(h) => !h.is_vfs_managed_by_others,
            None => false,
        }
    }

    /// The base path of the partition in use.
    pub fn get_vfs_fat_base_path(&self) -> (r: Result<String, PersistenceError>)
        ensures
            match self@.base_path {
                Some(p) => r matches Ok(s) && s@ == p,
                None => r == Err::<String, PersistenceError>(PersistenceError::NoVfsFatHandle),
            },
    {
        match &self.vfs_fat_handle {
            Some(h) => Ok(h.base_path.clone()),
            None => Err(PersistenceError::NoVfsFatHandle),
        }
    }

    /// The path of the client state file in the partition in use.
    pub fn get_client_data_file_name(&self) -> (r: Result<String, PersistenceError>)
        ensures
            match self@.base_path {
                Some(p) => r matches Ok(s) && s@ == client_state_file_name(p),
                None => r == Err::<String, PersistenceError>(PersistenceError::NoVfsFatHandle),
            },
    {
        match &self.vfs_fat_handle {
            Some(h) => Ok(compose_client_state_file_name(&h.base_path)),
            None => Err(PersistenceError::NoVfsFatHandle),
        }
    }

    /// Whether a client state exists; `client_data_file_exists` tells whether the state file
    /// exists (only used for file storage).
    pub fn is_client_state_existing(&self, client_data_file_exists: bool) -> (r: bool)
        requires
            self@.prepared,
        ensures
            r == state_exists(self@, client_data_file_exists),
    {
        match self.options.streams_client_data_storage_type {
            StreamsClientDataStorageType::CLIENT_DATA_STORAGE_VFS_FAT => client_data_file_exists,
            StreamsClientDataStorageType::CLIENT_DATA_STORAGE_CALL_BACK => {
                match &self.latest_client_data_bytes {
                    Some(data) => data.len() > 0,
                    None => false,
                }
            },
        }
    }

    /// The latest client state.
    pub fn get_latest_client_state(&self) -> (r: Result<Vec<u8>, PersistenceError>)
        requires
            self@.prepared,
        ensures
            match latest_result(self@) {
                Ok(d) => r matches Ok(v) && v@ == d,
                Err(e) => r == Err::<Vec<u8>, PersistenceError>(e),
            },
    {
        match &self.latest_client_data_bytes {
            Some(client_data) => Ok(clone_bytes(client_data)),
            None => Err(PersistenceError::NoLatestClientData),
        }
    }

    /// Where a new client state has to be stored.
    pub fn client_state_storage(&self) -> (r: Result<ClientStateStorage, PersistenceError>)
        ensures
            match storage_error(self@) {
                Some(e) => r == Err::<ClientStateStorage, PersistenceError>(e),
                None => match self@.storage {
                    StreamsClientDataStorageType::CLIENT_DATA_STORAGE_VFS_FAT => (r matches Ok(ClientStateStorage::File(f)) && f@ == client_state_file_name(self@.base_path->0)),
                    StreamsClientDataStorageType::CLIENT_DATA_STORAGE_CALL_BACK => r == Ok::<ClientStateStorage, PersistenceError>(
                        ClientStateStorage::UpdateCallBack,
                    ),
                },
            },
    {
        match self.options.streams_client_data_storage_type {
            StreamsClientDataStorageType::CLIENT_DATA_STORAGE_VFS_FAT => {
                match &self.vfs_fat_handle {
                    Some(h) => Ok(ClientStateStorage::File(compose_client_state_file_name(&h.base_path))),
                    None => Err(PersistenceError::NoVfsFatHandle),
                }
            },
            StreamsClientDataStorageType::CLIENT_DATA_STORAGE_CALL_BACK => {
                if self.options.has_update_client_data_call_back {
                    Ok(ClientStateStorage::UpdateCallBack)
                } else {
                    Err(PersistenceError::NoUpdateCallBack)
                }
            },
        }
    }

    /// Takes note of a new client state that the caller stored where `client_state_storage`
    /// said; `stored` tells whether the file was written or the callback accepted the data.
    /// Returns the number of bytes stored.
    pub fn persist_new_client_state(&mut self, client_state: Vec<u8>, stored: bool) -> (r: Result<usize, PersistenceError>)
        requires
            old(self)@.prepared,
            old(self).well_formed(),
        ensures
            final(self).well_formed(),
            final(self)@ == persist_next(old(self)@, client_state@, stored),
            match persist_result(old(self)@, client_state@.len(), stored) {
                Ok(n) => r matches Ok(m) && m as nat == n,
                Err(e) => r == Err::<usize, PersistenceError>(e),
            },
    {
        match self.options.streams_client_data_storage_type {
            StreamsClientDataStorageType::CLIENT_DATA_STORAGE_VFS_FAT => {
                if self.vfs_fat_handle.is_none() {
                    return Err(PersistenceError::NoVfsFatHandle);
                }
                if stored {
                    Ok(client_state.len())
                } else {
                    Err(PersistenceError::FileWriteFailed)
                }
            },
            StreamsClientDataStorageType::CLIENT_DATA_STORAGE_CALL_BACK => {
                self.persist_client_state_via_callback(client_state, stored)
            },
        }
    }

    fn persist_client_state_via_callback(&mut self, client_state: Vec<u8>, stored: bool) -> (r: Result<usize, PersistenceError>)
        requires
            old(self)@.storage == StreamsClientDataStorageType::CLIENT_DATA_STORAGE_CALL_BACK,
            old(self).well_formed(),
        ensures
            final(self).well_formed(),
            final(self)@ == persist_next(old(self)@, client_state@, stored),
            match persist_result(old(self)@, client_state@.len(), stored) {
                Ok(n) => r matches Ok(m) && m as nat == n,
                Err(e) => r == Err::<usize, PersistenceError>(e),
            },
    {
        if !self.options.has_update_client_data_call_back {
            return Err(PersistenceError::NoUpdateCallBack);
        }
        if stored {
            let ret_val = client_state.len();
            self.latest_client_data_bytes = Some(client_state);
            Ok(ret_val)
        } else {
            Err(PersistenceError::CallBackRejected)
        }
    }

    /// Clears the client state. For file storage `file_existed` tells whether the state file
    /// was there and `stored` whether the caller removed it; for callback storage `stored`
    /// tells whether the callback accepted the empty state.
    pub fn clear_client_state(&mut self, file_existed: bool, stored: bool) -> (r: Result<(), PersistenceError>)
        requires
            old(self)@.prepared,
            old(self).well_formed(),
        ensures
            final(self).well_formed(),
            final(self)@ == clear_next(old(self)@, file_existed, stored),
            r == clear_result(old(self)@, file_existed, stored),
    {
        match self.options.streams_client_data_storage_type {
            StreamsClientDataStorageType::CLIENT_DATA_STORAGE_VFS_FAT => {
                if self.vfs_fat_handle.is_none() {
                    return Err(PersistenceError::NoVfsFatHandle);
                }
                if file_existed {
                    if stored {
                        self.latest_client_data_bytes = Some(Vec::new());
                        assert(opt_bytes(self.latest_client_data_bytes) =~~= Some(Seq::<u8>::empty()));
                        Ok(())
                    } else {
                        Err(PersistenceError::FileRemoveFailed)
                    }
                } else {
                    Ok(())
                }
            },
            StreamsClientDataStorageType::CLIENT_DATA_STORAGE_CALL_BACK => {
                let cleared_client_state: Vec<u8> = Vec::new();
                let store_bytes_size = self.persist_client_state_via_callback(cleared_client_state, stored)?;
                assert(store_bytes_size == 0);
                assert(opt_bytes(self.latest_client_data_bytes) =~~= Some(Seq::<u8>::empty()));
                Ok(())
            },
        }
    }
}


/// A client state that was stored through the update callback is what the persistence
/// gives back afterwards, and it exists exactly when it is not empty.
pub proof fn lemma_callback_read_after_write(v: PersistenceView, data: Seq<u8>)
    requires
        v.storage == StreamsClientDataStorageType::CLIENT_DATA_STORAGE_CALL_BACK,
        v.has_call_back,
    ensures
        persist_result(v, data.len(), true) == Ok::<nat, PersistenceError>(data.len()),
        latest_result(persist_next(v, data, true)) == Ok::<Seq<u8>, PersistenceError>(data),
        state_exists(persist_next(v, data, true), false) == (data.len() > 0),
{
}

/// A client state that the storage refused leaves the persistence as it was.
pub proof fn lemma_failed_persist_keeps_state(v: PersistenceView, data: Seq<u8>)
    ensures
        persist_next(v, data, false) == v,
        persist_result(v, data.len(), false) is Err,
{
}

/// After a successful clear through the update callback the latest client state is empty
/// and no client state exists any more.
pub proof fn lemma_callback_clear_empties_state(v: PersistenceView, file_existed: bool)
    requires
        v.storage == StreamsClientDataStorageType::CLIENT_DATA_STORAGE_CALL_BACK,
        v.has_call_back,
    ensures
        clear_result(v, file_existed, true) == Ok::<(), PersistenceError>(()),
        latest_result(clear_next(v, file_existed, true)) == Ok::<Seq<u8>, PersistenceError>(Seq::empty()),
        !state_exists(clear_next(v, file_existed, true), file_existed),
{
}

/// For file storage, what was written into the state file is the latest client state once
/// the persistence is prepared again with that file; without a file it is empty.
pub proof fn lemma_file_state_read_back_on_prepare(
    v: PersistenceView,
    base_path: Seq<char>,
    managed_by_others: bool,
    written: Seq<u8>,
)
    requires
        v.storage == StreamsClientDataStorageType::CLIENT_DATA_STORAGE_VFS_FAT,
    ensures
        latest_result(prepare_next(v, base_path, managed_by_others, Some(written)))
            == Ok::<Seq<u8>, PersistenceError>(written),
        latest_result(prepare_next(v, base_path, managed_by_others, None))
            == Ok::<Seq<u8>, PersistenceError>(Seq::empty()),
{
}

/// For callback storage, flushing and preparing again keeps the latest client state that
/// the persistence held.
pub proof fn lemma_callback_state_survives_flush(
    v: PersistenceView,
    base_path: Seq<char>,
    managed_by_others: bool,
    state_file: Option<Seq<u8>>,
)
    requires
        v.storage == StreamsClientDataStorageType::CLIENT_DATA_STORAGE_CALL_BACK,
        v.latest is Some,
    ensures
        prepare_next(flush_next(v), base_path, managed_by_others, state_file).latest == v.latest,
{
}

/// For callback storage, a client state that was stored is still what the persistence
/// gives back after its resources were flushed and it was prepared again.
pub proof fn lemma_callback_state_read_back_after_restart(
    v: PersistenceView,
    data: Seq<u8>,
    base_path: Seq<char>,
    managed_by_others: bool,
    state_file: Option<Seq<u8>>,
)
    requires
        v.storage == StreamsClientDataStorageType::CLIENT_DATA_STORAGE_CALL_BACK,
        v.has_call_back,
    ensures
        latest_result(
            prepare_next(flush_next(persist_next(v, data, true)), base_path, managed_by_others, state_file),
        ) == Ok::<Seq<u8>, PersistenceError>(data),
{
}

/// For file storage a client state exists exactly when the state file exists, whatever
/// the latest state held in memory; for callback storage the state file plays no part.
pub proof fn lemma_file_state_exists_iff_state_file(v: PersistenceView, client_data_file_exists: bool)
    ensures
        v.storage == StreamsClientDataStorageType::CLIENT_DATA_STORAGE_VFS_FAT
            ==> state_exists(v, client_data_file_exists) == client_data_file_exists,
        v.storage == StreamsClientDataStorageType::CLIENT_DATA_STORAGE_CALL_BACK
            ==> state_exists(v, client_data_file_exists) == state_exists(v, !client_data_file_exists),
{
}

/// A fresh file storage prepared without a state file, into which a new state was written:
/// the state exists as soon as the file does, although the latest state in memory is still
/// the empty one read at preparation.
pub proof fn lemma_written_state_file_exists(v: PersistenceView, base_path: Seq<char>, managed_by_others: bool, data: Seq<u8>)
    requires
        v.storage == StreamsClientDataStorageType::CLIENT_DATA_STORAGE_VFS_FAT,
    ensures
        state_exists(persist_next(prepare_next(v, base_path, managed_by_others, None), data, true), true),
        !state_exists(persist_next(prepare_next(v, base_path, managed_by_others, None), data, true), false),
{
}

} // verus!
