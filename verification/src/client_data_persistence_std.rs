//! The persistence of the Streams client state used on a desktop: one file, whose path
//! is fixed when the persistence is created.
use vstd::prelude::*;
use std::rc::Rc;

verus! {

/// The client state is kept in the file at `file_name`.
pub struct ClientDataPersistenceStd {
    file_name: String,
}

impl View for ClientDataPersistenceStd {
    type V = Seq<char>;

    /// The path of the state file.
    closed spec fn view(&self) -> Seq<char> {
        self.file_name@
    }
}

impl ClientDataPersistenceStd {
    /// A persistence that keeps the client state in the file `file_name`.
    pub fn new(file_name: &str) -> (r: ClientDataPersistenceStd)
        ensures
            r@ == file_name@,
    {
        ClientDataPersistenceStd { file_name: file_name.to_string() }
    }

    /// A persistence for the file `file_name` that is ready to be shared; it needs no
    /// further preparation.
    pub fn new_prepared(file_name: &str) -> (r: Rc<ClientDataPersistenceStd>)
        ensures
            (*r)@ == file_name@,
    {
        Rc::new(ClientDataPersistenceStd::new(file_name))
    }

    /// The path of the state file.
    pub fn get_file_name(&self) -> (r: String)
        ensures
            r@ == self@,
    {
        self.file_name.clone()
    }
}

} // verus!
