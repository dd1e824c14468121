use crate::flags::{DatabaseFlags, MDB_CREATE};
use libc::c_uint;
use vstd::prelude::*;

verus! {

/// The engine's identifier of a database within an environment.
#[allow(non_camel_case_types)]
pub type MDB_dbi = c_uint;

/// A handle to an individual database in an environment.
///
/// A database handle denotes the name and parameters of a database in an environment.
#[derive(Debug, Clone, Copy, PartialEq, Eq, Structural)]
pub struct Database {
    dbi: MDB_dbi,
}

impl View for Database {
    type V = MDB_dbi;

    closed spec fn view(&self) -> MDB_dbi {
        self.dbi
    }
}

impl Database {
    /// The handle for the identifier that the engine gave when the database was opened.
    pub fn new(dbi: MDB_dbi) -> (r: Database)
        ensures
            r@ == dbi,
    {
        Database { dbi }
    }

    /// The option bits with which a database is opened and created where it
    /// is absent: the database's options and `MDB_CREATE`.
    pub fn create_flags(flags: DatabaseFlags) -> (r: c_uint)
        ensures
            r == flags@ | MDB_CREATE,
    {
        flags.bits() | MDB_CREATE
    }

    /// Returns the underlying LMDB database handle.
    ///
    /// The caller **must** ensure that the handle is not used after the lifetime of the
    /// environment, or after the database handle has been closed.
    pub fn dbi(&self) -> (r: MDB_dbi)
        ensures
            r == self@,
    {
        self.dbi
    }
}

} // verus!
