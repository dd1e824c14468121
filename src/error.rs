use libc::c_int;
use vstd::prelude::*;

verus! {

/// Successful result.
pub const MDB_SUCCESS: c_int = 0;

/// key/data pair already exists.
pub const MDB_KEYEXIST: c_int = -30799;

/// key/data pair not found (EOF).
pub const MDB_NOTFOUND: c_int = -30798;

/// Requested page not found - this usually indicates corruption.
pub const MDB_PAGE_NOTFOUND: c_int = -30797;

/// Located page was wrong type.
pub const MDB_CORRUPTED: c_int = -30796;

/// Update of meta page failed or environment had fatal error.
pub const MDB_PANIC: c_int = -30795;

/// Environment version mismatch.
pub const MDB_VERSION_MISMATCH: c_int = -30794;

/// File is not a valid LMDB file.
pub const MDB_INVALID: c_int = -30793;

/// Environment mapsize reached.
pub const MDB_MAP_FULL: c_int = -30792;

/// Environment maxdbs reached.
pub const MDB_DBS_FULL: c_int = -30791;

/// Environment maxreaders reached.
pub const MDB_READERS_FULL: c_int = -30790;

/// Too many TLS keys in use - Windows only.
pub const MDB_TLS_FULL: c_int = -30789;

/// Txn has too many dirty pages.
pub const MDB_TXN_FULL: c_int = -30788;

/// Cursor stack too deep - internal error.
pub const MDB_CURSOR_FULL: c_int = -30787;

/// Page has not enough space - internal error.
pub const MDB_PAGE_FULL: c_int = -30786;

/// Database contents grew beyond environment mapsize.
pub const MDB_MAP_RESIZED: c_int = -30785;

/// Operation and DB incompatible, or DB flags changed.
pub const MDB_INCOMPATIBLE: c_int = -30784;

/// Invalid reuse of reader locktable slot.
pub const MDB_BAD_RSLOT: c_int = -30783;

/// Transaction cannot recover - it must be aborted.
pub const MDB_BAD_TXN: c_int = -30782;

/// Unsupported size of key/DB name/data, or wrong DUP_FIXED size.
pub const MDB_BAD_VALSIZE: c_int = -30781;

/// The specified DBI was changed unexpectedly.
pub const MDB_BAD_DBI: c_int = -30780;

/// The last of the engine's own status codes.
pub const MDB_LAST_ERRCODE: c_int = MDB_BAD_DBI;

/// A failure reported by the engine: one of its own conditions, or any other
/// status code (an operating system error number, most often) carried as is.
#[derive(Debug, Clone, Copy, PartialEq, Eq, Structural)]
pub enum LmdbError {
    /// key/data pair already exists.
    KeyExist,
    /// key/data pair not found (EOF).
    NotFound,
    /// Requested page not found - this usually indicates corruption.
    PageNotFound,
    /// Located page was wrong type.
    Corrupted,
    /// Update of meta page failed or environment had fatal error.
    Panic,
    /// Environment version mismatch.
    VersionMismatch,
    /// File is not a valid LMDB file.
    Invalid,
    /// Environment mapsize reached.
    MapFull,
    /// Environment maxdbs reached.
    DbsFull,
    /// Environment maxreaders reached.
    ReadersFull,
    /// Too many TLS keys in use - Windows only.
    TlsFull,
    /// Txn has too many dirty pages.
    TxnFull,
    /// Cursor stack too deep - internal error.
    CursorFull,
    /// Page has not enough space - internal error.
    PageFull,
    /// Database contents grew beyond environment mapsize.
    MapResized,
    /// Operation and DB incompatible, or DB flags changed.
    Incompatible,
    /// Invalid reuse of reader locktable slot.
    BadRslot,
    /// Transaction cannot recover - it must be aborted.
    BadTxn,
    /// Unsupported size of key/DB name/data, or wrong DUP_FIXED size.
    BadValSize,
    /// The specified DBI was changed unexpectedly.
    BadDbi,
    /// Any other status code, such as an operating system error number.
    Other(c_int),
}

/// The result of an operation that may fail with an engine error.
pub type LmdbResult<T> = Result<T, LmdbError>;

/// Whether `code` is one of the engine's own status codes, which form the
/// contiguous range from `MDB_KEYEXIST` to `MDB_LAST_ERRCODE`.
pub open spec fn is_engine_code(code: c_int) -> bool {
    MDB_KEYEXIST <= code <= MDB_LAST_ERRCODE
}

/// The status code that stands for an error.
pub open spec fn code_of(e: LmdbError) -> c_int {
    match e {
        LmdbError::KeyExist => MDB_KEYEXIST,
        LmdbError::NotFound => MDB_NOTFOUND,
        LmdbError::PageNotFound => MDB_PAGE_NOTFOUND,
        LmdbError::Corrupted => MDB_CORRUPTED,
        LmdbError::Panic => MDB_PANIC,
        LmdbError::VersionMismatch => MDB_VERSION_MISMATCH,
        LmdbError::Invalid => MDB_INVALID,
        LmdbError::MapFull => MDB_MAP_FULL,
        LmdbError::DbsFull => MDB_DBS_FULL,
        LmdbError::ReadersFull => MDB_READERS_FULL,
        LmdbError::TlsFull => MDB_TLS_FULL,
        LmdbError::TxnFull => MDB_TXN_FULL,
        LmdbError::CursorFull => MDB_CURSOR_FULL,
        LmdbError::PageFull => MDB_PAGE_FULL,
        LmdbError::MapResized => MDB_MAP_RESIZED,
        LmdbError::Incompatible => MDB_INCOMPATIBLE,
        LmdbError::BadRslot => MDB_BAD_RSLOT,
        LmdbError::BadTxn => MDB_BAD_TXN,
        LmdbError::BadValSize => MDB_BAD_VALSIZE,
        LmdbError::BadDbi => MDB_BAD_DBI,
        LmdbError::Other(code) => code,
    }
}

/// `e` is the error that the status code `code` denotes: its code is `code`,
/// and it is the catch-all variant only for codes that are not the engine's.
pub open spec fn denotes(e: LmdbError, code: c_int) -> bool {
    &&& code_of(e) == code
    &&& (e is Other ==> !is_engine_code(code))
}

/// The typed outcome that a status code denotes: success for `MDB_SUCCESS`,
/// otherwise the error that the code denotes.
pub open spec fn result_denotes(r: LmdbResult<()>, code: c_int) -> bool {
    match r {
        Ok(_) => code == MDB_SUCCESS,
        Err(e) => code != MDB_SUCCESS && denotes(e, code),
    }
}

impl LmdbError {
    /// Converts a status code into the error that it denotes.
    pub fn from_err_code(err_code: c_int) -> (r: LmdbError)
        ensures
            denotes(r, err_code),
    {
        match err_code {
            MDB_KEYEXIST => LmdbError::KeyExist,
            MDB_NOTFOUND => LmdbError::NotFound,
            MDB_PAGE_NOTFOUND => LmdbError::PageNotFound,
            MDB_CORRUPTED => LmdbError::Corrupted,
            MDB_PANIC => LmdbError::Panic,
            MDB_VERSION_MISMATCH => LmdbError::VersionMismatch,
            MDB_INVALID => LmdbError::Invalid,
            MDB_MAP_FULL => LmdbError::MapFull,
            MDB_DBS_FULL => LmdbError::DbsFull,
            MDB_READERS_FULL => LmdbError::ReadersFull,
            MDB_TLS_FULL => LmdbError::TlsFull,
            MDB_TXN_FULL => LmdbError::TxnFull,
            MDB_CURSOR_FULL => LmdbError::CursorFull,
            MDB_PAGE_FULL => LmdbError::PageFull,
            MDB_MAP_RESIZED => LmdbError::MapResized,
            MDB_INCOMPATIBLE => LmdbError::Incompatible,
            MDB_BAD_RSLOT => LmdbError::BadRslot,
            MDB_BAD_TXN => LmdbError::BadTxn,
            MDB_BAD_VALSIZE => LmdbError::BadValSize,
            MDB_BAD_DBI => LmdbError::BadDbi,
            other => LmdbError::Other(other),
        }
    }

    /// Converts the error back into its status code.
    pub fn to_err_code(&self) -> (r: c_int)
        ensures
            r == code_of(*self),
    {
        match *self {
            LmdbError::KeyExist => MDB_KEYEXIST,
            LmdbError::NotFound => MDB_NOTFOUND,
            LmdbError::PageNotFound => MDB_PAGE_NOTFOUND,
            LmdbError::Corrupted => MDB_CORRUPTED,
            LmdbError::Panic => MDB_PANIC,
            LmdbError::VersionMismatch => MDB_VERSION_MISMATCH,
            LmdbError::Invalid => MDB_INVALID,
            LmdbError::MapFull => MDB_MAP_FULL,
            LmdbError::DbsFull => MDB_DBS_FULL,
            LmdbError::ReadersFull => MDB_READERS_FULL,
            LmdbError::TlsFull => MDB_TLS_FULL,
            LmdbError::TxnFull => MDB_TXN_FULL,
            LmdbError::CursorFull => MDB_CURSOR_FULL,
            LmdbError::PageFull => MDB_PAGE_FULL,
            LmdbError::MapResized => MDB_MAP_RESIZED,
            LmdbError::Incompatible => MDB_INCOMPATIBLE,
            LmdbError::BadRslot => MDB_BAD_RSLOT,
            LmdbError::BadTxn => MDB_BAD_TXN,
            LmdbError::BadValSize => MDB_BAD_VALSIZE,
            LmdbError::BadDbi => MDB_BAD_DBI,
            LmdbError::Other(err_code) => err_code,
        }
    }
}

/// Converts a status code into a result: `Ok` for `MDB_SUCCESS`, otherwise
/// the error that the code denotes.
pub fn lmdb_result(err_code: c_int) -> (r: LmdbResult<()>)
    ensures
        result_denotes(r, err_code),
{
    if err_code == MDB_SUCCESS {
        Ok(())
    } else {
        Err(LmdbError::from_err_code(err_code))
    }
}

/// A status code denotes exactly one error.
pub proof fn lemma_code_denotes_one_error(e1: LmdbError, e2: LmdbError, code: c_int)
    requires
        denotes(e1, code),
        denotes(e2, code),
    ensures
        e1 == e2,
{
}

/// Every error but a catch-all that holds one of the engine's own codes is the
/// error that its own code denotes: converting it to its code and back gives
/// it again.
pub proof fn lemma_code_round_trip(e: LmdbError)
    requires
        !(e is Other && is_engine_code(code_of(e))),
    ensures
        denotes(e, code_of(e)),
{
}

} // verus!
