//! Safe, verified building blocks of a client for the Lightning Memory-Mapped
//! Database (LMDB): the engine's status codes and their typed errors, the flag
//! sets of environments, databases and writes, database handles, environment
//! configuration and statistics, and the state of a sequential cursor scan.
//!
//! Everything here is plain data and decisions over it. The calls into the
//! engine itself, which hand out raw handles, are made by the code that sits
//! around this crate; it passes the engine's status codes and values in, and
//! takes flag words, plans and typed results back.

mod cursor;
mod database;
mod environment;
mod error;
mod flags;
mod stat;

pub use cursor::{
    scan_op, Scan, ScanStep, MDB_FIRST, MDB_FIRST_DUP, MDB_GET_BOTH, MDB_GET_BOTH_RANGE,
    MDB_GET_CURRENT, MDB_GET_MULTIPLE, MDB_LAST, MDB_LAST_DUP, MDB_NEXT, MDB_NEXT_DUP,
    MDB_NEXT_MULTIPLE, MDB_NEXT_NODUP, MDB_PREV, MDB_PREV_DUP, MDB_PREV_NODUP, MDB_SET,
    MDB_SET_KEY, MDB_SET_RANGE,
};
pub use database::{Database, MDB_dbi};
pub use flags::{
    DatabaseFlags, EnvironmentFlags, WriteFlags, DATABASE_FLAGS_ALL, ENVIRONMENT_FLAGS_ALL,
    MDB_APPEND, MDB_APPENDDUP, MDB_CREATE, MDB_CURRENT, MDB_DUPFIXED, MDB_DUPSORT,
    MDB_FIXEDMAP, MDB_INTEGERDUP, MDB_INTEGERKEY, MDB_MAPASYNC, MDB_NODUPDATA, MDB_NOLOCK,
    MDB_NOMEMINIT, MDB_NOMETASYNC, MDB_NOOVERWRITE, MDB_NORDAHEAD, MDB_NOSUBDIR, MDB_NOSYNC,
    MDB_NOTLS, MDB_RDONLY, MDB_RESERVE, MDB_REVERSEDUP, MDB_REVERSEKEY, MDB_WRITEMAP,
    WRITE_FLAGS_ALL,
};
pub use environment::{open_plan, EnvironmentBuilder, OpenStep};
pub use error::{
    code_of, denotes, is_engine_code, lemma_code_denotes_one_error, lemma_code_round_trip,
    lmdb_result, result_denotes, LmdbError, LmdbResult, MDB_BAD_DBI, MDB_BAD_RSLOT,
    MDB_BAD_TXN, MDB_BAD_VALSIZE, MDB_CORRUPTED, MDB_CURSOR_FULL, MDB_DBS_FULL,
    MDB_INCOMPATIBLE, MDB_INVALID, MDB_KEYEXIST, MDB_LAST_ERRCODE, MDB_MAP_FULL,
    MDB_MAP_RESIZED, MDB_NOTFOUND, MDB_PAGE_FULL, MDB_PAGE_NOTFOUND, MDB_PANIC,
    MDB_READERS_FULL, MDB_SUCCESS, MDB_TLS_FULL, MDB_TXN_FULL, MDB_VERSION_MISMATCH,
};
pub use stat::{MdbStat, Stat};
