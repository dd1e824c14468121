use lmdb::{
    lmdb_result, LmdbError, MDB_BAD_DBI, MDB_BAD_RSLOT, MDB_BAD_TXN, MDB_BAD_VALSIZE,
    MDB_CORRUPTED, MDB_CURSOR_FULL, MDB_DBS_FULL, MDB_INCOMPATIBLE, MDB_INVALID, MDB_KEYEXIST,
    MDB_LAST_ERRCODE, MDB_MAP_FULL, MDB_MAP_RESIZED, MDB_NOTFOUND, MDB_PAGE_FULL,
    MDB_PAGE_NOTFOUND, MDB_PANIC, MDB_READERS_FULL, MDB_SUCCESS, MDB_TLS_FULL, MDB_TXN_FULL,
    MDB_VERSION_MISMATCH,
};

fn table() -> Vec<(i32, LmdbError)> {
    vec![
        (MDB_KEYEXIST, LmdbError::KeyExist),
        (MDB_NOTFOUND, LmdbError::NotFound),
        (MDB_PAGE_NOTFOUND, LmdbError::PageNotFound),
        (MDB_CORRUPTED, LmdbError::Corrupted),
        (MDB_PANIC, LmdbError::Panic),
        (MDB_VERSION_MISMATCH, LmdbError::VersionMismatch),
        (MDB_INVALID, LmdbError::Invalid),
        (MDB_MAP_FULL, LmdbError::MapFull),
        (MDB_DBS_FULL, LmdbError::DbsFull),
        (MDB_READERS_FULL, LmdbError::ReadersFull),
        (MDB_TLS_FULL, LmdbError::TlsFull),
        (MDB_TXN_FULL, LmdbError::TxnFull),
        (MDB_CURSOR_FULL, LmdbError::CursorFull),
        (MDB_PAGE_FULL, LmdbError::PageFull),
        (MDB_MAP_RESIZED, LmdbError::MapResized),
        (MDB_INCOMPATIBLE, LmdbError::Incompatible),
        (MDB_BAD_RSLOT, LmdbError::BadRslot),
        (MDB_BAD_TXN, LmdbError::BadTxn),
        (MDB_BAD_VALSIZE, LmdbError::BadValSize),
        (MDB_BAD_DBI, LmdbError::BadDbi),
    ]
}

#[test]
fn engine_codes_have_their_own_errors() {
    let t = table();
    assert_eq!(t.len(), 20);
    for (code, err) in t {
        assert_eq!(LmdbError::from_err_code(code), err);
        assert_eq!(err.to_err_code(), code);
    }
}

#[test]
fn engine_code_values() {
    assert_eq!(MDB_KEYEXIST, -30799);
    assert_eq!(MDB_NOTFOUND, -30798);
    assert_eq!(MDB_BAD_DBI, -30780);
    assert_eq!(MDB_LAST_ERRCODE, MDB_BAD_DBI);
}

#[test]
fn other_codes_are_carried_as_is() {
    assert_eq!(LmdbError::from_err_code(13), LmdbError::Other(13));
    assert_eq!(LmdbError::from_err_code(13).to_err_code(), 13);
    assert_eq!(LmdbError::from_err_code(-30800), LmdbError::Other(-30800));
    assert_eq!(LmdbError::from_err_code(-30779), LmdbError::Other(-30779));
    assert_eq!(LmdbError::from_err_code(0), LmdbError::Other(0));
}

#[test]
fn code_round_trip_for_many_codes() {
    let mut code: i32 = -31000;
    while code <= 200 {
        assert_eq!(LmdbError::from_err_code(code).to_err_code(), code);
        code += 1;
    }
}

#[test]
fn catch_all_holding_an_engine_code_comes_back_as_that_condition() {
    let e = LmdbError::Other(MDB_NOTFOUND);
    assert_eq!(LmdbError::from_err_code(e.to_err_code()), LmdbError::NotFound);
}

#[test]
fn result_of_success_and_failures() {
    assert_eq!(lmdb_result(MDB_SUCCESS), Ok(()));
    assert_eq!(lmdb_result(MDB_NOTFOUND), Err(LmdbError::NotFound));
    assert_eq!(lmdb_result(MDB_KEYEXIST), Err(LmdbError::KeyExist));
    assert_eq!(lmdb_result(MDB_MAP_FULL), Err(LmdbError::MapFull));
    assert_eq!(lmdb_result(28), Err(LmdbError::Other(28)));
}
