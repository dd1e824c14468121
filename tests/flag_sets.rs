use lmdb::{
    Database, DatabaseFlags, EnvironmentFlags, WriteFlags, DATABASE_FLAGS_ALL,
    ENVIRONMENT_FLAGS_ALL, MDB_APPEND, MDB_APPENDDUP, MDB_CREATE, MDB_CURRENT, MDB_DUPFIXED,
    MDB_DUPSORT, MDB_FIXEDMAP, MDB_INTEGERDUP, MDB_INTEGERKEY, MDB_MAPASYNC, MDB_NODUPDATA,
    MDB_NOLOCK, MDB_NOMEMINIT, MDB_NOMETASYNC, MDB_NOOVERWRITE, MDB_NORDAHEAD, MDB_NOSUBDIR,
    MDB_NOSYNC, MDB_NOTLS, MDB_RDONLY, MDB_RESERVE, MDB_REVERSEDUP, MDB_REVERSEKEY,
    MDB_WRITEMAP, WRITE_FLAGS_ALL,
};

#[test]
fn all_sets_are_the_unions_of_their_options() {
    assert_eq!(
        ENVIRONMENT_FLAGS_ALL,
        MDB_FIXEDMAP | MDB_NOSUBDIR | MDB_NOSYNC | MDB_RDONLY | MDB_NOMETASYNC | MDB_WRITEMAP
            | MDB_MAPASYNC | MDB_NOTLS | MDB_NOLOCK | MDB_NORDAHEAD | MDB_NOMEMINIT
    );
    assert_eq!(
        DATABASE_FLAGS_ALL,
        MDB_REVERSEKEY | MDB_DUPSORT | MDB_INTEGERKEY | MDB_DUPFIXED | MDB_INTEGERDUP
            | MDB_REVERSEDUP
    );
    assert_eq!(
        WRITE_FLAGS_ALL,
        MDB_NOOVERWRITE | MDB_NODUPDATA | MDB_CURRENT | MDB_APPEND | MDB_APPENDDUP
    );
    assert_eq!(EnvironmentFlags::all().bits(), ENVIRONMENT_FLAGS_ALL);
    assert_eq!(DatabaseFlags::all().bits(), DATABASE_FLAGS_ALL);
    assert_eq!(WriteFlags::all().bits(), WRITE_FLAGS_ALL);
}

#[test]
fn empty_sets_have_no_bits() {
    assert_eq!(EnvironmentFlags::empty().bits(), 0);
    assert_eq!(DatabaseFlags::empty().bits(), 0);
    assert_eq!(WriteFlags::empty().bits(), 0);
}

#[test]
fn from_bits_refuses_unknown_bits() {
    assert_eq!(
        EnvironmentFlags::from_bits(MDB_RDONLY | MDB_NOTLS).map(|f| f.bits()),
        Some(MDB_RDONLY | MDB_NOTLS)
    );
    assert_eq!(EnvironmentFlags::from_bits(0x2), None);
    assert_eq!(
        DatabaseFlags::from_bits(MDB_DUPSORT | MDB_DUPFIXED).map(|f| f.bits()),
        Some(0x14)
    );
    assert_eq!(DatabaseFlags::from_bits(MDB_CREATE), None);
    assert_eq!(DatabaseFlags::from_bits(0x1), None);
    assert_eq!(WriteFlags::from_bits(MDB_RESERVE), None);
    assert_eq!(WriteFlags::from_bits(MDB_NOOVERWRITE).map(|f| f.bits()), Some(0x10));
}

#[test]
fn from_bits_truncate_drops_unknown_bits() {
    assert_eq!(DatabaseFlags::from_bits_truncate(MDB_DUPSORT | MDB_CREATE | 0x1).bits(), MDB_DUPSORT);
    assert_eq!(EnvironmentFlags::from_bits_truncate(u32::MAX).bits(), ENVIRONMENT_FLAGS_ALL);
    assert_eq!(WriteFlags::from_bits_truncate(MDB_RESERVE | MDB_APPEND).bits(), MDB_APPEND);
}

#[test]
fn contains_and_union() {
    let dup_sort = DatabaseFlags::from_bits_truncate(MDB_DUPSORT);
    let dup_fixed = DatabaseFlags::from_bits_truncate(MDB_DUPFIXED);
    let both = dup_sort.union(dup_fixed);
    assert_eq!(both.bits(), MDB_DUPSORT | MDB_DUPFIXED);
    assert!(both.contains(dup_sort));
    assert!(both.contains(dup_fixed));
    assert!(!dup_sort.contains(both));
    assert!(dup_sort.contains(DatabaseFlags::empty()));
    let ro = EnvironmentFlags::from_bits_truncate(MDB_RDONLY);
    assert!(!EnvironmentFlags::empty().contains(ro));
    assert!(EnvironmentFlags::all().contains(ro));
    let w = WriteFlags::from_bits_truncate(MDB_NOOVERWRITE).union(WriteFlags::from_bits_truncate(MDB_NODUPDATA));
    assert_eq!(w.bits(), 0x30);
}

#[test]
fn create_adds_the_create_bit() {
    let flags = DatabaseFlags::from_bits_truncate(MDB_DUPSORT | MDB_DUPFIXED);
    assert_eq!(Database::create_flags(flags), 0x40014);
    assert_eq!(Database::create_flags(DatabaseFlags::empty()), MDB_CREATE);
}

#[test]
fn reserve_adds_the_reserve_bit() {
    assert_eq!(WriteFlags::empty().reserve_bits(), MDB_RESERVE);
    assert_eq!(WriteFlags::from_bits_truncate(MDB_NOOVERWRITE).reserve_bits(), 0x10010);
}

#[test]
fn database_handle_keeps_its_identifier() {
    let db = Database::new(7);
    assert_eq!(db.dbi(), 7);
    let copy = db;
    assert_eq!(copy, Database::new(7));
    assert_ne!(db, Database::new(8));
}
