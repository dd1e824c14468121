use libc::c_uint;
use vstd::prelude::*;

verus! {

/// Environment option: use a fixed address for the memory map.
pub const MDB_FIXEDMAP: c_uint = 0x01;

/// Environment option: the path names the data file itself, not a directory.
pub const MDB_NOSUBDIR: c_uint = 0x4000;

/// Environment option: do not flush system buffers to disk on commit.
pub const MDB_NOSYNC: c_uint = 0x10000;

/// Environment and transaction option: read-only.
pub const MDB_RDONLY: c_uint = 0x20000;

/// Environment option: flush system buffers on commit, but omit the metadata flush.
pub const MDB_NOMETASYNC: c_uint = 0x40000;

/// Environment option: use a writeable memory map.
pub const MDB_WRITEMAP: c_uint = 0x80000;

/// Environment option: flush asynchronously when a writeable memory map is used.
pub const MDB_MAPASYNC: c_uint = 0x100000;

/// Environment option: tie reader slots to transactions instead of threads.
pub const MDB_NOTLS: c_uint = 0x200000;

/// Environment option: do no locking at all.
pub const MDB_NOLOCK: c_uint = 0x400000;

/// Environment option: turn off readahead.
pub const MDB_NORDAHEAD: c_uint = 0x800000;

/// Environment option: do not zero fresh memory before it is written to the file.
pub const MDB_NOMEMINIT: c_uint = 0x1000000;

/// Every environment option.
pub const ENVIRONMENT_FLAGS_ALL: c_uint = 0x1ff4001;

/// Database option: keys are compared from their end to their beginning.
pub const MDB_REVERSEKEY: c_uint = 0x02;

/// Database option: a key may have several sorted data items.
pub const MDB_DUPSORT: c_uint = 0x04;

/// Database option: keys are binary integers in native byte order.
pub const MDB_INTEGERKEY: c_uint = 0x08;

/// Database option: the duplicate data items of a key all have one size.
pub const MDB_DUPFIXED: c_uint = 0x10;

/// Database option: duplicate data items are binary integers.
pub const MDB_INTEGERDUP: c_uint = 0x20;

/// Database option: duplicate data items are compared from their end.
pub const MDB_REVERSEDUP: c_uint = 0x40;

/// Every database option.
pub const DATABASE_FLAGS_ALL: c_uint = 0x7e;

/// Database opening option: create the database if it does not exist.
pub const MDB_CREATE: c_uint = 0x40000;

/// Write option: store the pair only if the key is not present yet.
pub const MDB_NOOVERWRITE: c_uint = 0x10;

/// Write option: store the pair only if that exact pair is not present yet.
pub const MDB_NODUPDATA: c_uint = 0x20;

/// Write option: replace the item at the cursor's position.
pub const MDB_CURRENT: c_uint = 0x40;

/// Write option: append at the end of the database, without comparing keys.
pub const MDB_APPEND: c_uint = 0x20000;

/// Write option: append a duplicate at the end of the key's items.
pub const MDB_APPENDDUP: c_uint = 0x40000;

/// Every write option.
pub const WRITE_FLAGS_ALL: c_uint = 0x60070;

/// Write option used by `reserve`: make room for the data and hand it back
/// instead of copying it.
pub const MDB_RESERVE: c_uint = 0x10000;

/// A set of options for opening an environment.
#[derive(Debug, Clone, Copy, PartialEq, Eq, Structural)]
pub struct EnvironmentFlags {
    bits: c_uint,
}

/// A set of options of a database.
#[derive(Debug, Clone, Copy, PartialEq, Eq, Structural)]
pub struct DatabaseFlags {
    bits: c_uint,
}

/// A set of options for a write.
#[derive(Debug, Clone, Copy, PartialEq, Eq, Structural)]
pub struct WriteFlags {
    bits: c_uint,
}

impl View for EnvironmentFlags {
    type V = c_uint;

    closed spec fn view(&self) -> c_uint {
        self.bits
    }
}

impl View for DatabaseFlags {
    type V = c_uint;

    closed spec fn view(&self) -> c_uint {
        self.bits
    }
}

impl View for WriteFlags {
    type V = c_uint;

    closed spec fn view(&self) -> c_uint {
        self.bits
    }
}

impl EnvironmentFlags {
    /// A set holds environment options only.
    #[verifier::type_invariant]
    spec fn known_bits_only(&self) -> bool {
        self.bits & !ENVIRONMENT_FLAGS_ALL == 0
    }

    /// The empty set.
    pub fn empty() -> (r: EnvironmentFlags)
        ensures
            r@ == 0,
    {
        assert(0u32 & !0x1ff4001u32 == 0) by (bit_vector);
        EnvironmentFlags { bits: 0 }
    }

    /// The set of every environment option.
    pub fn all() -> (r: EnvironmentFlags)
        ensures
            r@ == ENVIRONMENT_FLAGS_ALL,
    {
        assert(0x1ff4001u32 & !0x1ff4001u32 == 0) by (bit_vector);
        EnvironmentFlags { bits: ENVIRONMENT_FLAGS_ALL }
    }

    /// The bits of the set, which are environment options only.
    pub fn bits(&self) -> (r: c_uint)
        ensures
            r == self@,
            r & !ENVIRONMENT_FLAGS_ALL == 0,
    {
        proof {
            use_type_invariant(self);
        }
        self.bits
    }

    /// The set with exactly the given bits, or `None` where a bit is not an
    /// environment option.
    pub fn from_bits(bits: c_uint) -> (r: Option<EnvironmentFlags>)
        ensures
            bits & !ENVIRONMENT_FLAGS_ALL == 0 <==> r is Some,
            r is Some ==> r->Some_0@ == bits,
    {
        if bits & !ENVIRONMENT_FLAGS_ALL == 0 {
            Some(EnvironmentFlags { bits })
        } else {
            None
        }
    }

    /// The set of the environment options among the given bits.
    pub fn from_bits_truncate(bits: c_uint) -> (r: EnvironmentFlags)
        ensures
            r@ == bits & ENVIRONMENT_FLAGS_ALL,
    {
        assert((bits & 0x1ff4001u32) & !0x1ff4001u32 == 0) by (bit_vector);
        EnvironmentFlags { bits: bits & ENVIRONMENT_FLAGS_ALL }
    }

    /// Whether every option of `other` is in the set.
    pub fn contains(&self, other: EnvironmentFlags) -> (r: bool)
        ensures
            r == (self@ & other@ == other@),
    {
        self.bits & other.bits == other.bits
    }

    /// The options that are in either set.
    pub fn union(&self, other: EnvironmentFlags) -> (r: EnvironmentFlags)
        ensures
            r@ == self@ | other@,
    {
        proof {
            use_type_invariant(self);
            use_type_invariant(other);
        }
        let a = self.bits;
        let b = other.bits;
        assert((a | b) & !0x1ff4001u32 == 0) by (bit_vector)
            requires
                a & !0x1ff4001u32 == 0,
                b & !0x1ff4001u32 == 0,
        ;
        EnvironmentFlags { bits: a | b }
    }
}

impl DatabaseFlags {
    /// A set holds database options only.
    #[verifier::type_invariant]
    spec fn known_bits_only(&self) -> bool {
        self.bits & !DATABASE_FLAGS_ALL == 0
    }

    /// The empty set.
    pub fn empty() -> (r: DatabaseFlags)
        ensures
            r@ == 0,
    {
        assert(0u32 & !0x7eu32 == 0) by (bit_vector);
        DatabaseFlags { bits: 0 }
    }

    /// The set of every database option.
    pub fn all() -> (r: DatabaseFlags)
        ensures
            r@ == DATABASE_FLAGS_ALL,
    {
        assert(0x7eu32 & !0x7eu32 == 0) by (bit_vector);
        DatabaseFlags { bits: DATABASE_FLAGS_ALL }
    }

    /// The bits of the set, which are database options only.
    pub fn bits(&self) -> (r: c_uint)
        ensures
            r == self@,
            r & !DATABASE_FLAGS_ALL == 0,
    {
        proof {
            use_type_invariant(self);
        }
        self.bits
    }

    /// The set with exactly the given bits, or `None` where a bit is not an
    /// database option.
    pub fn from_bits(bits: c_uint) -> (r: Option<DatabaseFlags>)
        ensures
            bits & !DATABASE_FLAGS_ALL == 0 <==> r is Some,
            r is Some ==> r->Some_0@ == bits,
    {
        if bits & !DATABASE_FLAGS_ALL == 0 {
            Some(DatabaseFlags { bits })
        } else {
            None
        }
    }

    /// The set of the database options among the given bits.
    pub fn from_bits_truncate(bits: c_uint) -> (r: DatabaseFlags)
        ensures
            r@ == bits & DATABASE_FLAGS_ALL,
    {
        assert((bits & 0x7eu32) & !0x7eu32 == 0) by (bit_vector);
        DatabaseFlags { bits: bits & DATABASE_FLAGS_ALL }
    }

    /// Whether every option of `other` is in the set.
    pub fn contains(&self, other: DatabaseFlags) -> (r: bool)
        ensures
            r == (self@ & other@ == other@),
    {
        self.bits & other.bits == other.bits
    }

    /// The options that are in either set.
    pub fn union(&self, other: DatabaseFlags) -> (r: DatabaseFlags)
        ensures
            r@ == self@ | other@,
    {
        proof {
            use_type_invariant(self);
            use_type_invariant(other);
        }
        let a = self.bits;
        let b = other.bits;
        assert((a | b) & !0x7eu32 == 0) by (bit_vector)
            requires
                a & !0x7eu32 == 0,
                b & !0x7eu32 == 0,
        ;
        DatabaseFlags { bits: a | b }
    }
}

impl WriteFlags {
    /// A set holds write options only.
    #[verifier::type_invariant]
    spec fn known_bits_only(&self) -> bool {
        self.bits & !WRITE_FLAGS_ALL == 0
    }

    /// The empty set.
    pub fn empty() -> (r: WriteFlags)
        ensures
            r@ == 0,
    {
        assert(0u32 & !0x60070u32 == 0) by (bit_vector);
        WriteFlags { bits: 0 }
    }

    /// The set of every write option.
    pub fn all() -> (r: WriteFlags)
        ensures
            r@ == WRITE_FLAGS_ALL,
    {
        assert(0x60070u32 & !0x60070u32 == 0) by (bit_vector);
        WriteFlags { bits: WRITE_FLAGS_ALL }
    }

    /// The bits of the set, which are write options only.
    pub fn bits(&self) -> (r: c_uint)
        ensures
            r == self@,
            r & !WRITE_FLAGS_ALL == 0,
    {
        proof {
            use_type_invariant(self);
        }
        self.bits
    }

    /// The set with exactly the given bits, or `None` where a bit is not an
    /// write option.
    pub fn from_bits(bits: c_uint) -> (r: Option<WriteFlags>)
        ensures
            bits & !WRITE_FLAGS_ALL == 0 <==> r is Some,
            r is Some ==> r->Some_0@ == bits,
    {
        if bits & !WRITE_FLAGS_ALL == 0 {
            Some(WriteFlags { bits })
        } else {
            None
        }
    }

    /// The set of the write options among the given bits.
    pub fn from_bits_truncate(bits: c_uint) -> (r: WriteFlags)
        ensures
            r@ == bits & WRITE_FLAGS_ALL,
    {
        assert((bits & 0x60070u32) & !0x60070u32 == 0) by (bit_vector);
        WriteFlags { bits: bits & WRITE_FLAGS_ALL }
    }

    /// Whether every option of `other` is in the set.
    pub fn contains(&self, other: WriteFlags) -> (r: bool)
        ensures
            r == (self@ & other@ == other@),
    {
        self.bits & other.bits == other.bits
    }

    /// The options that are in either set.
    pub fn union(&self, other: WriteFlags) -> (r: WriteFlags)
        ensures
            r@ == self@ | other@,
    {
        proof {
            use_type_invariant(self);
            use_type_invariant(other);
        }
        let a = self.bits;
        let b = other.bits;
        assert((a | b) & !0x60070u32 == 0) by (bit_vector)
            requires
                a & !0x60070u32 == 0,
                b & !0x60070u32 == 0,
        ;
        WriteFlags { bits: a | b }
    }
}

impl WriteFlags {
    /// The option bits of a write that reserves room for its data instead
    /// of copying it: these options and `MDB_RESERVE`.
    pub fn reserve_bits(&self) -> (r: c_uint)
        ensures
            r == self@ | MDB_RESERVE,
    {
        self.bits | MDB_RESERVE
    }
}

} // verus!
