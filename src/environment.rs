use crate::flags::EnvironmentFlags;
use libc::{c_uint, size_t};
use vstd::prelude::*;

verus! {

/// One call into the engine made while an environment is opened, after the
/// engine's environment object has been created.
#[derive(Debug, Clone, Copy, PartialEq, Eq, Structural)]
pub enum OpenStep {
    /// Set the maximum number of reader slots.
    SetMaxReaders(c_uint),
    /// Set the maximum number of named databases.
    SetMaxDbs(c_uint),
    /// Set the size of the memory map.
    SetMapSize(size_t),
    /// Open the environment at the path, with these option bits.
    Open(c_uint),
}

/// Options for opening or creating an environment.
///
/// A setting left unset keeps the engine's default.
#[derive(Debug, Clone, Copy, PartialEq, Eq, Structural)]
pub struct EnvironmentBuilder {
    pub flags: EnvironmentFlags,
    pub max_readers: Option<c_uint>,
    pub max_dbs: Option<c_uint>,
    pub map_size: Option<size_t>,
}

/// The calls into the engine that open an environment configured as `b`: the
/// settings that were made, in the order readers, databases, map size, and
/// then the opening itself with the builder's options.
pub open spec fn open_plan(b: EnvironmentBuilder) -> Seq<OpenStep> {
    let readers = match b.max_readers {
        Some(n) => seq![OpenStep::SetMaxReaders(n)],
        None => Seq::empty(),
    };
    let dbs = match b.max_dbs {
        Some(n) => seq![OpenStep::SetMaxDbs(n)],
        None => Seq::empty(),
    };
    let map_size = match b.map_size {
        Some(n) => seq![OpenStep::SetMapSize(n)],
        None => Seq::empty(),
    };
    readers + dbs + map_size + seq![OpenStep::Open(b.flags@)]
}

impl EnvironmentBuilder {
    /// A builder with no options and every setting left to the engine.
    pub fn new() -> (r: EnvironmentBuilder)
        ensures
            r.flags@ == 0,
            r.max_readers is None,
            r.max_dbs is None,
            r.map_size is None,
    {
        EnvironmentBuilder {
            flags: EnvironmentFlags::empty(),
            max_readers: None,
            max_dbs: None,
            map_size: None,
        }
    }

    /// Sets the options of the environment.
    pub fn set_flags(&mut self, flags: EnvironmentFlags) -> (r: &mut EnvironmentBuilder)
        ensures
            *r == (EnvironmentBuilder { flags, ..*old(self) }),
            *final(self) == *final(r),
    {
        self.flags = flags;
        self
    }

    /// Sets the maximum number of threads or reader slots for the environment.
    ///
    /// This defines the number of slots in the lock table that is used to track readers in the
    /// the environment. The default is 126.
    pub fn set_max_readers(&mut self, max_readers: c_uint) -> (r: &mut EnvironmentBuilder)
        ensures
            *r == (EnvironmentBuilder { max_readers: Some(max_readers), ..*old(self) }),
            *final(self) == *final(r),
    {
        self.max_readers = Some(max_readers);
        self
    }

    /// Sets the maximum number of named databases for the environment.
    ///
    /// This is only needed if named databases will be used in the environment.
    pub fn set_max_dbs(&mut self, max_dbs: c_uint) -> (r: &mut EnvironmentBuilder)
        ensures
            *r == (EnvironmentBuilder { max_dbs: Some(max_dbs), ..*old(self) }),
            *final(self) == *final(r),
    {
        self.max_dbs = Some(max_dbs);
        self
    }

    /// Sets the size of the memory map to use for the environment.
    ///
    /// The size should be a multiple of the OS page size. The size of the memory map is also
    /// the maximum size of the database.
    pub fn set_map_size(&mut self, map_size: size_t) -> (r: &mut EnvironmentBuilder)
        ensures
            *r == (EnvironmentBuilder { map_size: Some(map_size), ..*old(self) }),
            *final(self) == *final(r),
    {
        self.map_size = Some(map_size);
        self
    }

    /// The calls into the engine, in order, that open an environment with
    /// these options once its environment object exists.
    pub fn open_steps(&self) -> (r: Vec<OpenStep>)
        ensures
            r@ == open_plan(*self),
    {
        let mut steps: Vec<OpenStep> = Vec::new();
        if let Some(n) = self.max_readers {
            steps.push(OpenStep::SetMaxReaders(n));
        }
        if let Some(n) = self.max_dbs {
            steps.push(OpenStep::SetMaxDbs(n));
        }
        if let Some(n) = self.map_size {
            steps.push(OpenStep::SetMapSize(n));
        }
        steps.push(OpenStep::Open(self.flags.bits()));
        proof {
            assert(steps@ =~= open_plan(*self));
        }
        steps
    }
}

} // verus!
