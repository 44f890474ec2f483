//! Recording of memory accesses, to check what the drivers read and write.
pub mod dummy;
pub mod log;

use vstd::prelude::*;

verus! {

/// A recorded read.
#[derive(Clone, Copy, Debug, PartialEq, Eq, Structural)]
pub struct ReadEntry {
    pub addr: usize,
    pub len: usize,
    pub val: u64,
}

/// A recorded write.
#[derive(Clone, Copy, Debug, PartialEq, Eq, Structural)]
pub struct WriteEntry {
    pub addr: usize,
    pub len: usize,
    pub val: u64,
}

/// A recorded load-modify-store: the mask in the upper 32 bits of `val`,
/// the value in the lower ones.
#[derive(Clone, Copy, Debug, PartialEq, Eq, Structural)]
pub struct LoadModifyStoreEntry {
    pub addr: usize,
    pub val: u64,
}

/// A recorded memory access.
#[derive(Clone, Copy, Debug, PartialEq, Eq, Structural)]
pub enum ReportEntry {
    Read(ReadEntry),
    Write(WriteEntry),
    LoadModifyStore(LoadModifyStoreEntry),
}

/// Something that memory accesses are reported to.
pub trait Reporter {
    /// Whether a read of `len` bytes at `addr` can be answered.
    spec fn can_read(&self, addr: usize, len: usize) -> bool;

    /// A read of `len` bytes at `addr`, and the value it gives.
    fn read_volatile(&mut self, addr: usize, len: usize) -> u64
        requires
            old(self).can_read(addr, len),
    ;

    /// A write of `val`, `len` bytes, at `addr`.
    fn write_volatile(&mut self, addr: usize, len: usize, val: u64);

    /// A load-modify-store at `addr`: mask in the upper 32 bits of `val`,
    /// value in the lower ones.
    fn load_modify_store(&mut self, addr: usize, val: u64);
}

/// An access as the effect reporter records it.
#[derive(Clone, Copy, Debug, PartialEq, Eq, Structural)]
pub enum ReportAction {
    Read,
    Write(u32),
    LoadModifyStore(u64),
}

/// A recorded access: its address, its length in bytes and what it did.
#[derive(Clone, Copy, Debug, PartialEq, Eq, Structural)]
pub struct ReportData {
    pub addr: usize,
    pub len: usize,
    pub action: ReportAction,
}

impl ReportData {
    /// The record of `action` on `len` bytes at `addr`.
    pub fn new(action: ReportAction, addr: usize, len: usize) -> (r: Self)
        ensures
            r == (ReportData { addr, len, action }),
    {
        ReportData { addr, len, action }
    }
}

/// What a read returns when accesses are only recorded.
pub const READ_VALUE: u32 = 0x0;

/// Records every access, in order; reads return [`READ_VALUE`].
pub struct LogEffectReporter {
    pub logs: Vec<ReportData>,
}

impl LogEffectReporter {
    /// A reporter with nothing recorded.
    pub fn new() -> (r: Self)
        ensures
            r.logs@ == Seq::<ReportData>::empty(),
    {
        LogEffectReporter { logs: Vec::new() }
    }

    /// The records so far, in order; the reporter keeps none of them.
    pub fn get_logs(&mut self) -> (r: Vec<ReportData>)
        ensures
            r@ == old(self).logs@,
            final(self).logs@ == Seq::<ReportData>::empty(),
    {
        let mut taken: Vec<ReportData> = Vec::new();
        core::mem::swap(&mut taken, &mut self.logs);
        taken
    }

    fn push(&mut self, report: ReportData)
        ensures
            final(self).logs@ == old(self).logs@.push(report),
    {
        self.logs.push(report);
    }

    fn report(&mut self, action: ReportAction, addr: usize, len: usize)
        ensures
            final(self).logs@ == old(self).logs@.push(ReportData { addr, len, action }),
    {
        self.push(ReportData::new(action, addr, len))
    }

    /// Records a read of `len` bytes at `addr`; it gives [`READ_VALUE`].
    pub fn read_volatile(&mut self, addr: usize, len: usize) -> (r: u32)
        ensures
            r == READ_VALUE,
            final(self).logs@ == old(self).logs@.push(
                ReportData { addr, len, action: ReportAction::Read },
            ),
    {
        self.report(ReportAction::Read, addr, len);
        READ_VALUE
    }

    /// Records a write of `val`, `len` bytes, at `addr`.
    pub fn write_volatile(&mut self, addr: usize, len: usize, val: u32)
        ensures
            final(self).logs@ == old(self).logs@.push(
                ReportData { addr, len, action: ReportAction::Write(val) },
            ),
    {
        self.report(ReportAction::Write(val), addr, len);
    }

    /// Records a load-modify-store at `addr`, 8 bytes long.
    pub fn load_modify_store(&mut self, addr: usize, val: u64)
        ensures
            final(self).logs@ == old(self).logs@.push(
                ReportData { addr, len: 8, action: ReportAction::LoadModifyStore(val) },
            ),
    {
        self.report(ReportAction::LoadModifyStore(val), addr, 8);
    }
}

} // verus!
