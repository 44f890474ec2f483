//! Memory accesses of the drivers, reported to a log ([`Report`]).
use vstd::prelude::*;
use crate::tracing::{LoadModifyStoreEntry, ReadEntry, ReportEntry, Reporter, WriteEntry};
use crate::tracing::log::{LogEntry, Report};

verus! {

/// The value reported for a load-modify-store of `v` under mask `m`: the
/// mask in the upper 32 bits, the value in the lower ones.
pub open spec fn ldmst_word(v: u32, m: u32) -> u64 {
    (v as u64) | ((m as u64) << 32u64)
}

/// Atomic load-modify-store of `v` under mask `m` at `addr`, reported.
pub fn load_modify_store(report: &mut Report, addr: usize, v: u32, m: u32)
    ensures
        final(report).read_fifo@ == old(report).read_fifo@,
        final(report).log@ == old(report).log@.push(
            LogEntry::ReportEntry(
                ReportEntry::LoadModifyStore(LoadModifyStoreEntry { addr, val: ldmst_word(v, m) }),
            ),
        ),
{
    report.load_modify_store(addr, v as u64 | ((m as u64) << 32));
}

/// Volatile write of the 32-bit `val` at `addr`, reported.
pub fn write_volatile(report: &mut Report, addr: usize, val: u32)
    ensures
        final(report).read_fifo@ == old(report).read_fifo@,
        final(report).log@ == old(report).log@.push(
            LogEntry::ReportEntry(ReportEntry::Write(WriteEntry { addr, len: 4, val: val as u64 })),
        ),
{
    report.write_volatile(addr, 4, val as u64);
}

/// Volatile 32-bit read at `addr`, reported; it must be the read expected
/// last, and gives the low 32 bits of the expected value.
pub fn read_volatile(report: &mut Report, addr: usize) -> (r: u32)
    requires
        old(report).can_read(addr, 4),
    ensures
        r == old(report).read_fifo@[0].val as u32,
        final(report).read_fifo@ == old(report).read_fifo@.drop_first(),
        final(report).log@ == old(report).log@.push(
            LogEntry::ReportEntry(
                ReportEntry::Read(ReadEntry { addr, len: 4, val: old(report).read_fifo@[0].val }),
            ),
        ),
{
    let val = report.read_volatile(addr, 4);
    val as u32
}

} // verus!
