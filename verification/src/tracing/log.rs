//! A reporter that keeps a log of the accesses and answers reads with
//! values given in advance.
use vstd::prelude::*;
use vstd::string::StringExecFns;
use crate::log::{padded, push_char, push_padded};
use crate::tracing::{LoadModifyStoreEntry, ReadEntry, ReportEntry, Reporter, WriteEntry};

verus! {

/// A read given in advance: its address, its length and the value it gives.
#[derive(Clone, Copy, Debug, PartialEq, Eq, Structural)]
pub struct ReadFifoEntry {
    pub addr: usize,
    pub len: usize,
    pub val: u64,
}

/// An entry of a log: a comment or an access.
#[derive(Debug)]
pub enum LogEntry {
    Comment(String),
    ReportEntry(ReportEntry),
}

/// The accesses and comments recorded, in order.
#[derive(Debug)]
pub struct Log(pub Vec<LogEntry>);

/// Keeps a log of the accesses and answers reads with the values given by
/// [`Report::expect_read`], in the order they were given.
pub struct Report {
    pub log: Vec<LogEntry>,
    pub read_fifo: Vec<ReadFifoEntry>,
}

impl Report {
    /// A report with an empty log and no read expected.
    pub fn new() -> (r: Self)
        ensures
            r.log@ == Seq::<LogEntry>::empty(),
            r.read_fifo@ == Seq::<ReadFifoEntry>::empty(),
    {
        Report { log: Vec::new(), read_fifo: Vec::new() }
    }

    /// The log so far; the report keeps no entry of it.
    pub fn take_log(&mut self) -> (r: Log)
        ensures
            r.0@ == old(self).log@,
            final(self).log@ == Seq::<LogEntry>::empty(),
            final(self).read_fifo@ == old(self).read_fifo@,
    {
        let mut taken: Vec<LogEntry> = Vec::new();
        core::mem::swap(&mut taken, &mut self.log);
        Log(taken)
    }

    /// Expects a read of `len` bytes at `addr`, answered with `val`. It is
    /// answered after the reads expected earlier.
    pub fn expect_read(&mut self, addr: usize, len: usize, val: u64)
        ensures
            final(self).read_fifo@ == old(self).read_fifo@.push(ReadFifoEntry { addr, len, val }),
            final(self).log@ == old(self).log@,
    {
        self.read_fifo.push(ReadFifoEntry { addr, len, val });
    }

    /// Adds the comment `s` to the log.
    pub fn comment(&mut self, s: String)
        ensures
            final(self).log@ == old(self).log@.push(LogEntry::Comment(s)),
            final(self).read_fifo@ == old(self).read_fifo@,
    {
        self.log.push(LogEntry::Comment(s));
    }

    fn push(&mut self, report: ReportEntry)
        ensures
            final(self).log@ == old(self).log@.push(LogEntry::ReportEntry(report)),
            final(self).read_fifo@ == old(self).read_fifo@,
    {
        self.log.push(LogEntry::ReportEntry(report));
    }
}

impl Reporter for Report {
    /// A read can be answered when the first read still expected has this
    /// address and length.
    open spec fn can_read(&self, addr: usize, len: usize) -> bool {
        &&& self.read_fifo@.len() > 0
        &&& self.read_fifo@[0].addr == addr
        &&& self.read_fifo@[0].len == len
    }

    /// Answers the read with the value of the first read still expected, and
    /// logs it.
    fn read_volatile(&mut self, addr: usize, len: usize) -> (r: u64)
        ensures
            r == old(self).read_fifo@[0].val,
            final(self).read_fifo@ == old(self).read_fifo@.drop_first(),
            final(self).log@ == old(self).log@.push(
                LogEntry::ReportEntry(ReportEntry::Read(ReadEntry { addr, len, val: r })),
            ),
    {
        let entry = self.read_fifo.remove(0);
        proof {
            assert(self.read_fifo@ =~= old(self).read_fifo@.drop_first());
        }
        let val = entry.val;
        self.push(ReportEntry::Read(ReadEntry { addr, len, val }));
        val
    }

    /// Logs the write.
    fn write_volatile(&mut self, addr: usize, len: usize, val: u64)
        ensures
            final(self).read_fifo@ == old(self).read_fifo@,
            final(self).log@ == old(self).log@.push(
                LogEntry::ReportEntry(ReportEntry::Write(WriteEntry { addr, len, val })),
            ),
    {
        self.push(ReportEntry::Write(WriteEntry { addr, len, val }));
    }

    /// Logs the load-modify-store.
    fn load_modify_store(&mut self, addr: usize, val: u64)
        ensures
            final(self).read_fifo@ == old(self).read_fifo@,
            final(self).log@ == old(self).log@.push(
                LogEntry::ReportEntry(ReportEntry::LoadModifyStore(LoadModifyStoreEntry { addr, val })),
            ),
    {
        self.push(ReportEntry::LoadModifyStore(LoadModifyStoreEntry { addr, val }));
    }
}

/// Reads expected with [`Report::expect_read`] are answered in the order
/// they were given: after `e` is expected behind the reads `fifo`, the next
/// read answers the first of `fifo` (or `e` when `fifo` is empty), and `e`
/// stays behind the others.
pub proof fn lemma_expected_read_is_answered(fifo: Seq<ReadFifoEntry>, e: ReadFifoEntry)
    ensures
        fifo.push(e).len() > 0,
        fifo.len() == 0 ==> fifo.push(e)[0] == e && fifo.push(e).drop_first() == fifo,
        fifo.len() > 0 ==> fifo.push(e)[0] == fifo[0] && fifo.push(e).drop_first()
            == fifo.drop_first().push(e),
{
    if fifo.len() == 0 {
        assert(fifo.push(e).drop_first() =~= fifo);
    } else {
        assert(fifo.push(e).drop_first() =~= fifo.drop_first().push(e));
    }
}

/// `v` as `0x` and at least eight uppercase hexadecimal digits.
pub open spec fn hex8(v: nat) -> Seq<char> {
    seq!['0', 'x'] + padded(v, 16, true, 8)
}

/// The line of a log entry: `r`, `w` (address, length in two decimal
/// digits, value) or `ldms` (address, mask, value) for an access, `# ` and
/// the text for a comment; each ends with a newline.
pub open spec fn entry_line(e: LogEntry) -> Seq<char> {
    let body = match e {
        LogEntry::ReportEntry(ReportEntry::Read(x)) => seq!['r', ' ', ' ', ' ', ' '] + hex8(
            x.addr as nat,
        ) + seq![' '] + padded(x.len as nat, 10, true, 2) + seq![' '] + hex8(x.val as nat),
        LogEntry::ReportEntry(ReportEntry::Write(x)) => seq!['w', ' ', ' ', ' ', ' '] + hex8(
            x.addr as nat,
        ) + seq![' '] + padded(x.len as nat, 10, true, 2) + seq![' '] + hex8(x.val as nat),
        LogEntry::ReportEntry(ReportEntry::LoadModifyStore(x)) => seq!['l', 'd', 'm', 's', ' ']
            + hex8(x.addr as nat) + seq![' '] + hex8((x.val >> 32u64) as nat) + seq![' '] + hex8(
            (x.val & 0xFFFF_FFFFu64) as nat,
        ),
        LogEntry::Comment(s) => seq!['#', ' '] + s@,
    };
    body + seq!['\n']
}

/// The text of a log: the lines of its entries, in order.
pub open spec fn log_text(entries: Seq<LogEntry>) -> Seq<char>
    decreases entries.len(),
{
    if entries.len() == 0 {
        seq![]
    } else {
        log_text(entries.drop_last()) + entry_line(entries.last())
    }
}

fn push_seq(s: &mut String, cs: &[char])
    ensures
        final(s)@ == old(s)@ + cs@,
{
    let ghost start = s@;
    let mut i: usize = 0;
    while i < cs.len()
        invariant
            i <= cs@.len(),
            s@ == start + cs@.take(i as int),
        decreases cs.len() - i,
    {
        push_char(s, cs[i]);
        proof {
            assert(cs@.take(i + 1) =~= cs@.take(i as int).push(cs@[i as int]));
        }
        i = i + 1;
    }
    proof {
        assert(cs@.take(i as int) =~= cs@);
    }
}

fn push_hex8(s: &mut String, v: u64)
    ensures
        final(s)@ == old(s)@ + hex8(v as nat),
{
    let prefix = ['0', 'x'];
    push_seq(s, &prefix);
    push_padded(s, v, 16, true, 8);
    proof {
        assert(prefix@ =~= seq!['0', 'x']);
        assert(final(s)@ =~= old(s)@ + hex8(v as nat));
    }
}

fn push_access(s: &mut String, tag: &[char], addr: usize, len: usize, val: u64)
    ensures
        final(s)@ == old(s)@ + tag@ + hex8(addr as nat) + seq![' '] + padded(len as nat, 10, true, 2)
            + seq![' '] + hex8(val as nat),
{
    push_seq(s, tag);
    push_hex8(s, addr as u64);
    push_char(s, ' ');
    push_padded(s, len as u64, 10, true, 2);
    push_char(s, ' ');
    push_hex8(s, val);
    proof {
        assert(final(s)@ =~= old(s)@ + tag@ + hex8(addr as nat) + seq![' '] + padded(
            len as nat,
            10,
            true,
            2,
        ) + seq![' '] + hex8(val as nat));
    }
}

fn push_entry(s: &mut String, e: &LogEntry)
    ensures
        final(s)@ == old(s)@ + entry_line(*e),
{
    let ghost start = s@;
    match e {
        LogEntry::ReportEntry(ReportEntry::Read(x)) => {
            let tag = ['r', ' ', ' ', ' ', ' '];
            push_access(s, &tag, x.addr, x.len, x.val);
            proof {
                assert(tag@ =~= seq!['r', ' ', ' ', ' ', ' ']);
            }
        },
        LogEntry::ReportEntry(ReportEntry::Write(x)) => {
            let tag = ['w', ' ', ' ', ' ', ' '];
            push_access(s, &tag, x.addr, x.len, x.val);
            proof {
                assert(tag@ =~= seq!['w', ' ', ' ', ' ', ' ']);
            }
        },
        LogEntry::ReportEntry(ReportEntry::LoadModifyStore(x)) => {
            let tag = ['l', 'd', 'm', 's', ' '];
            push_seq(s, &tag);
            push_hex8(s, x.addr as u64);
            push_char(s, ' ');
            push_hex8(s, x.val >> 32);
            push_char(s, ' ');
            push_hex8(s, x.val & 0xFFFF_FFFF);
            proof {
                assert(tag@ =~= seq!['l', 'd', 'm', 's', ' ']);
            }
        },
        LogEntry::Comment(c) => {
            push_char(s, '#');
            push_char(s, ' ');
            s.append(c.as_str());
        },
    }
    push_char(s, '\n');
    proof {
        assert(s@ =~= start + entry_line(*e));
    }
}

impl Log {
    /// The text of the log: one line per entry.
    pub fn to_string(&self) -> (r: String)
        ensures
            r@ == log_text(self.0@),
    {
        let mut s = String::new();
        let mut i: usize = 0;
        while i < self.0.len()
            invariant
                i <= self.0@.len(),
                s@ == log_text(self.0@.take(i as int)),
            decreases self.0.len() - i,
        {
            proof {
                assert(self.0@.take(i + 1).drop_last() =~= self.0@.take(i as int));
            }
            push_entry(&mut s, &self.0[i]);
            i = i + 1;
        }
        proof {
            assert(self.0@.take(i as int) =~= self.0@);
        }
        s
    }
}

} // verus!
