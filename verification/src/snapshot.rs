//! Monitoring records and the readers that build them from the text a
//! remote probe prints.
//!
//! The system probe prints tagged lines: `CPU <percent>`, `MEM <total>
//! <used> ..` in MiB, and `PROC <name> <cpu> <mem>` once per process. The
//! disk probe prints `<used>,<total>,<percent>`. A line or field that does
//! not fit is passed over; it never fails the reading.

use vstd::prelude::*;
use vstd::slice::slice_subrange;
use vstd::string::StringSliceAdditionalSpecFns;
use crate::quantity::{Quantity, parse_numeral, reading_of};
use crate::text::{
    NEWLINE, decode, find_piece_end, lossy_text, next_token, piece_end, same_bytes, split,
    split_from, tokens, lemma_split_step,
};

verus! {

/// The tag of a line that reports the processor load.
pub const CPU_TAG: &'static str = "CPU";

/// The tag of a line that reports the memory totals.
pub const MEM_TAG: &'static str = "MEM";

/// The tag of a line that reports one process.
pub const PROC_TAG: &'static str = "PROC";

/// The name under which callers ask for the ordering by processor share.
pub const CPU_SORT_NAME: &'static str = "cpu";

/// The name under which callers ask for the ordering by memory share.
pub const RAM_SORT_NAME: &'static str = "ram";

/// The byte between the fields of the disk report.
pub const COMMA: u8 = 0x2c;

/// The number of MiB in a GiB.
pub const MIB_PER_GIB: u32 = 1024;

/// The column by which the remote listing orders its processes.
#[derive(Clone, Copy, Debug, PartialEq, Eq)]
pub enum ProcessSort {
    Cpu,
    Ram,
}

/// One row of the process listing.
#[derive(Clone, Debug, PartialEq, Eq)]
pub struct ProcessInfo {
    pub name: String,
    pub cpu: Quantity,
    pub memory: Quantity,
}

/// Memory in use and in total, in GiB, and the share in use as a percentage.
#[derive(Clone, Copy, Debug, PartialEq, Eq)]
pub struct MemoryInfo {
    pub used: Quantity,
    pub total: Quantity,
    pub percentage: Quantity,
}

/// Processor load, memory use and the process listing at one moment.
#[derive(Clone, Debug, PartialEq, Eq)]
pub struct SystemInfo {
    pub cpu_usage: Quantity,
    pub memory: MemoryInfo,
    pub processes: Vec<ProcessInfo>,
}

/// Disk space in use and in total, and the share in use as a percentage.
#[derive(Clone, Copy, Debug, PartialEq, Eq)]
pub struct StorageInfo {
    pub used: Quantity,
    pub total: Quantity,
    pub percentage: Quantity,
}

/// One line of the system report, by its tag.
#[derive(Clone, Debug, PartialEq, Eq)]
pub enum SnapshotLine {
    Cpu(Quantity),
    Mem { total: Quantity, used: Quantity },
    Proc(ProcessInfo),
    Unknown,
}

/// A process row as a mathematical value.
pub struct ProcessRow {
    pub name: Seq<char>,
    pub cpu: Quantity,
    pub memory: Quantity,
}

/// A report line as a mathematical value.
pub enum LineModel {
    Cpu(Quantity),
    Mem { total: Quantity, used: Quantity },
    Proc(ProcessRow),
    Unknown,
}

/// What has been read from the lines of a system report: the latest
/// processor load and memory totals, and every process row in order.
pub struct Readings {
    pub cpu_usage: Quantity,
    pub mem_total: Quantity,
    pub mem_used: Quantity,
    pub processes: Seq<ProcessRow>,
}

/// A system record as a mathematical value.
pub struct SystemModel {
    pub cpu_usage: Quantity,
    pub memory: MemoryInfo,
    pub processes: Seq<ProcessRow>,
}

impl View for ProcessInfo {
    type V = ProcessRow;

    open spec fn view(&self) -> ProcessRow {
        ProcessRow { name: self.name@, cpu: self.cpu, memory: self.memory }
    }
}

impl View for SnapshotLine {
    type V = LineModel;

    open spec fn view(&self) -> LineModel {
        match *self {
            SnapshotLine::Cpu(load) => LineModel::Cpu(load),
            SnapshotLine::Mem { total, used } => LineModel::Mem { total, used },
            SnapshotLine::Proc(process) => LineModel::Proc(process@),
            SnapshotLine::Unknown => LineModel::Unknown,
        }
    }
}

impl View for SystemInfo {
    type V = SystemModel;

    open spec fn view(&self) -> SystemModel {
        SystemModel {
            cpu_usage: self.cpu_usage,
            memory: self.memory,
            processes: rows(self.processes@),
        }
    }
}

/// The rows that a list of process records stands for.
pub open spec fn rows(processes: Seq<ProcessInfo>) -> Seq<ProcessRow> {
    Seq::new(processes.len(), |i: int| processes[i]@)
}

/// What the line `line` reports.
///
/// The first token is the tag. A `CPU` line needs one numeral after it, a
/// `MEM` line two (total, then used), a `PROC` line a name and two numerals
/// (processor share, then memory share). Further tokens are not looked at.
/// Every other line is `Unknown`.
pub open spec fn classify(line: Seq<u8>) -> LineModel {
    let t = tokens(line);
    if t.len() == 0 {
        LineModel::Unknown
    } else if t[0] == CPU_TAG.spec_bytes() {
        if t.len() >= 2 && reading_of(t[1]) is Some {
            LineModel::Cpu(reading_of(t[1])->0)
        } else {
            LineModel::Unknown
        }
    } else if t[0] == MEM_TAG.spec_bytes() {
        if t.len() >= 3 && reading_of(t[1]) is Some && reading_of(t[2]) is Some {
            LineModel::Mem { total: reading_of(t[1])->0, used: reading_of(t[2])->0 }
        } else {
            LineModel::Unknown
        }
    } else if t[0] == PROC_TAG.spec_bytes() {
        if t.len() >= 4 && reading_of(t[2]) is Some && reading_of(t[3]) is Some {
            LineModel::Proc(
                ProcessRow {
                    name: lossy_text(t[1]),
                    cpu: reading_of(t[2])->0,
                    memory: reading_of(t[3])->0,
                },
            )
        } else {
            LineModel::Unknown
        }
    } else {
        LineModel::Unknown
    }
}

/// The readings before any line: all zero, no process.
pub open spec fn no_readings() -> Readings {
    Readings {
        cpu_usage: Quantity::spec_zero(),
        mem_total: Quantity::spec_zero(),
        mem_used: Quantity::spec_zero(),
        processes: Seq::empty(),
    }
}

/// The readings after one more line: a `Cpu` or `Mem` line replaces what
/// came before, a `Proc` line adds a row, an `Unknown` line changes nothing.
pub open spec fn record(before: Readings, line: LineModel) -> Readings {
    match line {
        LineModel::Cpu(load) => Readings { cpu_usage: load, ..before },
        LineModel::Mem { total, used } => Readings { mem_total: total, mem_used: used, ..before },
        LineModel::Proc(row) => Readings { processes: before.processes.push(row), ..before },
        LineModel::Unknown => before,
    }
}

/// The readings after all of `lines`, taken in order.
pub open spec fn readings_of(lines: Seq<Seq<u8>>) -> Readings
    decreases lines.len(),
{
    if lines.len() == 0 {
        no_readings()
    } else {
        record(readings_of(lines.drop_last()), classify(lines.last()))
    }
}

/// Memory totals in MiB as a memory record: both in GiB, and the used share
/// as a percentage, which is zero when the total is zero.
pub open spec fn memory_of(total: Quantity, used: Quantity) -> MemoryInfo {
    MemoryInfo {
        used: used.spec_divided_by(MIB_PER_GIB),
        total: total.spec_divided_by(MIB_PER_GIB),
        percentage: used.spec_percent_of(total),
    }
}

/// The system record that the report `text` stands for.
pub open spec fn system_info_of(text: Seq<u8>) -> SystemModel {
    let readings = readings_of(split(text, NEWLINE));
    SystemModel {
        cpu_usage: readings.cpu_usage,
        memory: memory_of(readings.mem_total, readings.mem_used),
        processes: readings.processes,
    }
}

/// The reading of field `index` of `fields`; zero where the field is
/// missing or no numeral.
pub open spec fn field_or_zero(fields: Seq<Seq<u8>>, index: int) -> Quantity {
    if 0 <= index < fields.len() && reading_of(fields[index]) is Some {
        reading_of(fields[index])->0
    } else {
        Quantity::spec_zero()
    }
}

/// The disk record that the report `text` stands for: its first three
/// comma-separated fields are the space used, the total and the percentage.
pub open spec fn storage_info_of(text: Seq<u8>) -> StorageInfo {
    let fields = split(text, COMMA);
    StorageInfo {
        used: field_or_zero(fields, 0),
        total: field_or_zero(fields, 1),
        percentage: field_or_zero(fields, 2),
    }
}

/// The sort key that `name` asks for: `cpu` or `ram`, and nothing else.
pub open spec fn sort_named(name: Seq<u8>) -> Option<ProcessSort> {
    if name == CPU_SORT_NAME.spec_bytes() {
        Some(ProcessSort::Cpu)
    } else if name == RAM_SORT_NAME.spec_bytes() {
        Some(ProcessSort::Ram)
    } else {
        None
    }
}

impl ProcessSort {
    /// The sort key that `name` asks for, or `None` for a name that is
    /// neither `cpu` nor `ram`.
    pub fn from_name(name: &str) -> (sort: Option<ProcessSort>)
        ensures
            sort == sort_named(name.spec_bytes()),
    {
        if same_bytes(name.as_bytes(), CPU_SORT_NAME.as_bytes()) {
            Some(ProcessSort::Cpu)
        } else if same_bytes(name.as_bytes(), RAM_SORT_NAME.as_bytes()) {
            Some(ProcessSort::Ram)
        } else {
            None
        }
    }
}

impl MemoryInfo {
    /// The memory record for `total` and `used`, both in MiB.
    pub fn from_mib(total: Quantity, used: Quantity) -> (memory: MemoryInfo)
        requires
            total.is_reading(),
            used.is_reading(),
        ensures
            memory == memory_of(total, used),
            memory.used.wf() && memory.total.wf() && memory.percentage.wf(),
    {
        MemoryInfo {
            used: used.divided_by(MIB_PER_GIB),
            total: total.divided_by(MIB_PER_GIB),
            percentage: used.percent_of(&total),
        }
    }
}

/// Reads one line of the system report.
pub fn parse_line(line: &[u8]) -> (parsed: SnapshotLine)
    ensures
        parsed@ == classify(line@),
        match parsed {
            SnapshotLine::Cpu(load) => load.is_reading(),
            SnapshotLine::Mem { total, used } => total.is_reading() && used.is_reading(),
            SnapshotLine::Proc(process) => process.cpu.is_reading() && process.memory.is_reading(),
            SnapshotLine::Unknown => true,
        },
{
    let ghost t = tokens(line@);
    let first = match next_token(line, 0) {
        Some(span) => span,
        None => {
            return SnapshotLine::Unknown;
        },
    };
    let tag = slice_subrange(line, first.0, first.1);
    assert(t.len() >= 1 && t[0] == tag@);
    let is_cpu: bool = same_bytes(tag, CPU_TAG.as_bytes());
    let is_mem: bool = !is_cpu && same_bytes(tag, MEM_TAG.as_bytes());
    let is_proc: bool = !is_cpu && !is_mem && same_bytes(tag, PROC_TAG.as_bytes());
    if !is_cpu && !is_mem && !is_proc {
        return SnapshotLine::Unknown;
    }
    let second = match next_token(line, first.1) {
        Some(span) => span,
        None => {
            assert(t.len() == 1);
            return SnapshotLine::Unknown;
        },
    };
    let second_field = slice_subrange(line, second.0, second.1);
    assert(t.len() >= 2 && t[1] == second_field@);
    if is_cpu {
        return match parse_numeral(second_field) {
            Some(load) => SnapshotLine::Cpu(load),
            None => SnapshotLine::Unknown,
        };
    }
    let third = match next_token(line, second.1) {
        Some(span) => span,
        None => {
            assert(t.len() == 2);
            return SnapshotLine::Unknown;
        },
    };
    let third_field = slice_subrange(line, third.0, third.1);
    assert(t.len() >= 3 && t[2] == third_field@);
    if is_mem {
        let total = parse_numeral(second_field);
        let used = parse_numeral(third_field);
        return match (total, used) {
            (Some(total), Some(used)) => SnapshotLine::Mem { total, used },
            _ => SnapshotLine::Unknown,
        };
    }
    let fourth = match next_token(line, third.1) {
        Some(span) => span,
        None => {
            assert(t.len() == 3);
            return SnapshotLine::Unknown;
        },
    };
    let fourth_field = slice_subrange(line, fourth.0, fourth.1);
    assert(t.len() >= 4 && t[3] == fourth_field@);
    let cpu = parse_numeral(third_field);
    let memory = parse_numeral(fourth_field);
    match (cpu, memory) {
        (Some(cpu), Some(memory)) => SnapshotLine::Proc(
            ProcessInfo { name: decode(second_field), cpu, memory },
        ),
        _ => SnapshotLine::Unknown,
    }
}

/// Reads the system report `output`.
///
/// The processor load and the memory totals are those of the last line that
/// reports them, and zero when there is none. Every well-formed process
/// line gives one row, in the order of the lines.
pub fn parse_system_info(output: &[u8]) -> (info: SystemInfo)
    ensures
        info@ == system_info_of(output@),
{
    let len: usize = output.len();
    let mut cpu_usage: Quantity = Quantity::zero();
    let mut mem_total: Quantity = Quantity::zero();
    let mut mem_used: Quantity = Quantity::zero();
    let mut processes: Vec<ProcessInfo> = Vec::new();
    let ghost mut done: Seq<Seq<u8>> = Seq::empty();
    let mut pos: usize = 0;
    proof {
        assert(rows(processes@) =~= Seq::<ProcessRow>::empty());
        assert(done + split_from(output@, NEWLINE, 0) =~= split(output@, NEWLINE));
    }
    loop
        invariant_except_break
            pos <= len,
            split(output@, NEWLINE) == done + split_from(output@, NEWLINE, pos as int),
            readings_of(done) == (Readings {
                cpu_usage,
                mem_total,
                mem_used,
                processes: rows(processes@),
            }),
        invariant
            len == output@.len(),
            mem_total.is_reading(),
            mem_used.is_reading(),
        ensures
            readings_of(split(output@, NEWLINE)) == (Readings {
                cpu_usage,
                mem_total,
                mem_used,
                processes: rows(processes@),
            }),
            mem_total.is_reading(),
            mem_used.is_reading(),
        decreases len - pos,
    {
        let end: usize = find_piece_end(output, NEWLINE, pos);
        let line = slice_subrange(output, pos, end);
        let parsed = parse_line(line);
        proof {
            let before = done;
            lemma_split_step(output@, NEWLINE, pos as int);
            done = done.push(line@);
            assert(done.drop_last() =~= before);
            assert(before + (seq![line@] + split_from(output@, NEWLINE, end + 1)) =~= done
                + split_from(output@, NEWLINE, end + 1));
        }
        match parsed {
            SnapshotLine::Cpu(load) => {
                cpu_usage = load;
            },
            SnapshotLine::Mem { total, used } => {
                mem_total = total;
                mem_used = used;
            },
            SnapshotLine::Proc(process) => {
                proof {
                    assert(rows(processes@.push(process)) =~= rows(processes@).push(process@));
                }
                processes.push(process);
            },
            SnapshotLine::Unknown => {},
        }
        if end == len {
            proof {
                assert(done + Seq::<Seq<u8>>::empty() =~= done);
            }
            break;
        }
        pos = end + 1;
    }
    SystemInfo { cpu_usage, memory: MemoryInfo::from_mib(mem_total, mem_used), processes }
}

/// Reads the numeral in `data[start..end]`, or zero where it holds none.
fn reading_or_zero(data: &[u8], start: usize, end: usize) -> (reading: Quantity)
    requires
        start <= end <= data@.len(),
    ensures
        reading == match reading_of(data@.subrange(start as int, end as int)) {
            Some(value) => value,
            None => Quantity::spec_zero(),
        },
{
    match parse_numeral(slice_subrange(data, start, end)) {
        Some(value) => value,
        None => Quantity::zero(),
    }
}

/// Reads the disk report `output`.
///
/// The fields are taken in the order in which the probe prints them: space
/// used, total space, percentage used. A field that is missing or no
/// numeral reads as zero.
pub fn parse_storage_info(output: &[u8]) -> (info: StorageInfo)
    ensures
        info == storage_info_of(output@),
{
    let len: usize = output.len();
    let ghost fields = split(output@, COMMA);
    let mut info = StorageInfo {
        used: Quantity::zero(),
        total: Quantity::zero(),
        percentage: Quantity::zero(),
    };
    let first_end: usize = find_piece_end(output, COMMA, 0);
    info.used = reading_or_zero(output, 0, first_end);
    proof {
        lemma_split_step(output@, COMMA, 0);
        assert(fields[0] == output@.subrange(0, first_end as int));
    }
    if first_end == len {
        assert(fields.len() == 1);
        return info;
    }
    let second_end: usize = find_piece_end(output, COMMA, first_end + 1);
    info.total = reading_or_zero(output, first_end + 1, second_end);
    proof {
        lemma_split_step(output@, COMMA, first_end + 1);
        assert(fields[1] == output@.subrange(first_end + 1, second_end as int));
    }
    if second_end == len {
        assert(fields.len() == 2);
        return info;
    }
    let third_end: usize = find_piece_end(output, COMMA, second_end + 1);
    info.percentage = reading_or_zero(output, second_end + 1, third_end);
    proof {
        lemma_split_step(output@, COMMA, second_end + 1);
        assert(fields[2] == output@.subrange(second_end + 1, third_end as int));
    }
    info
}

} // verus!
