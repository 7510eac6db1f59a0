//! The remote probe commands: the exact shell lines whose output the
//! snapshot readers understand.

use vstd::prelude::*;
use crate::snapshot::ProcessSort;

verus! {

/// The start of the system probe, up to the column that `top` sorts by.
pub const SYSTEM_PROBE_HEAD: &'static str = "top -bn1 -w 150 -o ";

/// The rest of the system probe: the `awk` program that prints the load as
/// a `CPU` line, the memory totals as a `MEM` line and ten processes as
/// `PROC` lines.
pub const SYSTEM_PROBE_TAIL: &'static str = r#" | awk '
                /Cpu/ {
                    cpu=$2+$4
                    print "CPU " cpu
                }
                /MiB Mem :/ {
                    total=$4
                    free=$6
                    used=$8
                    print "MEM " total " " used " " free
                }
                NR>7 && NR<18 {
                    print "PROC " $12 " " $9 " " $10
                }'"#;

/// The disk probe: space used, total space and percentage used of the root
/// file system, joined by commas, without units.
pub const DISK_PROBE: &'static str = "df -h / --output=size,used,pcent | awk 'NR==2 { printf \"%s,%s,%s\", $2, $1, $3 }' | tr -d 'G%'";

/// The `top` column that orders by processor share.
pub const CPU_COLUMN: &'static str = "%CPU";

/// The `top` column that orders by memory share.
pub const MEMORY_COLUMN: &'static str = "%MEM";

/// The name of the `top` column for `sort_by`.
pub open spec fn sort_column(sort_by: ProcessSort) -> Seq<char> {
    match sort_by {
        ProcessSort::Cpu => CPU_COLUMN@,
        ProcessSort::Ram => MEMORY_COLUMN@,
    }
}

/// The text of the system probe that sorts by `sort_by`.
pub open spec fn system_probe(sort_by: ProcessSort) -> Seq<char> {
    SYSTEM_PROBE_HEAD@ + sort_column(sort_by) + SYSTEM_PROBE_TAIL@
}

/// The command that reports the system's load, memory and processes, the
/// processes ordered by `sort_by`.
pub fn system_info_command(sort_by: ProcessSort) -> (command: String)
    ensures
        command@ == system_probe(sort_by),
{
    let column: &str = match sort_by {
        ProcessSort::Cpu => CPU_COLUMN,
        ProcessSort::Ram => MEMORY_COLUMN,
    };
    let command = SYSTEM_PROBE_HEAD.to_owned();
    let command = command.concat(column);
    command.concat(SYSTEM_PROBE_TAIL)
}

/// The command that reports the disk usage.
pub fn disk_usage_command() -> (command: String)
    ensures
        command@ == DISK_PROBE@,
{
    DISK_PROBE.to_owned()
}

} // verus!
