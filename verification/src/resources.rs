//! Reading system resource figures out of the text of the kernel's
//! `/proc` and `/sys` files: memory, CPU times, mount points, block device
//! sizes and per-process figures.
//!
//! The files are read outside this module; their contents are handed in.

use vstd::prelude::*;
use crate::error::{Error, Result};
use crate::text::{
    lines_of, owned, parse_unsigned, parse_unsigned_bounded, push_str, seq_starts_with, split_lines,
    split_tokens, starts_with, str_eq, sub_text, tokens_of, trim_spec, trim_text,
};

verus! {

// ============================================================================
// ProcessInfo
// ============================================================================

#[verifier::external_type_specification]
#[verifier::external_body]
pub struct ExSystemTime(std::time::SystemTime);

/// Process information for the current process.
#[derive(Clone, Debug)]
pub struct ProcessInfo {
    /// Process ID.
    pub pid: u32,
    /// Number of threads.
    pub thread_count: u32,
    /// Number of open file descriptors.
    pub open_files: u32,
    /// Virtual memory size in bytes.
    pub virtual_memory_bytes: u64,
    /// Resident set size in bytes.
    pub resident_memory_bytes: u64,
    /// Process start time.
    pub start_time: Option<std::time::SystemTime>,
}

impl Default for ProcessInfo {
    fn default() -> (r: Self)
        ensures
            r.pid == 0,
            r.thread_count == 1,
            r.open_files == 0,
            r.virtual_memory_bytes == 0,
            r.resident_memory_bytes == 0,
            r.start_time is None,
    {
        ProcessInfo {
            pid: 0,
            thread_count: 1,
            open_files: 0,
            virtual_memory_bytes: 0,
            resident_memory_bytes: 0,
            start_time: None,
        }
    }
}

// ============================================================================
// Fields of a line
// ============================================================================

/// The value of whitespace-separated field `k` of `line` read as an
/// unsigned number no larger than `max`, or `dflt` when there is no such
/// field or it is not such a number.
pub open spec fn field_value(line: Seq<char>, k: int, max: nat, dflt: nat) -> nat {
    let t = tokens_of(line);
    if 0 <= k < t.len() {
        match parse_unsigned(t[k], max) {
            Some(v) => v,
            None => dflt,
        }
    } else {
        dflt
    }
}

fn field_of(tokens: &Vec<String>, k: usize, max: u64, dflt: u64) -> (r: u64)
    requires
        dflt <= max,
    ensures
        r == (if k < tokens@.len() {
            match parse_unsigned(tokens@[k as int]@, max as nat) {
                Some(v) => v,
                None => dflt as nat,
            }
        } else {
            dflt as nat
        }),
{
    if k < tokens.len() {
        match parse_unsigned_bounded(tokens[k].as_str(), max) {
            Some(v) => v,
            None => dflt,
        }
    } else {
        dflt
    }
}

fn line_field(line: &str, k: usize, max: u64, dflt: u64) -> (r: u64)
    requires
        dflt <= max,
    ensures
        r == field_value(line@, k as int, max as nat, dflt as nat),
{
    let tokens = split_tokens(line);
    proof {
        if k < tokens@.len() {
            assert(tokens@.map_values(|t: String| t@)[k as int] == tokens@[k as int]@);
        }
    }
    field_of(&tokens, k, max, dflt)
}

/// Reads the number in a `/proc/meminfo` line such as
/// `MemTotal:       16384 kB`: the second field, or 0.
pub fn parse_meminfo_line(line: &str) -> (r: u64)
    ensures
        r == field_value(line@, 1, u64::MAX as nat, 0),
{
    line_field(line, 1, u64::MAX, 0)
}

/// Reads the number in a `/proc/<pid>/status` line such as
/// `VmRSS:     1024 kB`: the second field, or 0.
pub fn parse_status_kb(line: &str) -> (r: u64)
    ensures
        r == field_value(line@, 1, u64::MAX as nat, 0),
{
    line_field(line, 1, u64::MAX, 0)
}

// ============================================================================
// Memory
// ============================================================================

/// The kilobyte figures of the last `MemTotal:` and the last
/// `MemAvailable:` line among `lines` (0 where there is none).
pub open spec fn meminfo_kb(lines: Seq<Seq<char>>) -> (nat, nat)
    decreases lines.len(),
{
    if lines.len() == 0 {
        (0, 0)
    } else {
        let prev = meminfo_kb(lines.drop_last());
        let l = lines.last();
        if seq_starts_with(l, "MemTotal:"@) {
            (field_value(l, 1, u64::MAX as nat, 0), prev.1)
        } else if seq_starts_with(l, "MemAvailable:"@) {
            (prev.0, field_value(l, 1, u64::MAX as nat, 0))
        } else {
            prev
        }
    }
}

/// `(used, total)` memory in megabytes from the text of `/proc/meminfo`:
/// total is `MemTotal` / 1024, used is total less `MemAvailable` / 1024,
/// and never below zero.
pub open spec fn memory_mb(meminfo: Seq<char>) -> (nat, nat) {
    let kb = meminfo_kb(lines_of(meminfo));
    let total = kb.0 / 1024;
    let avail = kb.1 / 1024;
    (if total >= avail {
        (total - avail) as nat
    } else {
        0
    }, total)
}

/// `(used_mb, total_mb)` from the text of `/proc/meminfo`.
pub fn memory_info_from(meminfo: &str) -> (r: (u64, u64))
    ensures
        r.0 == memory_mb(meminfo@).0,
        r.1 == memory_mb(meminfo@).1,
{
    let lines = split_lines(meminfo);
    let ghost lv = lines@.map_values(|t: String| t@);
    let mut total_kb: u64 = 0;
    let mut avail_kb: u64 = 0;
    let mut i: usize = 0;
    while i < lines.len()
        invariant
            i <= lines@.len(),
            lv == lines@.map_values(|t: String| t@),
            lv == lines_of(meminfo@),
            meminfo_kb(lv.take(i as int)) == (total_kb as nat, avail_kb as nat),
        decreases lines@.len() - i,
    {
        let line = lines[i].as_str();
        assert(lv.take(i + 1).drop_last() =~= lv.take(i as int));
        assert(lv.take(i + 1).last() == line@);
        if starts_with(line, "MemTotal:") {
            total_kb = parse_meminfo_line(line);
        } else if starts_with(line, "MemAvailable:") {
            avail_kb = parse_meminfo_line(line);
        }
        i = i + 1;
    }
    assert(lv.take(i as int) =~= lv);
    let total_mb = total_kb / 1024;
    let avail_mb = avail_kb / 1024;
    (total_mb.saturating_sub(avail_mb), total_mb)
}

// ============================================================================
// CPU times
// ============================================================================

/// The seven counters of the first line of `/proc/stat` (`user`, `nice`,
/// `system`, `idle`, `iowait`, `irq`, `softirq`), each 0 where it is
/// missing or not a number; an error when there is no line or the line
/// has fewer than five fields.
pub open spec fn cpu_fields_spec(stat: Seq<char>) -> core::result::Result<Seq<nat>, Seq<char>> {
    let lines = lines_of(stat);
    if lines.len() == 0 {
        Err("Empty /proc/stat"@)
    } else if tokens_of(lines[0]).len() < 5 {
        Err("Invalid /proc/stat format"@)
    } else {
        Ok(Seq::new(7, |k: int| field_value(lines[0], k + 1, u64::MAX as nat, 0)))
    }
}

/// Reads the CPU time counters from the text of `/proc/stat`.
pub fn cpu_fields(stat: &str) -> (r: Result<Vec<u64>>)
    ensures
        match cpu_fields_spec(stat@) {
            Ok(f) => r is Ok && r->Ok_0@.len() == 7 && forall|k: int|
                0 <= k < 7 ==> r->Ok_0@[k] == #[trigger] f[k],
            Err(m) => r matches Err(Error::Other(x)) && x@ == m,
        },
{
    let lines = split_lines(stat);
    if lines.len() == 0 {
        return Err(Error::Other(owned("Empty /proc/stat")));
    }
    proof {
        assert(lines@.map_values(|t: String| t@)[0] == lines@[0]@);
    }
    let parts = split_tokens(lines[0].as_str());
    if parts.len() < 5 {
        return Err(Error::Other(owned("Invalid /proc/stat format")));
    }
    let mut out: Vec<u64> = Vec::new();
    let mut k: usize = 0;
    while k < 7
        invariant
            k <= 7,
            lines@.len() > 0,
            parts@.map_values(|t: String| t@) == tokens_of(lines@[0]@),
            out@.len() == k,
            forall|j: int|
                0 <= j < k ==> out@[j] == #[trigger] field_value(
                    lines@[0]@,
                    j + 1,
                    u64::MAX as nat,
                    0,
                ),
        decreases 7 - k,
    {
        let v = field_of(&parts, k + 1, u64::MAX, 0);
        proof {
            if k + 1 < parts@.len() {
                assert(parts@.map_values(|t: String| t@)[k + 1] == parts@[k + 1]@);
            }
        }
        out.push(v);
        k = k + 1;
    }
    Ok(out)
}

/// The sum of the first `k` numbers of `s`.
pub open spec fn prefix_sum(s: Seq<u64>, k: int) -> int
    decreases k,
{
    if k <= 0 {
        0
    } else {
        prefix_sum(s, k - 1) + s[k - 1]
    }
}

proof fn lemma_prefix_sum_monotone(s: Seq<u64>, j: int, k: int)
    requires
        0 <= j <= k <= s.len(),
    ensures
        prefix_sum(s, j) <= prefix_sum(s, k),
    decreases k - j,
{
    if j < k {
        lemma_prefix_sum_monotone(s, j, k - 1);
    }
}

/// `(active, total)` CPU time from the seven counters: total is their sum
/// and active is total less `idle` and `iowait`; nothing when the sum
/// does not fit in 64 bits.
pub fn cpu_times_from_fields(fields: &Vec<u64>) -> (r: Option<(u64, u64)>)
    requires
        fields@.len() == 7,
    ensures
        ({
            let f = fields@;
            let total = f[0] + f[1] + f[2] + f[3] + f[4] + f[5] + f[6];
            match r {
                Some((active, t)) => total <= u64::MAX && t == total && active == total - f[3]
                    - f[4],
                None => total > u64::MAX,
            }
        }),
{
    proof {
        reveal_with_fuel(prefix_sum, 8);
    }
    let mut total: u64 = 0;
    let mut k: usize = 0;
    while k < 7
        invariant
            k <= 7,
            fields@.len() == 7,
            total == prefix_sum(fields@, k as int),
        decreases 7 - k,
    {
        match total.checked_add(fields[k]) {
            Some(t) => total = t,
            None => {
                proof {
                    lemma_prefix_sum_monotone(fields@, k + 1, 7);
                    reveal_with_fuel(prefix_sum, 8);
                }
                return None;
            },
        }
        k = k + 1;
    }
    Some((total - fields[3] - fields[4], total))
}

// ============================================================================
// Mount points and block devices
// ============================================================================

/// The number of bytes in the UTF-8 encoding of `s`, which is what
/// `str::len` counts.
pub open spec fn utf8_len(s: Seq<char>) -> nat
    decreases s.len(),
{
    if s.len() == 0 {
        0
    } else {
        utf8_len(s.drop_last()) + if (s.last() as u32) < 0x80 {
            1nat
        } else if (s.last() as u32) < 0x800 {
            2nat
        } else if (s.last() as u32) < 0x10000 {
            3nat
        } else {
            4nat
        }
    }
}

proof fn lemma_utf8_len_bound(s: Seq<char>)
    ensures
        utf8_len(s) <= 4 * s.len(),
    decreases s.len(),
{
    if s.len() > 0 {
        lemma_utf8_len_bound(s.drop_last());
    }
}

/// The UTF-8 length of `s` in bytes.
pub fn byte_len(s: &str) -> (r: u128)
    ensures
        r == utf8_len(s@),
{
    let n = s.unicode_len();
    let mut total: u128 = 0;
    let mut i: usize = 0;
    while i < n
        invariant
            n == s@.len(),
            i <= n,
            total == utf8_len(s@.take(i as int)),
        decreases n - i,
    {
        proof {
            lemma_utf8_len_bound(s@.take(i as int));
            assert(s@.take(i + 1).drop_last() =~= s@.take(i as int));
        }
        let c = s.get_char(i) as u32;
        let w: u128 = if c < 0x80 {
            1
        } else if c < 0x800 {
            2
        } else if c < 0x10000 {
            3
        } else {
            4
        };
        total = total + w;
        i = i + 1;
    }
    assert(s@.take(n as int) =~= s@);
    total
}

/// The mount point chosen among `lines` of `/proc/mounts` for `path`:
/// starting from `/` (one byte), each line whose second field begins
/// `path` and is longer in bytes than the best so far replaces it.
pub open spec fn best_mount(lines: Seq<Seq<char>>, path: Seq<char>) -> (Seq<char>, nat)
    decreases lines.len(),
{
    if lines.len() == 0 {
        ("/"@, 1)
    } else {
        let prev = best_mount(lines.drop_last(), path);
        let t = tokens_of(lines.last());
        if t.len() >= 2 && seq_starts_with(path, t[1]) && utf8_len(t[1]) > prev.1 {
            (t[1], utf8_len(t[1]))
        } else {
            prev
        }
    }
}

/// The longest mount point in the text of `/proc/mounts` that is a
/// prefix of `path`, `/` when there is none.
pub fn find_mount_point(mounts: &str, path: &str) -> (r: String)
    ensures
        r@ == best_mount(lines_of(mounts@), path@).0,
{
    let lines = split_lines(mounts);
    let ghost lv = lines@.map_values(|t: String| t@);
    let mut best = owned("/");
    let mut best_len: u128 = 1;
    assert(best@ == "/"@);
    let mut i: usize = 0;
    while i < lines.len()
        invariant
            i <= lines@.len(),
            lv == lines@.map_values(|t: String| t@),
            lv == lines_of(mounts@),
            best_mount(lv.take(i as int), path@) == (best@, best_len as nat),
        decreases lines@.len() - i,
    {
        let line = lines[i].as_str();
        assert(lv.take(i + 1).drop_last() =~= lv.take(i as int));
        assert(lv.take(i + 1).last() == line@);
        let parts = split_tokens(line);
        if parts.len() >= 2 {
            let mount_path = parts[1].as_str();
            proof {
                assert(parts@.map_values(|t: String| t@)[1] == mount_path@);
            }
            if starts_with(path, mount_path) {
                let len = byte_len(mount_path);
                if len > best_len {
                    best = owned(mount_path);
                    best_len = len;
                }
            }
        }
        i = i + 1;
    }
    assert(lv.take(i as int) =~= lv);
    best
}

/// The device of the first line of `/proc/mounts` whose mount point is
/// exactly `mount_point`.
pub open spec fn mount_device_spec(lines: Seq<Seq<char>>, mount_point: Seq<char>) -> Option<
    Seq<char>,
>
    decreases lines.len(),
{
    if lines.len() == 0 {
        None
    } else {
        let t = tokens_of(lines[0]);
        if t.len() >= 2 && t[1] == mount_point {
            Some(t[0])
        } else {
            mount_device_spec(lines.drop_first(), mount_point)
        }
    }
}

/// The device mounted at `mount_point` according to the text of
/// `/proc/mounts`.
pub fn mount_device(mounts: &str, mount_point: &str) -> (r: Result<String>)
    ensures
        match mount_device_spec(lines_of(mounts@), mount_point@) {
            Some(d) => r is Ok && r->Ok_0@ == d,
            None => r matches Err(Error::Other(m)) && m@ == "No device found for mount point: "@
                + mount_point@,
        },
{
    let lines = split_lines(mounts);
    let ghost lv = lines@.map_values(|t: String| t@);
    let mut i: usize = 0;
    assert(lv.skip(0) =~= lv);
    while i < lines.len()
        invariant
            i <= lines@.len(),
            lv == lines@.map_values(|t: String| t@),
            mount_device_spec(lines_of(mounts@), mount_point@) == mount_device_spec(
                lv.skip(i as int),
                mount_point@,
            ),
        decreases lines@.len() - i,
    {
        assert(lv.skip(i as int)[0] == lines@[i as int]@);
        assert(lv.skip(i as int).drop_first() =~= lv.skip(i + 1));
        let parts = split_tokens(lines[i].as_str());
        if parts.len() >= 2 {
            proof {
                assert(parts@.map_values(|t: String| t@)[1] == parts@[1]@);
                assert(parts@.map_values(|t: String| t@)[0] == parts@[0]@);
            }
            if str_eq(parts[1].as_str(), mount_point) {
                return Ok(owned(parts[0].as_str()));
            }
        }
        i = i + 1;
    }
    let mut m = owned("No device found for mount point: ");
    push_str(&mut m, mount_point);
    Err(Error::Other(m))
}

/// A device path without its `/dev/` prefix.
pub open spec fn device_name_spec(device: Seq<char>) -> Seq<char> {
    if seq_starts_with(device, "/dev/"@) {
        device.skip(5)
    } else {
        device
    }
}

/// The block device name of a device path (`/dev/sda1` gives `sda1`).
pub fn device_name(device: &str) -> (r: String)
    ensures
        r@ == device_name_spec(device@),
{
    if starts_with(device, "/dev/") {
        proof {
            reveal_strlit("/dev/");
        }
        sub_text(device, 5, device.unicode_len())
    } else {
        owned(device)
    }
}

/// `a * b`, or the largest `u64` when that does not fit.
pub open spec fn saturating_product(a: nat, b: nat) -> nat {
    if a * b <= u64::MAX {
        a * b
    } else {
        u64::MAX as nat
    }
}

/// `a * b`, or the largest `u64` when the product overflows.
fn saturating_mul(a: u64, b: u64) -> (r: u64)
    ensures
        r == saturating_product(a as nat, b as nat),
{
    match a.checked_mul(b) {
        Some(p) => p,
        None => u64::MAX,
    }
}

/// The size in bytes that a `/sys/block/<dev>/size` file gives: its
/// trimmed text read as a count of 512-byte sectors (saturating), or
/// nothing when it is not a number.
pub open spec fn sys_block_bytes(content: Seq<char>) -> Option<nat> {
    match parse_unsigned(trim_spec(content), u64::MAX as nat) {
        Some(v) => Some(saturating_product(v, 512)),
        None => None,
    }
}

/// The size in bytes recorded in a `/sys/block/<dev>/size` file.
pub fn size_from_sys_block(content: &str) -> (r: Option<u64>)
    ensures
        match sys_block_bytes(content@) {
            Some(v) => r == Some(v as u64),
            None => r is None,
        },
{
    let t = trim_text(content);
    match parse_unsigned_bounded(t.as_str(), u64::MAX) {
        Some(sectors) => {
            Some(saturating_mul(sectors, 512))
        },
        None => None,
    }
}

/// The first size among the contents of the size files that could be
/// read, in order; 0 when none gives one.
pub open spec fn first_block_size(contents: Seq<Option<Seq<char>>>) -> nat
    decreases contents.len(),
{
    if contents.len() == 0 {
        0
    } else {
        match contents[0] {
            Some(c) => match sys_block_bytes(c) {
                Some(v) => v,
                None => first_block_size(contents.drop_first()),
            },
            None => first_block_size(contents.drop_first()),
        }
    }
}

/// The device size from the size files tried in order (`None` for a file
/// that could not be read): the first one that holds a number.
pub fn total_from_size_files(contents: &Vec<Option<String>>) -> (r: u64)
    ensures
        r == first_block_size(
            contents@.map_values(
                |o: Option<String>|
                    match o {
                        Some(s) => Some(s@),
                        None => None,
                    },
            ),
        ),
{
    let ghost cv = contents@.map_values(
        |o: Option<String>|
            match o {
                Some(s) => Some(s@),
                None => None,
            },
    );
    let mut i: usize = 0;
    assert(cv.skip(0) =~= cv);
    while i < contents.len()
        invariant
            i <= contents@.len(),
            cv == contents@.map_values(
                |o: Option<String>|
                    match o {
                        Some(s) => Some(s@),
                        None => None,
                    },
            ),
            first_block_size(cv) == first_block_size(cv.skip(i as int)),
        decreases contents@.len() - i,
    {
        assert(cv.skip(i as int).drop_first() =~= cv.skip(i + 1));
        assert(cv.skip(i as int)[0] == cv[i as int]);
        if let Some(c) = &contents[i] {
            if let Some(v) = size_from_sys_block(c.as_str()) {
                return v;
            }
        }
        i = i + 1;
    }
    0
}

/// The size in bytes of partition `name` in `lines` of
/// `/proc/partitions` (after its two header lines): the first line with
/// at least four fields whose fourth is `name` and whose third is a
/// number of 1024-byte blocks (saturating), else 0.
pub open spec fn partition_bytes(lines: Seq<Seq<char>>, name: Seq<char>) -> nat
    decreases lines.len(),
{
    if lines.len() == 0 {
        0
    } else {
        let t = tokens_of(lines[0]);
        if t.len() >= 4 && t[3] == name && parse_unsigned(t[2], u64::MAX as nat) is Some {
            saturating_product(parse_unsigned(t[2], u64::MAX as nat).unwrap(), 1024)
        } else {
            partition_bytes(lines.drop_first(), name)
        }
    }
}

/// The lines of a file after its first two.
pub open spec fn after_header(lines: Seq<Seq<char>>) -> Seq<Seq<char>> {
    if lines.len() <= 2 {
        Seq::empty()
    } else {
        lines.skip(2)
    }
}

/// The size of a device according to the text of `/proc/partitions`.
pub fn read_partition_size(partitions: &str, device_name: &str) -> (r: u64)
    ensures
        r == partition_bytes(after_header(lines_of(partitions@)), device_name@),
{
    let lines = split_lines(partitions);
    let ghost lv = lines@.map_values(|t: String| t@);
    if lines.len() <= 2 {
        return 0;
    }
    let mut i: usize = 2;
    assert(lv.skip(2) =~= after_header(lv));
    while i < lines.len()
        invariant
            2 <= i <= lines@.len(),
            lv == lines@.map_values(|t: String| t@),
            lv == lines_of(partitions@),
            partition_bytes(after_header(lv), device_name@) == partition_bytes(
                lv.skip(i as int),
                device_name@,
            ),
        decreases lines@.len() - i,
    {
        assert(lv.skip(i as int).drop_first() =~= lv.skip(i + 1));
        assert(lv.skip(i as int)[0] == lines@[i as int]@);
        let parts = split_tokens(lines[i].as_str());
        if parts.len() >= 4 {
            proof {
                assert(parts@.map_values(|t: String| t@)[3] == parts@[3]@);
                assert(parts@.map_values(|t: String| t@)[2] == parts@[2]@);
            }
            if str_eq(parts[3].as_str(), device_name) {
                if let Some(blocks) = parse_unsigned_bounded(parts[2].as_str(), u64::MAX) {
                    return saturating_mul(blocks, 1024);
                }
            }
        }
        i = i + 1;
    }
    0
}

/// `(used_mb, total_mb)` for a device of `total_bytes`: half of the
/// device is taken as used, and both are in whole megabytes.
pub fn disk_usage_mb(total_bytes: u64) -> (r: (u64, u64))
    ensures
        r.1 == total_bytes / 1048576,
        r.0 == (total_bytes / 2) / 1048576,
{
    let used_bytes = if total_bytes > 0 {
        total_bytes / 2
    } else {
        0
    };
    (used_bytes / (1024 * 1024), total_bytes / (1024 * 1024))
}

// ============================================================================
// Process status
// ============================================================================

/// The thread count in `lines` of `/proc/<pid>/status`: the first
/// `Threads:` line whose second field is a 32-bit number, else 1.
pub open spec fn thread_count_spec(lines: Seq<Seq<char>>) -> nat
    decreases lines.len(),
{
    if lines.len() == 0 {
        1
    } else {
        let l = lines[0];
        let t = tokens_of(l);
        if seq_starts_with(l, "Threads:"@) && t.len() > 1 && parse_unsigned(t[1], u32::MAX as nat) is Some {
            parse_unsigned(t[1], u32::MAX as nat).unwrap()
        } else {
            thread_count_spec(lines.drop_first())
        }
    }
}

/// The thread count from the text of `/proc/<pid>/status`.
pub fn thread_count_from(status: &str) -> (r: u32)
    ensures
        r == thread_count_spec(lines_of(status@)),
{
    let lines = split_lines(status);
    let ghost lv = lines@.map_values(|t: String| t@);
    let mut i: usize = 0;
    assert(lv.skip(0) =~= lv);
    while i < lines.len()
        invariant
            i <= lines@.len(),
            lv == lines@.map_values(|t: String| t@),
            thread_count_spec(lines_of(status@)) == thread_count_spec(lv.skip(i as int)),
        decreases lines@.len() - i,
    {
        assert(lv.skip(i as int).drop_first() =~= lv.skip(i + 1));
        assert(lv.skip(i as int)[0] == lines@[i as int]@);
        let line = lines[i].as_str();
        if starts_with(line, "Threads:") {
            let parts = split_tokens(line);
            if parts.len() > 1 {
                proof {
                    assert(parts@.map_values(|t: String| t@)[1] == parts@[1]@);
                }
                if let Some(v) = parse_unsigned_bounded(parts[1].as_str(), 0xffff_ffff) {
                    return v as u32;
                }
            }
        }
        i = i + 1;
    }
    1
}

/// The virtual and resident sizes in `lines` of `/proc/<pid>/status`:
/// the kilobytes of the last `VmSize:` and `VmRSS:` lines times 1024, or
/// nothing when a product does not fit in 64 bits.
pub open spec fn process_memory_spec(lines: Seq<Seq<char>>) -> Option<(nat, nat)>
    decreases lines.len(),
{
    if lines.len() == 0 {
        Some((0, 0))
    } else {
        match process_memory_spec(lines.drop_last()) {
            None => None,
            Some(prev) => {
                let l = lines.last();
                let v = field_value(l, 1, u64::MAX as nat, 0) * 1024;
                if seq_starts_with(l, "VmSize:"@) {
                    if v <= u64::MAX {
                        Some((v, prev.1))
                    } else {
                        None
                    }
                } else if seq_starts_with(l, "VmRSS:"@) {
                    if v <= u64::MAX {
                        Some((prev.0, v))
                    } else {
                        None
                    }
                } else {
                    Some(prev)
                }
            },
        }
    }
}

/// `(virtual, resident)` memory in bytes from the text of
/// `/proc/<pid>/status`; nothing when a figure overflows 64 bits.
pub fn process_memory_from(status: &str) -> (r: Option<(u64, u64)>)
    ensures
        match process_memory_spec(lines_of(status@)) {
            Some(p) => r == Some((p.0 as u64, p.1 as u64)),
            None => r is None,
        },
{
    let lines = split_lines(status);
    let ghost lv = lines@.map_values(|t: String| t@);
    let mut vm_size: u64 = 0;
    let mut vm_rss: u64 = 0;
    let mut i: usize = 0;
    while i < lines.len()
        invariant
            i <= lines@.len(),
            lv == lines@.map_values(|t: String| t@),
            lv == lines_of(status@),
            process_memory_spec(lv.take(i as int)) == Some((vm_size as nat, vm_rss as nat)),
        decreases lines@.len() - i,
    {
        let line = lines[i].as_str();
        assert(lv.take(i + 1).drop_last() =~= lv.take(i as int));
        assert(lv.take(i + 1).last() == line@);
        if starts_with(line, "VmSize:") {
            match parse_status_kb(line).checked_mul(1024) {
                Some(v) => vm_size = v,
                None => {
                    proof {
                        lemma_memory_none_persists(lv, i + 1);
                        assert(lv.take(lv.len() as int) =~= lv);
                    }
                    return None;
                },
            }
        } else if starts_with(line, "VmRSS:") {
            match parse_status_kb(line).checked_mul(1024) {
                Some(v) => vm_rss = v,
                None => {
                    proof {
                        lemma_memory_none_persists(lv, i + 1);
                        assert(lv.take(lv.len() as int) =~= lv);
                    }
                    return None;
                },
            }
        }
        i = i + 1;
    }
    assert(lv.take(i as int) =~= lv);
    Some((vm_size, vm_rss))
}

proof fn lemma_memory_none_persists(lines: Seq<Seq<char>>, k: int)
    requires
        0 <= k <= lines.len(),
        process_memory_spec(lines.take(k)) is None,
    ensures
        process_memory_spec(lines.take(lines.len() as int)) is None,
    decreases lines.len() - k,
{
    if k < lines.len() {
        assert(lines.take(k + 1).drop_last() =~= lines.take(k));
        lemma_memory_none_persists(lines, k + 1);
    }
}

// ============================================================================
// Alert history
// ============================================================================

/// Drops the oldest entries of `history` until at most `max` remain.
pub fn keep_latest<T>(history: &mut Vec<T>, max: usize)
    ensures
        old(history)@.len() <= max ==> final(history)@ == old(history)@,
        old(history)@.len() > max ==> final(history)@ == old(history)@.skip(
            old(history)@.len() - max,
        ),
{
    let ghost orig = history@;
    while history.len() > max
        invariant
            orig.len() >= history@.len(),
            history@ == orig.skip(orig.len() - history@.len()),
            history@.len() >= max || history@ == orig,
        decreases history@.len(),
    {
        history.remove(0);
        assert(orig.skip(orig.len() - history@.len()) =~= orig.skip(
            orig.len() - (history@.len() + 1),
        ).drop_first());
    }
    proof {
        if orig.len() <= max {
            assert(orig.skip(0) =~= orig);
        }
    }
}

} // verus!
