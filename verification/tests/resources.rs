use maintenance_engine::resources::{
    byte_len, cpu_fields, cpu_times_from_fields, device_name, disk_usage_mb, find_mount_point,
    memory_info_from, mount_device, parse_meminfo_line, parse_status_kb, process_memory_from,
    keep_latest, read_partition_size, size_from_sys_block, thread_count_from,
    total_from_size_files, ProcessInfo,
};
use maintenance_engine::Error;

#[test]
fn test_process_info_default() {
    let info = ProcessInfo::default();
    assert_eq!(info.pid, 0);
    assert_eq!(info.thread_count, 1);
    assert_eq!(info.open_files, 0);
    assert_eq!(info.virtual_memory_bytes, 0);
    assert_eq!(info.resident_memory_bytes, 0);
    assert!(info.start_time.is_none());
}

#[test]
fn meminfo_line_second_field() {
    assert_eq!(parse_meminfo_line("MemTotal:       16384 kB"), 16384);
    assert_eq!(parse_meminfo_line("MemTotal:"), 0);
    assert_eq!(parse_meminfo_line("MemTotal: abc kB"), 0);
    assert_eq!(parse_status_kb("VmRSS:\t  2048 kB"), 2048);
}

#[test]
fn memory_from_meminfo_text() {
    let text = "MemTotal:       16384000 kB\nMemFree:         1000 kB\nMemAvailable:    8192000 kB\n";
    let (used, total) = memory_info_from(text);
    assert_eq!(total, 16000);
    assert_eq!(used, 8000);
    assert!(used <= total);
    assert_eq!(memory_info_from(""), (0, 0));
    // Available larger than total saturates at zero.
    assert_eq!(memory_info_from("MemTotal: 1024 kB\nMemAvailable: 4096 kB"), (0, 1));
}

#[test]
fn cpu_fields_from_stat() {
    let stat = "cpu  10 2 3 80 5 0 0 0 0 0\ncpu0 1 1 1 1 1 1 1\n";
    let fields = cpu_fields(stat).expect("valid stat");
    assert_eq!(fields, vec![10, 2, 3, 80, 5, 0, 0]);
    assert_eq!(cpu_times_from_fields(&fields), Some((15, 100)));
}

#[test]
fn cpu_fields_errors_and_missing_values() {
    assert_eq!(cpu_fields(""), Err(Error::Other("Empty /proc/stat".to_string())));
    assert_eq!(cpu_fields("cpu 1 2 3"), Err(Error::Other("Invalid /proc/stat format".to_string())));
    assert_eq!(cpu_fields("cpu 1 x 3 4").expect("five fields"), vec![1, 0, 3, 4, 0, 0, 0]);
    assert_eq!(cpu_times_from_fields(&vec![u64::MAX, 1, 0, 0, 0, 0, 0]), None);
}

#[test]
fn mount_point_is_longest_prefix() {
    let mounts = "/dev/sda1 / ext4 rw 0 0\n/dev/sdb1 /data ext4 rw 0 0\n/dev/sdc1 /data/deep xfs rw 0 0\ntmpfs /tmp tmpfs rw 0 0\n";
    assert_eq!(find_mount_point(mounts, "/data/deep/x"), "/data/deep");
    assert_eq!(find_mount_point(mounts, "/data/other"), "/data");
    assert_eq!(find_mount_point(mounts, "/home/u"), "/");
    assert_eq!(find_mount_point("", "/x"), "/");
}

#[test]
fn device_for_mount_point() {
    let mounts = "/dev/sda1 / ext4 rw 0 0\n/dev/sdb1 /data ext4 rw 0 0\n";
    assert_eq!(mount_device(mounts, "/data"), Ok("/dev/sdb1".to_string()));
    assert_eq!(
        mount_device(mounts, "/nope"),
        Err(Error::Other("No device found for mount point: /nope".to_string()))
    );
    assert_eq!(device_name("/dev/sdb1"), "sdb1");
    assert_eq!(device_name("overlay"), "overlay");
}

#[test]
fn block_sizes() {
    assert_eq!(size_from_sys_block(" 2048\n"), Some(2048 * 512));
    assert_eq!(size_from_sys_block("x"), None);
    assert_eq!(size_from_sys_block(&u64::MAX.to_string()), Some(u64::MAX));
    assert_eq!(total_from_size_files(&vec![None, Some("10\n".to_string())]), 5120);
    assert_eq!(total_from_size_files(&vec![Some("bad".to_string()), None]), 0);
    let partitions = "major minor  #blocks  name\n\n   8        0  488386584 sda\n   8        1     524288 sda1\n";
    assert_eq!(read_partition_size(partitions, "sda1"), 524288 * 1024);
    assert_eq!(read_partition_size(partitions, "sdz"), 0);
    assert_eq!(disk_usage_mb(4 * 1024 * 1024), (2, 4));
    assert_eq!(disk_usage_mb(0), (0, 0));
}

#[test]
fn process_status_figures() {
    let status = "Name:\tme\nThreads:\t7\nVmSize:\t  100 kB\nVmRSS:\t   50 kB\n";
    assert_eq!(thread_count_from(status), 7);
    assert_eq!(thread_count_from("Name: x\n"), 1);
    assert_eq!(process_memory_from(status), Some((100 * 1024, 50 * 1024)));
    assert_eq!(process_memory_from(&format!("VmSize: {} kB\n", u64::MAX)), None);
}

#[test]
fn utf8_byte_length() {
    assert_eq!(byte_len("abc"), 3);
    assert_eq!(byte_len("é"), 2);
    assert_eq!(byte_len("€"), 3);
    assert_eq!(byte_len("😀"), 4);
}

#[test]
fn keep_latest_drops_oldest() {
    let mut v = vec![1, 2, 3, 4, 5];
    keep_latest(&mut v, 3);
    assert_eq!(v, vec![3, 4, 5]);
    keep_latest(&mut v, 10);
    assert_eq!(v, vec![3, 4, 5]);
    keep_latest(&mut v, 0);
    assert!(v.is_empty());
}
