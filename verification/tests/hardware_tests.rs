use openbatrangs::hardware::{
    calculate_memory_budget, memtotal_kibibytes, parse_kibibytes, total_memory_from_meminfo,
    total_system_memory_bytes, MemoryInfo, ProcMemoryInfo, FALLBACK_SYSTEM_MEMORY_BYTES,
};

const SAMPLE_MEMINFO: &str = "MemTotal:       16000000 kB\nMemFree:         1000000 kB\n";

struct FakeMemory(u64);

impl MemoryInfo for FakeMemory {
    fn total_memory_bytes(&self) -> u64 {
        self.0
    }
}

#[test]
fn memory_info_trait_is_mockable() {
    let fake = FakeMemory(123);
    assert_eq!(fake.total_memory_bytes(), 123);
}

#[test]
fn proc_memory_returns_positive_total() {
    let sample = ProcMemoryInfo {
        meminfo: SAMPLE_MEMINFO.to_string(),
    };
    assert!(sample.total_memory_bytes() > 0);
    let unreadable = ProcMemoryInfo {
        meminfo: String::new(),
    };
    assert!(unreadable.total_memory_bytes() > 0);
}

#[test]
fn convenience_accessor_matches_proc_source() {
    let source = ProcMemoryInfo {
        meminfo: SAMPLE_MEMINFO.to_string(),
    };
    assert_eq!(
        total_system_memory_bytes(SAMPLE_MEMINFO),
        source.total_memory_bytes()
    );
}

#[test]
fn memory_budget_is_positive_on_linux() {
    assert!(calculate_memory_budget(total_system_memory_bytes(SAMPLE_MEMINFO)) > 0);
}

#[test]
fn memory_budget_is_three_quarters() {
    assert_eq!(calculate_memory_budget(16 * 1024), 12 * 1024);
    assert_eq!(calculate_memory_budget(u64::MAX), u64::MAX / 4 * 3 + 2);
}

#[test]
fn parses_kibibytes_value() {
    assert_eq!(parse_kibibytes("12345 kB"), 12_345);
    assert_eq!(parse_kibibytes("0 kB"), 0);
    assert_eq!(parse_kibibytes("garbage"), 0);
}

#[test]
fn meminfo_total_is_read_in_bytes() {
    assert_eq!(total_memory_from_meminfo(SAMPLE_MEMINFO), 16_000_000 * 1024);
    assert_eq!(
        total_memory_from_meminfo("MemFree: 1 kB\nMemTotal: 2048 kB\n"),
        2048 * 1024
    );
    assert_eq!(total_memory_from_meminfo(""), FALLBACK_SYSTEM_MEMORY_BYTES);
    assert_eq!(
        total_memory_from_meminfo("MemTotal: lots\n"),
        FALLBACK_SYSTEM_MEMORY_BYTES
    );
    assert_eq!(memtotal_kibibytes("Other: 5 kB"), None);
}
