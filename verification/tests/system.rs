use indextts_launcher::system::{summarize, SystemReadings};

#[test]
fn summary_of_readings() {
    let readings = SystemReadings {
        os_name: Some("Ubuntu".to_string()),
        cpu_brands: vec!["AMD Ryzen 9".to_string(), "AMD Ryzen 9".to_string()],
        total_memory: 64 << 30,
        available_memory: 48 << 30,
        disks: vec![(1000, 400), (2000, 500), (u64::MAX, u64::MAX)],
    };
    let summary = summarize(&readings);
    assert_eq!(summary.os, "Ubuntu");
    assert_eq!(summary.cpu_brand, "AMD Ryzen 9");
    assert_eq!(summary.cpu_cores, 2);
    assert_eq!(summary.total_memory_bytes, 64 << 30);
    assert_eq!(summary.available_memory_bytes, 48 << 30);
    assert_eq!(summary.total_disk_bytes, 3000 + u64::MAX as u128);
    assert_eq!(summary.available_disk_bytes, 900 + u64::MAX as u128);
}

#[test]
fn summary_without_readings() {
    let readings = SystemReadings {
        os_name: None,
        cpu_brands: Vec::new(),
        total_memory: 0,
        available_memory: 0,
        disks: Vec::new(),
    };
    let summary = summarize(&readings);
    assert_eq!(summary.os, "Unknown OS");
    assert_eq!(summary.cpu_brand, "Unknown CPU");
    assert_eq!(summary.cpu_cores, 0);
    assert_eq!(summary.total_disk_bytes, 0);
    assert_eq!(summary.available_disk_bytes, 0);
}
