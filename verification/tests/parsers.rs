use mash::os_release::{parse_os_id_fallback, parse_os_release};
use mash::path::{join_path, partition_path};
use mash::procfs::{
    is_mounted_from_info, mounted_under_device, parse_mem_available_kb, parse_mountinfo,
    root_mount_source, unescape_mount_path,
};
use mash::sysfs::block::{
    canonical_disk_label, detect_transport_type, device_basename, human_size, parse_sector_bytes,
    should_skip_block_device, BlockDeviceInfo, BootTag, TransportType,
};

#[test]
fn parse_os_id_handles_name() {
    let release = "NAME=\"Fedora Linux\"\nID=fedora\n";
    assert_eq!(parse_os_id_fallback(release), Some("fedora linux".to_string()));
}

#[test]
fn parse_os_release_extracts_version_id() {
    let release = "NAME=\"Fedora Linux\"\nID=fedora\nVERSION_ID=\"43\"\n";
    let (id, version) = parse_os_release(release).unwrap();
    assert_eq!(id, "fedora");
    assert_eq!(version, Some(43));
}

#[test]
fn parse_os_release_without_id_reports_unknown() {
    let (id, version) = parse_os_release("VERSION_ID=43\n").unwrap();
    assert_eq!(id, "unknown");
    assert_eq!(version, Some(43));
}

#[test]
fn parse_os_release_lowercases_id_and_ignores_bad_version() {
    let (id, version) = parse_os_release("ID=Fedora\nVERSION_ID=rawhide\n").unwrap();
    assert_eq!(id, "fedora");
    assert_eq!(version, None);
}

#[test]
fn parse_mem_available_prefers_available() {
    let data = "MemTotal: 16384000 kB\nMemAvailable: 8000000 kB\n";
    assert_eq!(parse_mem_available_kb(data), Some(8000000));
}

#[test]
fn parse_mem_available_uses_total_when_available_missing() {
    let data = "MemTotal: 16384000 kB\n";
    assert_eq!(parse_mem_available_kb(data), Some(16384000));
}

#[test]
fn parse_mem_available_none_without_figures() {
    assert_eq!(parse_mem_available_kb("SwapTotal: 1 kB\n"), None);
}

#[test]
fn parse_mountinfo_extracts_mountpoints() {
    let sample = "36 28 0:31 / / rw,relatime - ext4 /dev/sda3 rw\n".to_string()
        + "37 28 0:32 / /boot rw,relatime - ext4 /dev/sda2 rw\n";
    let entries = parse_mountinfo(&sample);
    assert_eq!(entries.len(), 2);
    assert_eq!(entries[0].mount_point, "/");
    assert_eq!(entries[1].mount_point, "/boot");
}

#[test]
fn is_mounted_from_info_matches_paths() {
    let sample = "36 28 0:31 / / rw,relatime - ext4 /dev/sda3 rw\n";
    let entries = parse_mountinfo(sample);
    assert!(is_mounted_from_info("/", &entries));
    assert!(!is_mounted_from_info("/mnt", &entries));
}

#[test]
fn mountinfo_unescapes_paths() {
    let sample = "36 28 0:31 / /mnt/data\\040disk rw,relatime - ext4 /dev/sda3 rw\n";
    let entries = parse_mountinfo(sample);
    assert_eq!(entries[0].mount_point, "/mnt/data disk");
}

#[test]
fn unescape_handles_tab_newline_and_backslash() {
    assert_eq!(unescape_mount_path("a\\011b\\012c\\134d"), "a\tb\nc\\d");
}

#[test]
fn mounted_under_device_finds_matching_sources() {
    let mi = "36 28 0:31 / / rw,relatime - ext4 /dev/sda3 rw\n\
              37 28 0:32 / /mnt/boot rw,relatime - ext4 /dev/sda1 rw\n\
              38 28 0:33 / /mnt/other rw,relatime - ext4 /dev/sdb1 rw\n";
    let mounts = mounted_under_device(mi, "/dev/sda");
    assert_eq!(mounts, vec!["/".to_string(), "/mnt/boot".to_string()]);
}

#[test]
fn mounted_under_device_sorts_and_dedups() {
    let mi = "1 0 0:1 / /z rw - ext4 /dev/sdc1 rw\n\
              2 0 0:2 / /a rw - ext4 /dev/sdc2 rw\n\
              3 0 0:3 / /z rw - ext4 /dev/sdc1 rw\n";
    assert_eq!(mounted_under_device(mi, "/dev/sdc"), vec!["/a".to_string(), "/z".to_string()]);
}

#[test]
fn root_mount_source_extracts_device() {
    let mi = "36 28 0:31 / / rw,relatime - ext4 /dev/sda3 rw\n";
    assert_eq!(root_mount_source(mi), Some("/dev/sda3".to_string()));
}

#[test]
fn root_mount_source_none_without_root() {
    let mi = "37 28 0:32 / /boot rw,relatime - ext4 /dev/sda2 rw\n";
    assert_eq!(root_mount_source(mi), None);
}

#[test]
fn device_basename_extracts_filename() {
    assert_eq!(device_basename("/dev/sda").unwrap(), "sda".to_string());
}

#[test]
fn device_basename_rejects_root() {
    let err = device_basename("/").unwrap_err();
    assert_eq!(err.to_string(), "invalid device path /");
}

fn device(name: &str, size_bytes: u64, vendor: Option<&str>, model: Option<&str>, removable: bool) -> BlockDeviceInfo {
    BlockDeviceInfo {
        name: name.to_string(),
        dev_path: format!("/dev/{}", name),
        sysfs_path: format!("/sys/block/{}", name),
        size_bytes,
        vendor: vendor.map(|s| s.to_string()),
        model: model.map(|s| s.to_string()),
        serial: None,
        wwn: None,
        removable,
    }
}

#[test]
fn canonical_label_includes_required_parts_and_is_not_device_first() {
    let dev = device("nvme0n1", 1024 * 1024 * 1024, Some("ACME"), Some("FastDisk"), false);
    let label = canonical_disk_label(&dev, BootTag::NotBoot, None);
    assert!(!label.starts_with("/dev/"));
    assert!(label.contains("ACME FastDisk"));
    assert!(label.contains("GiB"));
    assert!(label.contains("NVMe"));
    assert!(label.contains("INTERNAL"));
    assert!(label.contains("BOOT: NO"));
}

#[test]
fn canonical_label_warns_when_sysfs_identity_missing() {
    let dev = device("sda", 1024, None, None, true);
    let label = canonical_disk_label(&dev, BootTag::Unknown, None);
    assert!(label.contains("Unknown disk"));
    assert!(label.contains("missing sysfs data"));
    assert!(label.contains("REMOVABLE"));
    assert!(label.contains("BOOT: UNKNOWN"));
}

#[test]
fn canonical_label_is_never_device_first() {
    let dev = device("sdb", 1024, Some("  /dev/sdb"), Some("x"), true);
    let label = canonical_disk_label(&dev, BootTag::NotBoot, None);
    assert!(!label.starts_with("/dev/"));
    assert!(label.starts_with("Unknown disk (1.0 KiB) - missing sysfs data ("));
}

#[test]
fn human_size_uses_binary_units_with_one_decimal() {
    assert_eq!(human_size(1024), "1.0 KiB");
    assert_eq!(human_size(1536), "1.5 KiB");
    assert_eq!(human_size(1024 * 1024 * 1024), "1.0 GiB");
    assert_eq!(human_size(512), "512 B");
}

#[test]
fn transport_detection_by_name() {
    assert!(matches!(detect_transport_type("nvme0n1", None), TransportType::Nvme));
    assert!(matches!(detect_transport_type("mmcblk0", None), TransportType::Mmc));
    assert!(matches!(detect_transport_type("sda", Some("/devices/pci/usb1/1-1")), TransportType::Usb));
}

#[test]
fn virtual_block_devices_are_skipped() {
    assert!(should_skip_block_device("loop0"));
    assert!(should_skip_block_device("ram1"));
    assert!(!should_skip_block_device("sda"));
}

#[test]
fn sector_counts_become_bytes() {
    assert_eq!(parse_sector_bytes("8\n"), Some(4096));
    assert_eq!(parse_sector_bytes("x"), None);
}

#[test]
fn partition_paths() {
    assert_eq!(partition_path("/dev/sda", 1), "/dev/sda1");
    assert_eq!(partition_path("/dev/nvme0n1", 2), "/dev/nvme0n1p2");
    assert_eq!(partition_path("/dev/mmcblk0", 3), "/dev/mmcblk0p3");
}

#[test]
fn join_path_adds_one_separator() {
    assert_eq!(join_path("/", "downloads"), "/downloads");
    assert_eq!(join_path("/mash", "downloads"), "/mash/downloads");
    assert_eq!(join_path("", "downloads"), "downloads");
}

#[test]
fn device_basename_follows_path_file_name() {
    assert_eq!(device_basename("/dev/sda").unwrap(), "sda");
    assert_eq!(device_basename("/dev/sda/").unwrap(), "sda");
    assert_eq!(device_basename("/dev/./mmcblk0/.").unwrap(), "mmcblk0");
    assert!(device_basename("/").is_err());
    assert!(device_basename("").is_err());
    assert!(device_basename("/dev/..").is_err());
    assert_eq!(
        device_basename("/dev/sda").unwrap(),
        std::path::Path::new("/dev/sda").file_name().unwrap().to_str().unwrap()
    );
}

#[test]
fn trailing_slash_does_not_change_mounted() {
    let sample = "37 28 0:32 / /boot/ rw,relatime - ext4 /dev/sda2 rw\n";
    let entries = parse_mountinfo(sample);
    assert!(is_mounted_from_info("/boot", &entries));
    assert!(is_mounted_from_info("/boot/", &entries));
    assert!(is_mounted_from_info("/boot//", &entries));
    assert!(!is_mounted_from_info("/bo", &entries));
}
