use xynginc::backup::{
    latest_index, new_snapshot_name, newest_first, restore_backup, restore_latest_backup, restore_plan, snapshot_dir_name,
    FileOp, RestoreError, Timestamp,
};

fn ts(year: i32, month: u32, day: u32, hour: u32, minute: u32, second: u32) -> Timestamp {
    Timestamp { year, month, day, hour, minute, second }
}

#[test]
fn snapshot_names_are_fixed_width() {
    assert_eq!(snapshot_dir_name(ts(2024, 3, 5, 7, 8, 9)), "backup_20240305_070809");
    assert_eq!(snapshot_dir_name(ts(1999, 12, 31, 23, 59, 59)), "backup_19991231_235959");
    assert_eq!(snapshot_dir_name(ts(812, 1, 1, 0, 0, 0)), "backup_08120101_000000");
    assert_eq!(snapshot_dir_name(ts(12345, 1, 1, 0, 0, 0)), "backup_+123450101_000000");
    assert_eq!(snapshot_dir_name(ts(-1, 1, 1, 0, 0, 0)), "backup_-00010101_000000");
}

#[test]
fn new_snapshot_name_has_timestamp_shape() {
    let name = new_snapshot_name();
    assert!(name.starts_with("backup_"));
    assert_eq!(name.len(), "backup_20240305_070809".len());
    assert_eq!(&name[15..16], "_");
}

#[test]
fn latest_is_lexicographic_maximum() {
    let ids = vec![
        "backup_20240101_000000".to_string(),
        "backup_20240301_000000".to_string(),
        "backup_20240201_000000".to_string(),
    ];
    assert_eq!(latest_index(&ids), Some(1));
    assert_eq!(restore_latest_backup(&ids).unwrap(), "backup_20240301_000000");
    assert_eq!(restore_latest_backup(&vec![]).unwrap_err(), "No backups available");
    assert_eq!(latest_index(&vec![]), None);
}

#[test]
fn restore_resolves_named_and_latest() {
    let ids = vec!["backup_20240101_000000".to_string(), "backup_20240102_000000".to_string()];
    assert_eq!(restore_backup("latest", &ids).unwrap(), "backup_20240102_000000");
    assert_eq!(restore_backup("backup_20240101_000000", &ids).unwrap(), "backup_20240101_000000");
    assert!(matches!(restore_backup("backup_1", &ids), Err(RestoreError::NotFound { ref id }) if id == "backup_1"));
    assert!(matches!(restore_backup("latest", &vec![]), Err(RestoreError::NoBackups)));
}

#[test]
fn restore_plan_clears_then_copies() {
    let current = vec!["new.example.com".to_string(), "a.example.com".to_string()];
    let available = vec!["a.example.com".to_string(), "default".to_string()];
    let enabled = vec!["a.example.com".to_string()];
    let plan = restore_plan(&current, &available, &enabled);
    let text: Vec<String> = plan
        .iter()
        .map(|op| match op {
            FileOp::RemoveEnabled { name } => format!("rm {}", name),
            FileOp::CopyAvailable { name } => format!("av {}", name),
            FileOp::CopyEnabled { name } => format!("en {}", name),
        })
        .collect();
    assert_eq!(text, vec!["rm new.example.com", "rm a.example.com", "av a.example.com", "av default", "en a.example.com"]);
}

#[test]
fn snapshots_sort_newest_first() {
    let ids = vec![
        "backup_20240101_000000".to_string(),
        "backup_20240301_000000".to_string(),
        "backup_20240201_120000".to_string(),
        "backup_20240201_000000".to_string(),
        "backup_20240301_000000".to_string(),
    ];
    assert_eq!(
        newest_first(&ids),
        vec![
            "backup_20240301_000000".to_string(),
            "backup_20240301_000000".to_string(),
            "backup_20240201_120000".to_string(),
            "backup_20240201_000000".to_string(),
            "backup_20240101_000000".to_string(),
        ]
    );
    assert!(newest_first(&vec![]).is_empty());
    assert_eq!(newest_first(&vec!["b".to_string(), "ab".to_string(), "a".to_string()]), vec!["b", "ab", "a"]);
}
