use disk_watchdog::percentage::Percentage;
use disk_watchdog::storage::{check_storage, select_volume, storage_percentage, Volume};

fn volume(mount_point: &str, total: u64, available: u64) -> Volume {
    Volume {
        name: format!("/dev/disk-at{}", mount_point),
        mount_point: mount_point.to_string(),
        total,
        available,
    }
}

#[test]
fn the_volume_under_the_base_directory_is_measured() {
    let volumes = vec![volume("/boot", 10, 1), volume("/data", 1_000, 150)];
    assert_eq!(select_volume(&volumes, "/data/archive"), Some(1));
    assert_eq!(
        storage_percentage(&volumes, "/data/archive"),
        Some(Percentage { total: 1_000, available: 150 })
    );
}

#[test]
fn the_first_match_wins_over_a_longer_one() {
    let volumes = vec![volume("/boot", 10, 1), volume("/", 100, 50), volume("/data", 1_000, 5)];
    assert_eq!(select_volume(&volumes, "/data/archive"), Some(1));
    assert_eq!(
        storage_percentage(&volumes, "/data/archive"),
        Some(Percentage { total: 100, available: 50 })
    );

    let volumes = vec![volume("/data", 1_000, 5), volume("/", 100, 50)];
    assert_eq!(select_volume(&volumes, "/data/archive"), Some(0));
    assert_eq!(
        storage_percentage(&volumes, "/data/archive"),
        Some(Percentage { total: 1_000, available: 5 })
    );
}

#[test]
fn no_volume_under_the_base_directory_gives_none() {
    let volumes = vec![volume("/boot", 10, 1), volume("/data", 1_000, 150)];
    assert_eq!(select_volume(&volumes, "/home/user"), None);
    assert_eq!(storage_percentage(&volumes, "/home/user"), None);
    assert_eq!(storage_percentage(&volumes, "data"), None);
    assert_eq!(storage_percentage(&volumes, "/dat"), None);
}

#[test]
fn no_volume_at_all_gives_none() {
    let volumes: Vec<Volume> = Vec::new();
    assert_eq!(select_volume(&volumes, "/data"), None);
    assert_eq!(storage_percentage(&volumes, "/data"), None);
}

#[test]
fn the_mount_point_is_matched_as_text() {
    let volumes = vec![volume("/data", 1_000, 150)];
    assert_eq!(select_volume(&volumes, "/data"), Some(0));
    assert_eq!(select_volume(&volumes, "/database/tables"), Some(0));
    assert_eq!(select_volume(&volumes, "/Data"), None);
}

#[test]
fn of_two_volumes_at_one_mount_point_the_first_is_measured() {
    let volumes = vec![volume("/data", 1_000, 150), volume("/data", 2_000, 900)];
    assert_eq!(
        storage_percentage(&volumes, "/data/x"),
        Some(Percentage { total: 1_000, available: 150 })
    );
}

#[test]
fn the_name_of_a_volume_plays_no_part() {
    let mut first = volume("/boot", 10, 1);
    let mut second = volume("/data", 1_000, 150);
    first.name = "/dev/sda1".to_string();
    second.name = "/dev/sda1".to_string();
    let volumes = vec![first, second];
    assert_eq!(
        storage_percentage(&volumes, "/data/x"),
        Some(Percentage { total: 1_000, available: 150 })
    );
}

#[test]
fn a_volume_without_capacity_is_still_chosen() {
    let volumes = vec![volume("/", 0, 0), volume("/data", 1_000, 150)];
    assert_eq!(storage_percentage(&volumes, "/data"), Some(Percentage { total: 0, available: 0 }));
}

#[test]
fn check_storage_finds_no_volume_for_a_path_that_none_can_hold() {
    assert_eq!(check_storage(""), None);
    assert_eq!(check_storage("\u{0}nowhere"), None);
}

#[test]
fn check_storage_holds_on_to_the_capacity_of_the_root_volume() {
    if let Some(share) = check_storage("/") {
        let again = check_storage("/").unwrap();
        assert_eq!(again.total, share.total);
    }
}
