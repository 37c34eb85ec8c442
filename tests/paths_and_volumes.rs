use betterhesi::paths::{join_path, trim_trailing_slash};
use betterhesi::volumes::{drive_letter_roots, get_available_drives, VolumeProbe};

#[test]
fn join_path_inserts_one_separator() {
    assert_eq!(join_path("/tmp/stage", "a.zip"), "/tmp/stage/a.zip");
    assert_eq!(join_path("", "x"), "/x");
}

#[test]
fn trim_trailing_slash_drops_one() {
    assert_eq!(trim_trailing_slash("/game/content/cars/"), "/game/content/cars");
    assert_eq!(trim_trailing_slash("/game"), "/game");
    assert_eq!(trim_trailing_slash(""), "");
    assert_eq!(trim_trailing_slash("a//"), "a/");
}

#[test]
fn drive_letter_roots_cover_a_to_z() {
    let roots = drive_letter_roots();
    assert_eq!(roots.len(), 26);
    assert_eq!(roots[0], "A:\\");
    assert_eq!(roots[2], "C:\\");
    assert_eq!(roots[25], "Z:\\");
}

#[test]
fn available_drives_keep_probed_roots_in_order() {
    let probes = vec![
        VolumeProbe { path: "/mnt".to_string(), available: true },
        VolumeProbe { path: "/lost".to_string(), available: false },
        VolumeProbe { path: "/home".to_string(), available: true },
    ];
    assert_eq!(get_available_drives(&probes), vec!["/mnt".to_string(), "/home".to_string()]);
}

#[test]
fn available_drives_of_nothing_is_empty() {
    assert!(get_available_drives(&Vec::new()).is_empty());
    let probes = vec![VolumeProbe { path: "D:\\".to_string(), available: false }];
    assert!(get_available_drives(&probes).is_empty());
}
