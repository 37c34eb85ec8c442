use betterhesi::resolver::{
    candidate_directory, find_game_directory, get_desktop_directory, get_temp_directory,
    is_game_directory, marker_path, FirstMatch, ResolveError, SearchStatus,
};

#[test]
fn no_match_on_any_volume_is_not_found() {
    let outcomes = vec![None, None, None];
    assert_eq!(find_game_directory(&outcomes), Err(ResolveError::NotFound));
    assert_eq!(find_game_directory(&Vec::new()), Err(ResolveError::NotFound));
}

#[test]
fn single_match_wins_wherever_it_stands() {
    let m = "/mnt/a/b/c/steamapps/common/assettocorsa".to_string();
    for k in 0..4 {
        let mut outcomes = vec![None, None, None, None];
        outcomes[k] = Some(m.clone());
        assert_eq!(find_game_directory(&outcomes), Ok(m.clone()));
    }
}

#[test]
fn first_completed_match_wins() {
    let outcomes = vec![None, Some("/b/x".to_string()), Some("/a/x".to_string())];
    assert_eq!(find_game_directory(&outcomes), Ok("/b/x".to_string()));
}

#[test]
fn search_resolves_early_and_waits_for_all_walks_otherwise() {
    let mut s = FirstMatch::new(3);
    assert_eq!(s.status(), SearchStatus::Pending);
    s.report(None);
    assert_eq!(s.status(), SearchStatus::Pending);
    s.report(Some("/d/g".to_string()));
    assert_eq!(s.status(), SearchStatus::Found("/d/g".to_string()));
    assert!(!s.is_complete());
    s.report(Some("/e/g".to_string()));
    assert_eq!(s.status(), SearchStatus::Found("/d/g".to_string()));
    assert!(s.is_complete());
    let mut t = FirstMatch::new(2);
    t.report(None);
    t.report(None);
    assert_eq!(t.status(), SearchStatus::NotFound);
}

#[test]
fn candidate_and_marker_paths() {
    assert_eq!(
        candidate_directory("/mnt/games", "steamapps/common/assettocorsa"),
        "/mnt/games/steamapps/common/assettocorsa"
    );
    assert_eq!(marker_path("/g", "acs.exe"), "/g/acs.exe");
}

#[test]
fn game_directory_needs_directory_and_marker() {
    assert!(is_game_directory(true, true));
    assert!(!is_game_directory(true, false));
    assert!(!is_game_directory(false, true));
    assert!(!is_game_directory(false, false));
}

#[test]
fn desktop_directory_from_home() {
    assert_eq!(
        get_desktop_directory("HOME", Some("/home/u".to_string()), "/"),
        Ok("/home/u/Desktop".to_string())
    );
    assert_eq!(
        get_desktop_directory("HOME", Some("/home/u/".to_string()), "/"),
        Ok("/home/u/Desktop".to_string())
    );
    assert_eq!(get_desktop_directory("HOME", Some(String::new()), "/"), Ok("Desktop".to_string()));
    assert_eq!(
        get_desktop_directory("USERPROFILE", Some("C:\\Users\\u".to_string()), "\\"),
        Ok("C:\\Users\\u\\Desktop".to_string())
    );
    assert_eq!(
        get_desktop_directory("USERPROFILE", Some("C:\\Users\\u\\".to_string()), "\\"),
        Ok("C:\\Users\\u\\Desktop".to_string())
    );
    let e = get_desktop_directory("HOME", None, "/");
    assert_eq!(e, Err(ResolveError::MissingVariable("HOME".to_string())));
    assert_eq!(e.unwrap_err().message(), "HOME environment variable not found");
}

#[test]
fn temp_directory_from_platform_value() {
    assert_eq!(get_temp_directory(Some("/tmp".to_string())), Ok("/tmp".to_string()));
    assert_eq!(get_temp_directory(None), Err(ResolveError::TempUnavailable));
    assert_eq!(ResolveError::TempUnavailable.message(), "Failed to obtain temporary directory path");
}
