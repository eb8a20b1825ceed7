use crosswatch_auth::launch::{
    browser_candidates, choose_browser, sync_command, sync_result, window_args, DEFAULT_HEIGHT,
    DEFAULT_WIDTH,
};

fn list(items: &[&str]) -> Vec<String> {
    items.iter().map(|s| s.to_string()).collect()
}

#[test]
fn window_defaults_to_520_by_720() {
    assert_eq!(DEFAULT_WIDTH, 520);
    assert_eq!(DEFAULT_HEIGHT, 720);
    assert_eq!(
        window_args("https://simkl.com/pin", None, None),
        list(&["--new-window", "--window-size=520,720", "https://simkl.com/pin"])
    );
}

#[test]
fn window_takes_the_given_size() {
    assert_eq!(
        window_args("u", Some(800), None),
        list(&["--new-window", "--window-size=800,720", "u"])
    );
    assert_eq!(
        window_args("u", Some(0), Some(u32::MAX)),
        list(&["--new-window", "--window-size=0,4294967295", "u"])
    );
}

#[test]
fn browsers_in_order_of_preference() {
    assert_eq!(
        browser_candidates(Some("C:\\PF86"), Some("C:\\PF")),
        list(&[
            "C:\\PF86\\Microsoft\\Edge\\Application\\msedge.exe",
            "C:\\PF\\Microsoft\\Edge\\Application\\msedge.exe",
            "C:\\PF86\\Google\\Chrome\\Application\\chrome.exe",
            "C:\\PF\\Google\\Chrome\\Application\\chrome.exe",
        ])
    );
    assert_eq!(
        browser_candidates(None, Some("C:\\PF")),
        list(&[
            "C:\\PF\\Microsoft\\Edge\\Application\\msedge.exe",
            "C:\\PF\\Google\\Chrome\\Application\\chrome.exe",
        ])
    );
    assert_eq!(browser_candidates(None, None), list(&[]));
}

#[test]
fn first_installed_browser_is_chosen() {
    assert_eq!(choose_browser(&vec![false, true, true, false]), Some(1));
    assert_eq!(choose_browser(&vec![true]), Some(0));
    assert_eq!(choose_browser(&vec![false, false]), None);
    assert_eq!(choose_browser(&vec![]), None);
}

#[test]
fn sync_runs_the_script_with_one_directive() {
    assert_eq!(
        sync_command(),
        (
            "python".to_string(),
            list(&["resources/python/plex_simkl_watchlist_sync.py", "--sync"])
        )
    );
}

#[test]
fn sync_failure_names_the_exit_code() {
    assert_eq!(sync_result(true, Some(0)), Ok(()));
    assert_eq!(sync_result(true, None), Ok(()));
    assert_eq!(sync_result(false, Some(1)), Err("Sync script failed with Some(1)".to_string()));
    assert_eq!(sync_result(false, Some(-2)), Err("Sync script failed with Some(-2)".to_string()));
    assert_eq!(sync_result(false, None), Err("Sync script failed with None".to_string()));
}
