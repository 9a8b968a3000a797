use v_voice::shell::{
    log_event, log_file_path, menu_action, rotated_log_path, webview_arguments, MenuAction,
    LOG_MAX_BYTES,
};

#[test]
fn the_session_log_has_one_predecessor() {
    assert_eq!(log_file_path().parts, vec!["logs", "session.log"]);
    assert_eq!(rotated_log_path().parts, vec!["logs", "session.log.1"]);
}

#[test]
fn a_large_log_is_rotated() {
    assert_eq!(LOG_MAX_BYTES, 2_097_152);
    assert!(!log_event("x", None).rotate);
    assert!(!log_event("x", Some(0)).rotate);
    assert!(!log_event("x", Some(2_097_152)).rotate);
    assert!(log_event("x", Some(2_097_153)).rotate);
}

#[test]
fn a_log_entry_is_a_line() {
    assert_eq!(log_event("started", None).entry, "started\n");
    assert_eq!(log_event("", Some(9)).entry, "\n");
}

#[test]
fn the_log_does_not_grow_without_bound() {
    let mut size: u64 = 0;
    for _ in 0..50 {
        let entry = "y".repeat(100_000);
        let step = log_event(&entry, Some(size));
        if step.rotate {
            size = 0;
        }
        size += step.entry.len() as u64;
        assert!(size <= LOG_MAX_BYTES + 100_001);
    }
}

#[test]
fn menu_entries_act_by_their_ids() {
    assert!(menu_action("show_hide") == MenuAction::ShowHide);
    assert!(menu_action("settings") == MenuAction::OpenSettings);
    assert!(menu_action("quit") == MenuAction::Quit);
    assert!(menu_action("other") == MenuAction::Ignore);
}

#[test]
fn browser_arguments_are_added_to() {
    let ours = "--autoplay-policy=no-user-gesture-required --use-fake-ui-for-media-stream";
    assert_eq!(webview_arguments(""), ours);
    assert_eq!(webview_arguments("--lang=vi"), format!("--lang=vi {}", ours));
}
