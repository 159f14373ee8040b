use zlaunch::compositor::filter::{
    describe, filter_windows, focus_target, names_launcher, passes, resolve_workspace, RawWindow,
    WindowKind,
};
use zlaunch::compositor::script::{
    escape_identity, focus_script, match_rule, script_file_path, script_object_path,
    LIST_WINDOWS_SCRIPT,
};
use zlaunch::compositor::{
    backend_name, candidate_backend, select_backend, BackendKind, CompositorError, SessionMarkers,
    Stage, WindowInfo,
};

fn raw(id: &str, caption: &str, class: &str, desktop: Option<i32>, active: bool, kind: WindowKind) -> RawWindow {
    RawWindow {
        id: id.to_string(),
        caption: caption.to_string(),
        resource_class: class.to_string(),
        desktop,
        active,
        kind,
    }
}

#[test]
fn every_excluded_category_is_dropped() {
    let windows = vec![
        raw("a", "Panel", "plasmashell", Some(1), false, WindowKind::Dock),
        raw("b", "Desktop", "plasmashell", Some(1), false, WindowKind::Desktop),
        raw("c", "Note", "notify", Some(1), false, WindowKind::Notification),
        raw("d", "Loading", "app", Some(1), false, WindowKind::Splash),
        raw("e", "Menu", "app", Some(1), false, WindowKind::Popup),
        raw("f", "Save as", "app", Some(1), false, WindowKind::Dialog),
        raw("g", "Launcher", "ZLaunch", Some(1), true, WindowKind::Normal),
        raw("h", "Ghost", "", Some(1), false, WindowKind::Normal),
    ];
    for w in &windows {
        assert!(!passes(w));
    }
    assert!(filter_windows(&windows).is_empty());
}

#[test]
fn ordinary_window_passes_unchanged() {
    let windows = vec![raw("42", "Editor", "org.kde.kate", Some(3), true, WindowKind::Normal)];
    let out = filter_windows(&windows);
    assert_eq!(out.len(), 1);
    assert_eq!(out[0].address, "42");
    assert_eq!(out[0].title, "Editor");
    assert_eq!(out[0].class, "org.kde.kate");
    assert_eq!(out[0].workspace, 3);
    assert!(out[0].focused);
}

#[test]
fn launcher_window_is_filtered_from_the_example_list() {
    let windows = vec![
        raw("1", "Files", "org.gnome.Nautilus", Some(1), false, WindowKind::Normal),
        raw("2", "zlaunch", "zlaunch", Some(1), true, WindowKind::Normal),
    ];
    let out = filter_windows(&windows);
    assert_eq!(out.len(), 1);
    assert_eq!(out[0].address, "1");
    assert_eq!(out[0].title, "Files");
    assert_eq!(out[0].class, "org.gnome.Nautilus");
    assert_eq!(out[0].workspace, 1);
    assert!(!out[0].focused);
}

#[test]
fn filter_keeps_enumeration_order() {
    let windows = vec![
        raw("3", "C", "c", Some(2), false, WindowKind::Normal),
        raw("x", "Dock", "d", None, false, WindowKind::Dock),
        raw("1", "A", "a", Some(1), false, WindowKind::Normal),
        raw("2", "B", "b", None, true, WindowKind::Normal),
    ];
    let out = filter_windows(&windows);
    let ids: Vec<&str> = out.iter().map(|w| w.address.as_str()).collect();
    assert_eq!(ids, vec!["3", "1", "2"]);
}

#[test]
fn workspace_defaults_to_one() {
    assert_eq!(resolve_workspace(None), 1);
    assert_eq!(resolve_workspace(Some(0)), 1);
    assert_eq!(resolve_workspace(Some(4)), 4);
    assert_eq!(resolve_workspace(Some(-1)), -1);
    let w = describe(&raw("9", "T", "c", None, false, WindowKind::Normal));
    assert_eq!(w.workspace, 1);
}

#[test]
fn empty_caption_falls_back_to_class() {
    let w = describe(&raw("9", "", "org.kde.konsole", Some(2), false, WindowKind::Normal));
    assert_eq!(w.title, "org.kde.konsole");
    assert_eq!(w.class, "org.kde.konsole");
}

#[test]
fn launcher_class_is_recognised_in_any_case() {
    assert!(names_launcher("zlaunch"));
    assert!(names_launcher("ZLAUNCH"));
    assert!(names_launcher("zLaUnCh"));
    assert!(!names_launcher("zlaunch2"));
    assert!(!names_launcher("zlaunc"));
    assert!(!names_launcher(""));
    assert!(!names_launcher("zlaunc\u{212a}"));
}

#[test]
fn quote_and_backslash_are_escaped() {
    assert_eq!(escape_identity("{abc-123}"), "{abc-123}");
    assert_eq!(escape_identity("a'b"), "a\\'b");
    assert_eq!(escape_identity("a\\b"), "a\\\\b");
    assert_eq!(escape_identity("a\"b"), "a\\\"b");
    assert_eq!(escape_identity("a\nb\r"), "a\\nb\\r");
    assert_eq!(escape_identity("'; workspace.activeWindow = null; '"), "\\'; workspace.activeWindow = null; \\'");
    assert_eq!(escape_identity(""), "");
}

#[test]
fn focus_script_embeds_the_escaped_identity() {
    let script = focus_script("it's");
    assert!(script.starts_with("(function() {\n    var targetId = 'it\\'s';\n    var windows = workspace.windowList();"));
    assert!(script.ends_with("})();\n"));
    assert!(script.contains("workspace.activeWindow = windows[i];"));
    let plain = focus_script("{1f}");
    assert!(plain.contains("var targetId = '{1f}';"));
}

#[test]
fn list_script_prints_a_json_array() {
    assert!(LIST_WINDOWS_SCRIPT.contains("print(JSON.stringify(result));"));
    assert!(LIST_WINDOWS_SCRIPT.contains("toLowerCase() === 'zlaunch'"));
}

#[test]
fn script_addresses_are_exact() {
    assert_eq!(script_file_path(Some("/run/user/1000"), 4711), "/run/user/1000/zlaunch-kwin-script-4711.js");
    assert_eq!(script_file_path(None, 0), "/tmp/zlaunch-kwin-script-0.js");
    assert_eq!(script_object_path(0), "/Scripting/Script0");
    assert_eq!(script_object_path(17), "/Scripting/Script17");
    assert_eq!(script_object_path(i32::MAX), "/Scripting/Script2147483647");
    assert_eq!(
        match_rule("/Scripting/Script17"),
        "type='signal',sender='org.kde.KWin',path='/Scripting/Script17',interface='org.kde.kwin.Script',member='print'"
    );
}

fn info(id: &str) -> WindowInfo {
    WindowInfo {
        address: id.to_string(),
        title: "t".to_string(),
        class: "c".to_string(),
        workspace: 1,
        focused: false,
    }
}

#[test]
fn focus_of_an_absent_identity_has_no_target() {
    let windows = vec![info("1"), info("2"), info("2")];
    assert_eq!(focus_target(&windows, "3"), None);
    assert_eq!(focus_target(&windows, ""), None);
    assert_eq!(focus_target(&windows, "1"), Some(0));
    assert_eq!(focus_target(&windows, "2"), Some(1));
    assert_eq!(focus_target(&Vec::new(), "1"), None);
}

#[test]
fn backend_needs_marker_and_probe() {
    let kde = SessionMarkers { kde_session: true };
    let other = SessionMarkers { kde_session: false };
    assert_eq!(candidate_backend(kde), Some(BackendKind::Kwin));
    assert_eq!(candidate_backend(other), None);
    assert_eq!(select_backend(kde, true), Some(BackendKind::Kwin));
    assert_eq!(select_backend(kde, false), None);
    assert_eq!(select_backend(other, true), None);
    assert_eq!(select_backend(other, false), None);
    assert_eq!(backend_name(BackendKind::Kwin), "KWin");
}

#[test]
fn every_error_has_a_message() {
    assert_eq!(CompositorError::TempFile.message(), "Failed to write temp script file");
    assert_eq!(CompositorError::ScriptRejected(-1).message(), "KWin returned invalid script ID");
    assert_eq!(CompositorError::BusCall(Stage::LoadScript).message(), "Failed to load KWin script");
    assert_eq!(CompositorError::BusCall(Stage::AddMatch).message(), "Failed to add D-Bus match rule");
    assert_eq!(CompositorError::BusCall(Stage::Run).message(), "Failed to run KWin script");
    assert_eq!(CompositorError::Timeout.message(), "No output from KWin script (timeout or no windows)");
    assert_eq!(CompositorError::Payload.message(), "Failed to parse KWin window list JSON");
}
