use akagi::runtime::{
    bot_stamp_path, bot_venv_dir, bundled_paths, current_signature, needs_sync, try_bundled,
    venv_python, PythonRuntime, RuntimeError, RuntimeMode,
};

#[test]
fn venv_python_path_per_platform() {
    let venv = "/foo/.akagi/venv";
    let p = venv_python(venv, true);
    assert!(p.ends_with("Scripts/python.exe") || p.ends_with("Scripts\\python.exe"));
    let p = venv_python(venv, false);
    assert!(p.ends_with("bin/python"));
}

#[test]
fn ensure_synced_bails_when_pyproject_missing() {
    let err = needs_sync("/tmp/bot", false, false, None, "v1|1:2|0:0").unwrap_err();
    assert!(err.message().contains("pyproject.toml missing"), "unexpected error: {err:?}");
}

#[test]
fn signature_includes_lock_when_present() {
    let no_lock = current_signature((100, 20), None);
    let with_lock = current_signature((100, 20), Some((101, 11)));
    assert_ne!(no_lock, with_lock);
}

#[test]
fn signature_changes_when_pyproject_changes() {
    let s1 = current_signature((1_700_000_000, 20), None);
    let s2 = current_signature((1_700_000_001, 20), None);
    assert_ne!(s1, s2, "signature must change after pyproject edit");
}

#[test]
fn stamp_round_trip() {
    let current = current_signature((5, 6), Some((7, 8)));
    assert!(!needs_sync("/b", true, true, Some(current.as_str()), current.as_str()).unwrap());
    assert!(needs_sync("/b", true, true, Some("v1|xyz"), current.as_str()).unwrap());
    assert!(needs_sync("/b", true, true, None, current.as_str()).unwrap());
}

#[test]
fn try_bundled_returns_none_when_runtime_dir_empty() {
    let paths = bundled_paths("/res", "x86_64-unknown-linux-gnu", false);
    assert!(try_bundled(paths, false, false).is_none());
}

// ---- further cases ----

#[test]
fn signature_text_format() {
    assert_eq!(current_signature((1700000000, 42), None), "v1|1700000000:42|0:0");
    assert_eq!(current_signature((0, 0), Some((9, 10))), "v1|0:0|9:10");
}

#[test]
fn stamp_whitespace_is_trimmed() {
    let current = "v1|1:2|0:0";
    assert!(!needs_sync("/b", true, true, Some("v1|1:2|0:0\n"), current).unwrap());
    // Without the venv a sync is needed whatever the stamp says.
    assert!(needs_sync("/b", true, false, Some("v1|1:2|0:0"), current).unwrap());
}

#[test]
fn bundled_layout_per_platform() {
    let (py, uv) = bundled_paths("/res", "x86_64-unknown-linux-gnu", false);
    assert_eq!(py, "/res/runtime/python/x86_64-unknown-linux-gnu/bin/python3");
    assert_eq!(uv, "/res/runtime/uv/x86_64-unknown-linux-gnu/uv");
    let (py, uv) = bundled_paths("C:/res/", "x86_64-pc-windows-msvc", true);
    assert_eq!(py, "C:/res/runtime/python/x86_64-pc-windows-msvc/python.exe");
    assert_eq!(uv, "C:/res/runtime/uv/x86_64-pc-windows-msvc/uv.exe");
    let rt = try_bundled(bundled_paths("/res", "t", false), true, true).unwrap();
    assert_eq!(rt.mode(), RuntimeMode::Bundled);
    assert_eq!(rt.python(), "/res/runtime/python/t/bin/python3");
}

#[test]
fn locate_prefers_bundled_then_system() {
    let bundled = PythonRuntime::from_paths("/b/py".into(), "/b/uv".into(), RuntimeMode::Bundled);
    let rt = PythonRuntime::locate(Some(bundled), Some("/usr/bin/python3".into()), Some("/usr/bin/uv".into())).unwrap();
    assert_eq!(rt.mode(), RuntimeMode::Bundled);
    assert_eq!(rt.uv(), "/b/uv");
    let rt = PythonRuntime::locate(None, Some("/usr/bin/python3".into()), Some("/usr/bin/uv".into())).unwrap();
    assert_eq!(rt.mode(), RuntimeMode::System);
    assert_eq!(rt.python(), "/usr/bin/python3");
    let err = PythonRuntime::locate(None, Some("/usr/bin/python3".into()), None).unwrap_err();
    assert_eq!(err, RuntimeError::NoRuntime);
    assert!(err.message().contains("neither `python3` nor `uv`"));
}

#[test]
fn bot_dirs() {
    assert_eq!(bot_venv_dir("/bots/mortal"), "/bots/mortal/.akagi/venv");
    assert_eq!(bot_stamp_path("/bots/mortal/"), "/bots/mortal/.akagi/synced.stamp");
    assert_eq!(venv_python("/v", true), "/v/Scripts/python.exe");
}

#[test]
fn saved_stamp_is_compared_without_surrounding_white_space() {
    let current = "v1|10:20|0:0";
    assert!(!needs_sync("/b", true, true, Some("  v1|10:20|0:0\n"), current).unwrap());
    assert!(!needs_sync("/b", true, true, Some("\u{3000}v1|10:20|0:0\u{a0}\t"), current).unwrap());
    assert!(needs_sync("/b", true, true, Some("v1|10:20|0:0 x"), current).unwrap());
}
