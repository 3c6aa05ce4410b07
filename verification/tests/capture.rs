use akagi::bridge::Direction;
use akagi::capture::{binary_frame_bytes, decode_payload, diff_pages, route_ws_event, CdpWsEvent, FlowAction, FlowKey};
use akagi::capture::{LaunchAction, LaunchChoice, LaunchError, LaunchEvent, LaunchStage};
use akagi::capture::{capture_status_label, CaptureDescriptor, CaptureKind, ChromiumBackend, ChromiumConfig};

fn set(v: &[&str]) -> Vec<String> {
    v.iter().map(|s| s.to_string()).collect()
}

#[test]
fn diff_adds_and_removes() {
    let prev = set(&["a", "b", "c"]);
    let current = set(&["b", "c", "d"]);
    let (adds, removes) = diff_pages(&prev, &current);
    let mut adds = adds;
    let mut removes = removes;
    adds.sort();
    removes.sort();
    assert_eq!(adds, vec!["d"]);
    assert_eq!(removes, vec!["a"]);
}

#[test]
fn diff_empty_when_unchanged() {
    let s = set(&["x", "y"]);
    let (adds, removes) = diff_pages(&s, &s);
    assert!(adds.is_empty());
    assert!(removes.is_empty());
}

#[test]
fn diff_initial_subscribe() {
    let prev: Vec<String> = Vec::new();
    let current = set(&["a", "b"]);
    let (adds, removes) = diff_pages(&prev, &current);
    let mut adds = adds;
    adds.sort();
    assert_eq!(adds, vec!["a", "b"]);
    assert!(removes.is_empty());
}

#[test]
fn decode_payload_ok() {
    // "hello" in standard base64.
    assert_eq!(decode_payload("aGVsbG8="), Some(b"hello".to_vec()));
}

#[test]
fn decode_payload_bad() {
    assert_eq!(decode_payload("not-base64-!@#"), None);
}

// ---- further cases ----

#[test]
fn diff_reconciles_to_current() {
    let prev = set(&["p1", "p2", "p3"]);
    let current = set(&["p3", "p4"]);
    let (adds, removes) = diff_pages(&prev, &current);
    let mut after: Vec<String> = prev.into_iter().filter(|p| !removes.contains(p)).collect();
    after.extend(adds);
    after.sort();
    assert_eq!(after, vec!["p3", "p4"]);
}

#[test]
fn flow_keys_compare_by_both_parts() {
    let a = FlowKey { target: "t".into(), request: "1".into() };
    let b = FlowKey { target: "t".into(), request: "2".into() };
    assert_ne!(a, b);
    assert_eq!(a.clone(), a);
}

#[test]
fn decode_binary_payload() {
    assert_eq!(decode_payload("AAECA2g="), Some(vec![0, 1, 2, 3, 0x68]));
    assert_eq!(decode_payload(""), Some(Vec::new()));
}

#[test]
fn configured_browser_is_launched_when_present() {
    let (mut c, a) = LaunchChoice::start("/usr/bin/chromium".to_string(), false);
    assert_eq!(a, LaunchAction::CheckConfigured { path: "/usr/bin/chromium".to_string() });
    assert_eq!(c.on_event(LaunchEvent::Exists(true)), LaunchAction::Launch { path: "/usr/bin/chromium".to_string() });
    let (mut c, _) = LaunchChoice::start("/nope".to_string(), false);
    assert_eq!(
        c.on_event(LaunchEvent::Exists(false)),
        LaunchAction::Fail { error: LaunchError::ConfiguredMissing { path: "/nope".to_string() } }
    );
}

#[test]
fn installed_cft_is_preferred() {
    let (mut c, a) = LaunchChoice::start(String::new(), false);
    assert_eq!(a, LaunchAction::FindInstalledCft);
    assert_eq!(c.on_event(LaunchEvent::Found(Some("/cft/chrome".to_string()))), LaunchAction::Launch { path: "/cft/chrome".to_string() });
    assert_eq!(c.stage, LaunchStage::Decided);
}

#[test]
fn failed_install_falls_back_to_system_browser_unless_forced() {
    let (mut c, _) = LaunchChoice::start(String::new(), false);
    assert_eq!(c.on_event(LaunchEvent::Found(None)), LaunchAction::InstallCft);
    assert_eq!(c.on_event(LaunchEvent::Installed { failure: Some("offline".to_string()) }), LaunchAction::FindInstalledCft);
    assert_eq!(c.on_event(LaunchEvent::Found(None)), LaunchAction::DetectSystemBrowser);
    assert_eq!(c.on_event(LaunchEvent::Detected(Some("/usr/bin/google-chrome".to_string()))), LaunchAction::Launch { path: "/usr/bin/google-chrome".to_string() });

    let (mut forced, _) = LaunchChoice::start(String::new(), true);
    forced.on_event(LaunchEvent::Found(None));
    assert_eq!(
        forced.on_event(LaunchEvent::Installed { failure: Some("offline".to_string()) }),
        LaunchAction::Fail { error: LaunchError::CftInstallFailed { cause: "offline".to_string() } }
    );
}

#[test]
fn forced_cft_missing_after_install_fails() {
    let (mut c, _) = LaunchChoice::start(String::new(), true);
    c.on_event(LaunchEvent::Found(None));
    assert_eq!(c.on_event(LaunchEvent::Installed { failure: None }), LaunchAction::FindInstalledCft);
    assert_eq!(c.on_event(LaunchEvent::Found(None)), LaunchAction::Fail { error: LaunchError::CftMissingAfterInstall });
}

#[test]
fn nothing_to_launch_is_an_error() {
    let (mut c, _) = LaunchChoice::start(String::new(), false);
    c.on_event(LaunchEvent::Found(None));
    c.on_event(LaunchEvent::Installed { failure: None });
    c.on_event(LaunchEvent::Found(None));
    assert_eq!(c.on_event(LaunchEvent::Detected(None)), LaunchAction::Fail { error: LaunchError::NoBrowser });
}

#[test]
fn only_binary_frames_reach_the_bridge() {
    assert_eq!(binary_frame_bytes(2, "AQID"), Some(vec![1u8, 2, 3]));
    assert_eq!(binary_frame_bytes(1, "AQID"), None);
    assert_eq!(binary_frame_bytes(2, "not base64!"), None);
}

fn key(request: &str) -> FlowKey {
    FlowKey { target: "T1".to_string(), request: request.to_string() }
}

#[test]
fn page_ws_events_are_routed_to_their_flow() {
    assert_eq!(
        route_ws_event("T1", CdpWsEvent::Created { request: "r1".into(), url: "wss://game/ws".into() }),
        FlowAction::Open { key: key("r1"), label: "ws wss://game/ws".to_string() }
    );
    assert_eq!(
        route_ws_event("T1", CdpWsEvent::Received { request: "r1".into(), opcode: 2, payload_b64: "AQID".into() }),
        FlowAction::Parse { key: key("r1"), direction: Direction::Down, bytes: vec![1, 2, 3] }
    );
    assert_eq!(
        route_ws_event("T1", CdpWsEvent::Sent { request: "r1".into(), opcode: 2, payload_b64: "AQID".into() }),
        FlowAction::Parse { key: key("r1"), direction: Direction::Up, bytes: vec![1, 2, 3] }
    );
    assert_eq!(
        route_ws_event("T1", CdpWsEvent::Received { request: "r1".into(), opcode: 1, payload_b64: "AQID".into() }),
        FlowAction::Skip
    );
    assert_eq!(
        route_ws_event("T1", CdpWsEvent::Sent { request: "r1".into(), opcode: 2, payload_b64: "%%".into() }),
        FlowAction::Skip
    );
    assert_eq!(route_ws_event("T1", CdpWsEvent::Closed { request: "r1".into() }), FlowAction::Close { key: key("r1") });
}

fn chromium_cfg(executable: &str, force_cft: bool) -> ChromiumConfig {
    ChromiumConfig {
        executable: executable.to_string(),
        user_data_dir: String::new(),
        cft_channel: "stable".to_string(),
        force_cft,
    }
}

#[test]
fn chromium_descriptor_labels_auto_detect_without_executable() {
    let b = ChromiumBackend::new(chromium_cfg("", false));
    let d = b.descriptor();
    assert_eq!(d.kind, CaptureKind::Chromium);
    assert_eq!(d.label, "auto-detect");
    assert_eq!(capture_status_label(&d, "127.0.0.1:23410"), "chromium (auto-detect)");
}

#[test]
fn chromium_descriptor_labels_the_configured_executable() {
    let b = ChromiumBackend::new(chromium_cfg("/usr/bin/chromium", true));
    let d = b.descriptor();
    assert_eq!(d.label, "/usr/bin/chromium");
    assert_eq!(capture_status_label(&d, "ignored"), "chromium (/usr/bin/chromium)");
    let (choice, action) = b.launch_choice();
    assert!(choice.force_cft);
    assert_eq!(choice.stage, LaunchStage::CheckingConfigured);
    assert_eq!(action, LaunchAction::CheckConfigured { path: "/usr/bin/chromium".to_string() });
}

#[test]
fn mitm_status_label_is_the_proxy_address() {
    let d = CaptureDescriptor { kind: CaptureKind::Mitm, label: "x".to_string() };
    assert_eq!(capture_status_label(&d, "127.0.0.1:23410"), "127.0.0.1:23410");
    assert_eq!(CaptureKind::Mitm.as_str(), "mitm");
    assert_eq!(CaptureKind::Chromium.as_str(), "chromium");
}
