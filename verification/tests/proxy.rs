use akagi::bridge::Direction;
use akagi::capture::decode_payload;
use akagi::inspector::{FrameDirection, FrameRaw};
use akagi::proxy::{
    ping_reply,
    ca_file_name, ca_files_to_write, CaContent,
    binary_frame_raw, flow_log_file_name, flow_number, frame_direction, frame_tag,
    inspector_flow_label, uri_path_slug,
};

#[test]
fn slug_keeps_gateway_path() {
    assert_eq!(uri_path_slug("/game-gateway"), "game-gateway");
}

#[test]
fn slug_of_root_and_empty_path_is_root() {
    assert_eq!(uri_path_slug("/"), "root");
    assert_eq!(uri_path_slug(""), "root");
    assert_eq!(uri_path_slug("///"), "root");
}

#[test]
fn slug_trims_slashes_and_replaces_other_chars() {
    assert_eq!(uri_path_slug("//ws/zone 1?x=é//"), "ws_zone_1_x__");
    assert_eq!(uri_path_slug("a_B-9"), "a_B-9");
}

#[test]
fn flow_numbers_are_six_wide() {
    assert_eq!(flow_number(0), "000000");
    assert_eq!(flow_number(7), "000007");
    assert_eq!(flow_number(123456), "123456");
    assert_eq!(flow_number(1234567), "1234567");
}

#[test]
fn flow_log_name_joins_number_and_slug() {
    assert_eq!(flow_log_file_name(3, "/game-gateway-zone"), "000003-game-gateway-zone.log");
    assert_eq!(flow_log_file_name(42, "/"), "000042-root.log");
}

#[test]
fn inspector_label_uses_last_handed_out_number() {
    assert_eq!(inspector_flow_label("majsoul", 1), "majsoul:000000");
    assert_eq!(inspector_flow_label("majsoul", 0), "majsoul:000000");
    assert_eq!(inspector_flow_label("tenhou", 13), "tenhou:000012");
}

#[test]
fn frame_tags_and_directions() {
    assert_eq!(frame_tag(Direction::Up), 0);
    assert_eq!(frame_tag(Direction::Down), 1);
    assert_eq!(frame_direction(Direction::Up), FrameDirection::Up);
    assert_eq!(frame_direction(Direction::Down), FrameDirection::Down);
}

#[test]
fn binary_frames_are_base64_and_decode_back() {
    let raw = binary_frame_raw(&[1u8, 2, 3, 250]);
    assert_eq!(raw, FrameRaw::Binary("AQID+g==".to_string()));
    match raw {
        FrameRaw::Binary(text) => {
            assert_eq!(decode_payload(&text), Some(vec![1u8, 2, 3, 250]));
        }
        FrameRaw::Text(_) => panic!("expected a binary frame"),
    }
    assert_eq!(binary_frame_raw(&[]), FrameRaw::Binary(String::new()));
}

#[test]
fn new_ca_writes_every_file() {
    let (reuse, files) = ca_files_to_write(&vec![false; 6]);
    assert!(!reuse);
    assert_eq!(
        files,
        vec![
            ("cer", CaContent::CertPem),
            ("crt", CaContent::CertPem),
            ("pem", CaContent::CertPem),
            ("der", CaContent::CertDer),
            ("key", CaContent::KeyPem),
            ("key.der", CaContent::KeyDer),
        ]
    );
    assert_eq!(ca_file_name("key.der"), "akagi-ca.key.der");
}

#[test]
fn reused_ca_back_fills_missing_formats() {
    // cer and key exist, so the CA is reused; crt and der are missing.
    let (reuse, files) = ca_files_to_write(&vec![true, false, true, false, true, true]);
    assert!(reuse);
    assert_eq!(files, vec![("crt", CaContent::CertPem), ("der", CaContent::CertDer)]);
    // Without the key the CA is generated anew and every file rewritten.
    let (reuse, files) = ca_files_to_write(&vec![true, true, true, true, false, true]);
    assert!(!reuse);
    assert_eq!(files.len(), 6);
}

#[test]
fn ping_is_answered_by_the_proxy() {
    assert_eq!(ping_reply("/ping"), Some("pong"));
    assert_eq!(ping_reply("/ping/"), None);
    assert_eq!(ping_reply("/game-gateway"), None);
}
