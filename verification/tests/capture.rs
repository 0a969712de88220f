use base64::Engine;
use autodesk::{encode_frame, frame_payload, greet, primary_monitor_index, str_equal, ScreenCapture};

#[test]
fn start_stop_capture() {
    let mut c = ScreenCapture::new();
    assert!(!c.is_capturing());
    assert_eq!(c.start_capture(), Ok(()));
    assert!(c.is_capturing());
    assert_eq!(c.start_capture(), Err("Capture is already running".to_string()));
    assert!(c.is_capturing());
    c.stop_capture();
    assert!(!c.is_capturing());
    assert_eq!(c.start_capture(), Ok(()));
}

#[test]
fn primary_monitor_is_first_reporting_primary() {
    assert_eq!(primary_monitor_index(&vec![]), None);
    assert_eq!(primary_monitor_index(&vec![Some(false), None]), None);
    assert_eq!(primary_monitor_index(&vec![None, Some(true), Some(true)]), Some(1));
    assert_eq!(primary_monitor_index(&vec![Some(true)]), Some(0));
}

#[test]
fn frame_payload_is_base64() {
    assert_eq!(frame_payload(&b"Man".to_vec()), "TWFu");
    assert_eq!(frame_payload(&b"Ma".to_vec()), "TWE=");
    assert_eq!(frame_payload(&b"M".to_vec()), "TQ==");
    assert_eq!(frame_payload(&vec![]), "");
    assert_eq!(frame_payload(&vec![0xff, 0xfe, 0x3e, 0x00]), "//4+AA==");
}

#[test]
fn rgba_frame_encoding() {
    let frame = encode_frame(2, 2, vec![255, 0, 0, 255, 0, 255, 0, 255, 0, 0, 255, 255, 9, 9, 9, 0])
        .expect("a valid frame is encoded");
    let jpeg = base64::engine::general_purpose::STANDARD.decode(frame.as_bytes()).unwrap();
    assert_eq!(&jpeg[..2], &[0xFF, 0xD8]);
    assert_eq!(&jpeg[jpeg.len() - 2..], &[0xFF, 0xD9]);
    assert_eq!(frame_payload(&jpeg), frame);
    assert!(encode_frame(1, 1, vec![255, 0, 0, 255]).is_some());
    // Too few bytes for the stated size.
    assert_eq!(encode_frame(2, 2, vec![0; 3]), None);
    // Extra bytes beyond the pixels are ignored.
    assert!(encode_frame(1, 1, vec![1, 2, 3, 4, 5, 6]).is_some());
    // The JPEG encoder refuses an empty image and sides above 65535.
    assert_eq!(encode_frame(0, 0, vec![]), None);
    assert_eq!(encode_frame(0, 5, vec![0; 16]), None);
    assert_eq!(encode_frame(65536, 1, vec![0; 4 * 65536]), None);
    assert!(encode_frame(65535, 1, vec![0; 4 * 65535]).is_some());
}

#[test]
fn greeting_text() {
    assert_eq!(greet("Ann"), "Hello, Ann! You've been greeted from Rust!");
    assert_eq!(greet(""), "Hello, ! You've been greeted from Rust!");
}

#[test]
fn string_equality() {
    assert!(str_equal("abc", "abc"));
    assert!(!str_equal("abc", "abd"));
    assert!(!str_equal("ab", "abc"));
    assert!(str_equal("", ""));
    assert!(str_equal("中文", "中文"));
}
