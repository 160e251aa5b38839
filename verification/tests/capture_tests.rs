use base64::Engine;
use screencap::capture::{finish_capture, plan_capture, screenshot_file_path, CaptureEvent};
use screencap::encoding::png_data_url;

#[test]
fn path_has_expected_shape() {
    let p = screenshot_file_path("/tmp", 1234);
    assert_eq!(p, "/tmp/brightpal-screenshot-1234.png");
}

#[test]
fn path_with_zero_timestamp() {
    let p = screenshot_file_path("", 0);
    assert_eq!(p, "/brightpal-screenshot-0.png");
}

#[test]
fn path_with_largest_timestamp() {
    let p = screenshot_file_path("/var/tmp", u64::MAX);
    assert_eq!(p, "/var/tmp/brightpal-screenshot-18446744073709551615.png");
}

#[test]
fn unsupported_platform_is_an_error() {
    let r = plan_capture(false, "/tmp", 7);
    assert_eq!(r, Err("unsupported".to_string()));
}

#[test]
fn supported_platform_plans_a_nonempty_path() {
    let p = plan_capture(true, "/tmp", 7).unwrap();
    assert!(!p.is_empty());
    assert!(p.starts_with("/tmp/brightpal-screenshot-"));
    assert!(p.ends_with(".png"));
}

#[test]
fn cancelled_capture_is_the_empty_pair() {
    let r = finish_capture("/tmp/shot.png".to_string(), CaptureEvent::ToolFailed);
    assert_eq!(r, Ok((String::new(), String::new())));
}

#[test]
fn unreadable_output_is_the_empty_pair() {
    let r = finish_capture("/tmp/shot.png".to_string(), CaptureEvent::FileUnreadable);
    assert_eq!(r, Ok((String::new(), String::new())));
}

#[test]
fn launch_failure_is_a_descriptive_error() {
    let detail = "No such file or directory (os error 2)".to_string();
    let r = finish_capture("/tmp/shot.png".to_string(), CaptureEvent::LaunchFailed(detail));
    assert_eq!(
        r,
        Err("failed to run screencapture: No such file or directory (os error 2)".to_string())
    );
}

#[test]
fn successful_capture_returns_path_and_data_url() {
    let bytes = vec![77u8, 97, 110];
    let r = finish_capture("/tmp/shot.png".to_string(), CaptureEvent::Captured(bytes));
    let (path, url) = r.unwrap();
    assert_eq!(path, "/tmp/shot.png");
    assert_eq!(url, "data:image/png;base64,TWFu");
}

#[test]
fn data_url_pads_a_two_byte_tail() {
    let url = png_data_url(b"Ma");
    assert_eq!(url, "data:image/png;base64,TWE=");
}

#[test]
fn data_url_pads_a_one_byte_tail() {
    let url = png_data_url(b"M");
    assert_eq!(url, "data:image/png;base64,TQ==");
}

#[test]
fn data_url_of_no_bytes_is_the_bare_prefix() {
    let url = png_data_url(b"");
    assert_eq!(url, "data:image/png;base64,");
}

#[test]
fn data_url_decodes_back_to_the_bytes() {
    let bytes: Vec<u8> = (0u8..=255).collect();
    let url = png_data_url(&bytes);
    let payload = url.strip_prefix("data:image/png;base64,").unwrap();
    let decoded = base64::engine::general_purpose::STANDARD
        .decode(payload)
        .unwrap();
    assert_eq!(decoded, bytes);
}
