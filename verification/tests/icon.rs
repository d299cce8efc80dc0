use openusage_tray::icon::{check_icon_rgba_update, encode_png_rgba, validate_rgba_image};
use openusage_tray::text::{decimal_string, str_eq};

#[test]
fn custom_status_view_rejects_bad_rgba_size() {
    assert!(validate_rgba_image(&[0, 0, 0], 1, 1).is_err());
    assert!(validate_rgba_image(&[0, 0, 0, 0], 1, 1).is_ok());
}

#[test]
fn rgba_validation_reports_each_failure() {
    assert_eq!(
        validate_rgba_image(&[], 0, 4),
        Err("tray icon size must be non-zero".to_string())
    );
    assert_eq!(
        validate_rgba_image(&[], 3, 0),
        Err("tray icon size must be non-zero".to_string())
    );
    assert_eq!(
        validate_rgba_image(&[0; 7], 2, 1),
        Err("tray icon rgba length mismatch: got 7, expected 8".to_string())
    );
    assert_eq!(validate_rgba_image(&[0; 24], 3, 2), Ok(()));
}

#[test]
fn rgba_validation_rejects_sizes_that_overflow() {
    assert_eq!(
        validate_rgba_image(&[], u32::MAX, u32::MAX),
        Err("tray icon size is too large".to_string())
    );
}

#[test]
fn icon_update_skipped_without_custom_view() {
    assert_eq!(check_icon_rgba_update(false, &[1, 2, 3], 1, 1), Ok(false));
    assert_eq!(check_icon_rgba_update(true, &[1, 2, 3, 4], 1, 1), Ok(true));
    assert!(check_icon_rgba_update(true, &[1, 2, 3], 1, 1).is_err());
}

#[test]
fn png_encoding_writes_a_png_file() {
    let rgba = vec![255, 0, 0, 255, 0, 255, 0, 128];
    let png = encode_png_rgba(&rgba, 2, 1).expect("valid image");
    assert_eq!(&png[..8], &[137, 80, 78, 71, 13, 10, 26, 10]);
    assert!(png.len() > rgba.len());
    assert_ne!(png, rgba);
}

#[test]
fn png_encoding_reports_the_failing_stage() {
    let header = encode_png_rgba(&[], 0, 1).unwrap_err();
    assert!(header.starts_with("failed to write tray icon png header: "));
    let data = encode_png_rgba(&[0, 0, 0], 1, 1).unwrap_err();
    assert!(data.starts_with("failed to write tray icon png data: "));
}

#[test]
fn decimal_and_string_helpers() {
    assert_eq!(decimal_string(0), "0");
    assert_eq!(decimal_string(7), "7");
    assert_eq!(decimal_string(1234567890), "1234567890");
    assert_eq!(decimal_string(u64::MAX), u64::MAX.to_string());
    assert!(str_eq("tray", "tray"));
    assert!(!str_eq("tray", "trap"));
    assert!(!str_eq("tray", "tra"));
}
