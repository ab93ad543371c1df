//! The choice of the EGL vendor.
use ronsole::egl::{
    is_nvidia_vendor, parse_egl_vendor_preference, preferred_egl_vendor_path, EglVendorPreference,
    MESA_EGL_VENDOR, NVIDIA_EGL_VENDOR,
};

#[test]
fn egl_vendor_preference_parser_is_conservative() {
    assert_eq!(parse_egl_vendor_preference(None), EglVendorPreference::Auto);
    assert_eq!(parse_egl_vendor_preference(Some(" AUTO ")), EglVendorPreference::Auto);
    assert_eq!(parse_egl_vendor_preference(Some("nViDiA")), EglVendorPreference::Nvidia);
    assert_eq!(parse_egl_vendor_preference(Some("mesa")), EglVendorPreference::Mesa);
    assert_eq!(parse_egl_vendor_preference(Some("system")), EglVendorPreference::System);
    assert_eq!(parse_egl_vendor_preference(Some("unknown")), EglVendorPreference::System);
}

#[test]
fn egl_vendor_auto_only_forces_nvidia_when_detected() {
    assert_eq!(
        preferred_egl_vendor_path(EglVendorPreference::Auto, true),
        Some(NVIDIA_EGL_VENDOR)
    );
    assert_eq!(preferred_egl_vendor_path(EglVendorPreference::Auto, false), None);
    assert_eq!(
        preferred_egl_vendor_path(EglVendorPreference::Mesa, true),
        Some(MESA_EGL_VENDOR)
    );
    assert_eq!(preferred_egl_vendor_path(EglVendorPreference::System, true), None);
}

#[test]
fn vendor_number_is_read_without_regard_to_case() {
    assert!(is_nvidia_vendor("0x10DE\n"));
    assert!(!is_nvidia_vendor("0x1002\n"));
    assert!(!is_nvidia_vendor(""));
}
