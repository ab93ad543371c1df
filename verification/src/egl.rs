//! Which EGL vendor library the graphics loader is pointed at.
use vstd::prelude::*;

use crate::text;

verus! {

/// The vendor file of the proprietary driver.
pub const NVIDIA_EGL_VENDOR: &'static str = "/usr/share/glvnd/egl_vendor.d/10_nvidia.json";

/// The vendor file of Mesa.
pub const MESA_EGL_VENDOR: &'static str = "/usr/share/glvnd/egl_vendor.d/50_mesa.json";

/// The vendor that the user asked for.
#[derive(Clone, Copy, Debug, PartialEq, Eq, Structural)]
pub enum EglVendorPreference {
    /// The proprietary driver where its hardware is there, else the choice of the system.
    Auto,
    /// The choice of the system.
    System,
    /// The proprietary driver.
    Nvidia,
    /// Mesa.
    Mesa,
}

/// The preference that a setting names, without regard to case and to white space around it. No
/// setting means `Auto`; one that names nothing means `System`.
pub open spec fn egl_preference(raw: Option<Seq<char>>) -> EglVendorPreference {
    match raw {
        None => EglVendorPreference::Auto,
        Some(chars) => {
            let name = text::trimmed(chars);
            if text::same_but_case(name, "auto"@) {
                EglVendorPreference::Auto
            } else if text::same_but_case(name, "nvidia"@) {
                EglVendorPreference::Nvidia
            } else if text::same_but_case(name, "mesa"@) {
                EglVendorPreference::Mesa
            } else {
                EglVendorPreference::System
            }
        },
    }
}

/// Reads the preference of the user.
pub fn parse_egl_vendor_preference(raw: Option<&str>) -> (preference: EglVendorPreference)
    ensures
        preference == egl_preference(
            match raw {
                Some(value) => Some(value@),
                None => None,
            },
        ),
{
    match raw {
        None => EglVendorPreference::Auto,
        Some(value) => {
            let chars = text::chars_of(value);
            let name = text::trim(chars.as_slice());
            let auto = text::chars_of("auto");
            let nvidia = text::chars_of("nvidia");
            let mesa = text::chars_of("mesa");
            if text::equals_ignoring_case(name, auto.as_slice()) {
                EglVendorPreference::Auto
            } else if text::equals_ignoring_case(name, nvidia.as_slice()) {
                EglVendorPreference::Nvidia
            } else if text::equals_ignoring_case(name, mesa.as_slice()) {
                EglVendorPreference::Mesa
            } else {
                EglVendorPreference::System
            }
        },
    }
}

/// The vendor file to force: that of the proprietary driver where it is asked for, or where nothing
/// is and the hardware is there, that of Mesa where it is asked for.
pub fn preferred_egl_vendor_path(
    preference: EglVendorPreference,
    nvidia_present: bool,
) -> (path: Option<&'static str>)
    ensures
        match preference {
            EglVendorPreference::System => path is None,
            EglVendorPreference::Nvidia => path is Some && path->0@ == NVIDIA_EGL_VENDOR@,
            EglVendorPreference::Mesa => path is Some && path->0@ == MESA_EGL_VENDOR@,
            EglVendorPreference::Auto => if nvidia_present {
                path is Some && path->0@ == NVIDIA_EGL_VENDOR@
            } else {
                path is None
            },
        },
{
    match preference {
        EglVendorPreference::System => None,
        EglVendorPreference::Nvidia => Some(NVIDIA_EGL_VENDOR),
        EglVendorPreference::Mesa => Some(MESA_EGL_VENDOR),
        EglVendorPreference::Auto => if nvidia_present {
            Some(NVIDIA_EGL_VENDOR)
        } else {
            None
        },
    }
}

/// Whether the vendor number of a graphics device is that of NVIDIA.
pub fn is_nvidia_vendor(vendor: &str) -> (is_nvidia: bool)
    ensures
        is_nvidia == text::same_but_case(text::trimmed(vendor@), "0x10de"@),
{
    let chars = text::chars_of(vendor);
    let number = text::chars_of("0x10de");
    text::equals_ignoring_case(text::trim(chars.as_slice()), number.as_slice())
}

/// Without a wish for a vendor, nothing is forced on a machine without NVIDIA hardware, and the
/// choice of the system is never overridden where it is asked for.
pub proof fn system_choice_is_kept(raw: Option<Seq<char>>)
    requires
        raw matches Some(chars) ==> !text::same_but_case(text::trimmed(chars), "nvidia"@)
            && !text::same_but_case(text::trimmed(chars), "mesa"@),
    ensures
        egl_preference(raw) is Auto || egl_preference(raw) is System,
{
}

} // verus!
