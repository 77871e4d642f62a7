use gbf_pake::linux_env::{
    contains_niri, is_disabled_env_value, is_non_empty_env_value, linux_webkit_env_plan,
    should_enable_linux_webkit_safe_mode_from_values, should_force_wayland_gdk_backend,
    WebkitEnvPlan,
};

#[test]
fn linux_webkit_safe_mode_stays_on_by_default() {
    assert!(should_enable_linux_webkit_safe_mode_from_values(
        None,
        None,
        &[None, None, None]
    ));
}

#[test]
fn linux_webkit_safe_mode_is_disabled_for_niri_socket() {
    assert!(!should_enable_linux_webkit_safe_mode_from_values(
        None,
        Some("/run/user/501/niri.sock"),
        &[None, None, None]
    ));
}

#[test]
fn linux_webkit_safe_mode_is_disabled_for_niri_desktop() {
    assert!(!should_enable_linux_webkit_safe_mode_from_values(
        None,
        None,
        &[Some("niri"), None, None]
    ));
}

#[test]
fn linux_webkit_safe_mode_can_be_forced_on_for_niri() {
    assert!(should_enable_linux_webkit_safe_mode_from_values(
        Some("1"),
        Some("/run/user/501/niri.sock"),
        &[Some("niri"), None, None]
    ));
}

#[test]
fn linux_webkit_safe_mode_can_be_disabled_explicitly() {
    for value in ["0", "false", "off", "no", "native", "disabled"] {
        assert!(
            !should_enable_linux_webkit_safe_mode_from_values(
                Some(value),
                None,
                &[None, None, None]
            ),
            "expected {value} to disable safe mode"
        );
    }
}

#[test]
fn forces_wayland_backend_on_pure_wayland() {
    assert!(should_force_wayland_gdk_backend(
        None,
        Some("wayland-0"),
        None
    ));
}

#[test]
fn forces_wayland_backend_when_display_is_blank() {
    assert!(should_force_wayland_gdk_backend(
        None,
        Some("wayland-0"),
        Some("   ")
    ));
}

#[test]
fn keeps_default_backend_when_x11_display_present() {
    assert!(!should_force_wayland_gdk_backend(
        None,
        Some("wayland-0"),
        Some(":0")
    ));
}

#[test]
fn keeps_default_backend_without_wayland_display() {
    assert!(!should_force_wayland_gdk_backend(None, None, None));
}

#[test]
fn respects_explicit_gdk_backend_override() {
    assert!(!should_force_wayland_gdk_backend(
        Some("x11"),
        Some("wayland-0"),
        None
    ));
}

#[test]
fn disabled_values_ignore_case_and_white_space() {
    assert!(is_disabled_env_value("  OFF\t"));
    assert!(is_disabled_env_value("Disabled"));
    assert!(!is_disabled_env_value("1"));
    assert!(!is_disabled_env_value(""));
    assert!(!is_disabled_env_value("nope"));
}

#[test]
fn non_empty_values_are_not_blank() {
    assert!(!is_non_empty_env_value(None));
    assert!(!is_non_empty_env_value(Some("")));
    assert!(!is_non_empty_env_value(Some(" \t\u{3000}")));
    assert!(is_non_empty_env_value(Some(" x ")));
}

#[test]
fn niri_is_found_as_a_whole_list_item() {
    assert!(contains_niri("niri"));
    assert!(contains_niri("GNOME:Niri"));
    assert!(contains_niri("a;b,NIRI c"));
    assert!(!contains_niri("niri-session"));
    assert!(!contains_niri("gnome"));
    assert!(!contains_niri(""));
    assert!(contains_niri("x::niri"));
}

#[test]
fn blank_safe_mode_falls_back_to_session_detection() {
    assert!(!should_enable_linux_webkit_safe_mode_from_values(
        Some("  "),
        None,
        &[None, Some("GNOME:niri"), None]
    ));
    assert!(should_enable_linux_webkit_safe_mode_from_values(
        Some(""),
        Some("   "),
        &[Some("GNOME")]
    ));
}

#[test]
fn webkit_env_plan_cases() {
    assert_eq!(
        linux_webkit_env_plan(Some("off"), None, &[None], false, false),
        WebkitEnvPlan::RemoveBoth
    );
    assert_eq!(
        linux_webkit_env_plan(None, Some("/run/niri.sock"), &[None], false, false),
        WebkitEnvPlan::Leave
    );
    assert_eq!(
        linux_webkit_env_plan(None, None, &[None], true, false),
        WebkitEnvPlan::SetUnset { dmabuf: false, compositing: true }
    );
    assert_eq!(
        linux_webkit_env_plan(Some("1"), Some("/run/niri.sock"), &[Some("niri")], false, false),
        WebkitEnvPlan::SetUnset { dmabuf: true, compositing: true }
    );
}
