use window_privacy::capture::{
    apply_capture_protection, capture_attribute_writes, capture_write_failure, dwm_write,
    sharing_type_for, sharing_type_raw, AttributeWrite, DwmCaptureState, SharingType,
    CLOAK_ATTRIBUTE, EXCLUDED_FROM_PEEK_ATTRIBUTE,
};
use window_privacy::controller::{
    set_screen_capture_protection, set_taskbar_visibility, CaptureCommand, VisibilityCommand,
};
use window_privacy::platform::Platform;
use window_privacy::visibility::{
    activation_policy_for, activation_policy_raw, taskbar_ex_style, ActivationPolicy,
    APP_WINDOW_STYLE, TOOL_WINDOW_STYLE,
};

#[test]
fn capture_plan_attempts_load_bearing_write_first() {
    let writes = capture_attribute_writes(true);
    assert_eq!(writes.len(), 2);
    assert_eq!(writes[0].attribute, EXCLUDED_FROM_PEEK_ATTRIBUTE);
    assert_eq!(writes[0].value, 1);
    assert!(writes[0].load_bearing);
    assert_eq!(writes[1].attribute, CLOAK_ATTRIBUTE);
    assert_eq!(writes[1].value, 1);
    assert!(!writes[1].load_bearing);
}

#[test]
fn capture_plan_clears_both_attributes_on_disable() {
    let writes = capture_attribute_writes(false);
    assert_eq!(writes.len(), 2);
    assert_eq!(writes[0].attribute, EXCLUDED_FROM_PEEK_ATTRIBUTE);
    assert_eq!(writes[0].value, 0);
    assert!(writes[0].load_bearing);
    assert_eq!(writes[1].attribute, CLOAK_ATTRIBUTE);
    assert_eq!(writes[1].value, 0);
    assert!(!writes[1].load_bearing);
}

#[test]
fn best_effort_cloak_failure_is_swallowed() {
    let mut state = DwmCaptureState { excluded_from_peek: 0, cloak: 7 };
    let result = apply_capture_protection(&mut state, true, None, Some("cloak unsupported"));
    assert!(result.is_ok());
    assert_eq!(state.excluded_from_peek, 1);
    assert_eq!(state.cloak, 7);
}

#[test]
fn load_bearing_failure_keeps_os_error_text() {
    let mut state = DwmCaptureState { excluded_from_peek: 0, cloak: 0 };
    let result = apply_capture_protection(&mut state, true, Some("X"), None);
    let message = result.unwrap_err();
    assert!(message.contains("X"));
    assert_eq!(message, "Failed to exclude from capture: X");
    // The best-effort write was not attempted as a substitute.
    assert_eq!(state, DwmCaptureState { excluded_from_peek: 0, cloak: 0 });
}

#[test]
fn include_failure_message_wording() {
    let message = capture_write_failure(false, "access denied");
    assert_eq!(message, "Failed to include in capture: access denied");
}

#[test]
fn capture_protection_is_idempotent_on_the_model() {
    let mut once = DwmCaptureState { excluded_from_peek: 0, cloak: 3 };
    let mut twice = DwmCaptureState { excluded_from_peek: 0, cloak: 3 };
    for enabled in [true, false] {
        assert!(apply_capture_protection(&mut once, enabled, None, None).is_ok());
        assert!(apply_capture_protection(&mut twice, enabled, None, None).is_ok());
        assert!(apply_capture_protection(&mut twice, enabled, None, None).is_ok());
        assert_eq!(once, twice);
    }
}

#[test]
fn dwm_write_leaves_untracked_attributes_alone() {
    let mut state = DwmCaptureState { excluded_from_peek: 4, cloak: 5 };
    let write = AttributeWrite { attribute: 99, value: 1, load_bearing: false };
    dwm_write(&mut state, &write);
    assert_eq!(state, DwmCaptureState { excluded_from_peek: 4, cloak: 5 });
}

#[test]
fn disabling_capture_restores_read_only_sharing() {
    let sharing = sharing_type_for(false);
    assert_eq!(sharing, SharingType::ReadOnly);
    assert_ne!(sharing, SharingType::ReadWrite);
    assert_eq!(sharing_type_raw(sharing), 1);
}

#[test]
fn enabling_capture_blocks_all_sharing() {
    let sharing = sharing_type_for(true);
    assert_eq!(sharing, SharingType::NoSharing);
    assert_eq!(sharing_type_raw(sharing), 0);
}

#[test]
fn windows_capture_command_carries_the_write_plan() {
    let command = set_screen_capture_protection(Platform::Windows, true).unwrap();
    match command {
        CaptureCommand::DwmWrites(writes) => {
            assert_eq!(writes, capture_attribute_writes(true));
        }
        other => panic!("unexpected command: {:?}", other),
    }
}

#[test]
fn macos_capture_command_sets_sharing() {
    let command = set_screen_capture_protection(Platform::MacOs, false).unwrap();
    match command {
        CaptureCommand::SetSharing(sharing) => assert_eq!(sharing, SharingType::ReadOnly),
        other => panic!("unexpected command: {:?}", other),
    }
}

#[test]
fn unsupported_platform_refuses_capture_protection() {
    let error = set_screen_capture_protection(Platform::Unsupported, true).unwrap_err();
    assert!(error.contains("not supported"));
    assert_eq!(error, "Screen capture protection is not supported on this platform");
    let error = set_screen_capture_protection(Platform::Unsupported, false).unwrap_err();
    assert_eq!(error, "Screen capture protection is not supported on this platform");
}

#[test]
fn unsupported_platform_refuses_taskbar_visibility() {
    let error = set_taskbar_visibility(Platform::Unsupported, false).unwrap_err();
    assert!(error.contains("not supported"));
    assert_eq!(error, "Taskbar visibility control is not supported on this platform");
}

#[test]
fn hiding_from_taskbar_toggles_both_style_bits_together() {
    let mask: usize = 0x12345678;
    let hidden = taskbar_ex_style(mask, false);
    assert_eq!(hidden & TOOL_WINDOW_STYLE, TOOL_WINDOW_STYLE);
    assert_eq!(hidden & APP_WINDOW_STYLE, 0);
    assert_eq!(
        hidden & !(TOOL_WINDOW_STYLE | APP_WINDOW_STYLE),
        mask & !(TOOL_WINDOW_STYLE | APP_WINDOW_STYLE)
    );
}

#[test]
fn showing_in_taskbar_toggles_both_style_bits_together() {
    let mask: usize = 0x12345678 | TOOL_WINDOW_STYLE;
    let shown = taskbar_ex_style(mask, true);
    assert_eq!(shown & APP_WINDOW_STYLE, APP_WINDOW_STYLE);
    assert_eq!(shown & TOOL_WINDOW_STYLE, 0);
    assert_eq!(
        shown & !(TOOL_WINDOW_STYLE | APP_WINDOW_STYLE),
        mask & !(TOOL_WINDOW_STYLE | APP_WINDOW_STYLE)
    );
}

#[test]
fn taskbar_style_update_is_idempotent() {
    for visible in [true, false] {
        let mask: usize = 0xdeadbeef;
        let once = taskbar_ex_style(mask, visible);
        let twice = taskbar_ex_style(once, visible);
        assert_eq!(once, twice);
    }
}

#[test]
fn activation_policy_values_match_the_native_constants() {
    let regular = activation_policy_for(true);
    assert_eq!(regular, ActivationPolicy::Regular);
    assert_eq!(activation_policy_raw(regular), 0);
    let accessory = activation_policy_for(false);
    assert_eq!(accessory, ActivationPolicy::Accessory);
    assert_eq!(activation_policy_raw(accessory), 1);
}

#[test]
fn windows_visibility_command_requests_style_rewrite() {
    let command = set_taskbar_visibility(Platform::Windows, false).unwrap();
    assert_eq!(command, VisibilityCommand::UpdateWindowStyle { visible: false });
}

#[test]
fn macos_visibility_command_sets_activation_policy() {
    let command = set_taskbar_visibility(Platform::MacOs, true).unwrap();
    assert_eq!(
        command,
        VisibilityCommand::SetActivationPolicy(ActivationPolicy::Regular)
    );
}
