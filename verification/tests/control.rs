use warp_pane_activity::control::{
    capabilities, ensure_action_allowed, ensure_control_access_allowed,
    ensure_control_runtime_enabled, ensure_feature_enabled, ensure_protocol_version,
    ensure_settings_allow_action, ActionKind, ControlError, ErrorCode, PROTOCOL_VERSION,
};

#[test]
fn protocol_version_matches() {
    assert_eq!(ensure_protocol_version(PROTOCOL_VERSION), Ok(()));
}

#[test]
fn protocol_version_mismatch_is_refused_with_version_in_message() {
    let err = ensure_protocol_version(PROTOCOL_VERSION + 41).unwrap_err();
    assert_eq!(err.code, ErrorCode::ProtocolVersionUnsupported);
    assert_eq!(
        err.message,
        format!("unsupported protocol version {}", PROTOCOL_VERSION + 41)
    );
    assert_eq!(err.details, None);
    let err = ensure_protocol_version(0).unwrap_err();
    assert_eq!(err.message, "unsupported protocol version 0");
}

#[test]
fn feature_flag_gates_control_cli() {
    assert_eq!(ensure_feature_enabled(true), Ok(()));
    let err = ensure_feature_enabled(false).unwrap_err();
    assert_eq!(err.code, ErrorCode::LocalControlDisabled);
    assert_eq!(err.message, "Warp control CLI is disabled by feature flag");
}

#[test]
fn control_runtime_needs_cli_or_mcp() {
    assert_eq!(ensure_control_runtime_enabled(true, false), Ok(()));
    assert_eq!(ensure_control_runtime_enabled(false, true), Ok(()));
    let err = ensure_control_runtime_enabled(false, false).unwrap_err();
    assert_eq!(
        err,
        ControlError {
            code: ErrorCode::LocalControlDisabled,
            message: "Warp control is disabled".to_owned(),
            details: None,
        }
    );
}

#[test]
fn control_access_needs_local_control_or_mcp() {
    assert_eq!(
        ensure_control_access_allowed(true, false, ActionKind::BlockRead),
        Ok(())
    );
    assert_eq!(
        ensure_action_allowed(false, true, ActionKind::BlockRead),
        Ok(())
    );
    let err = ensure_action_allowed(false, false, ActionKind::PaneSplit).unwrap_err();
    assert_eq!(err.code, ErrorCode::LocalControlDisabled);
    assert_eq!(
        err.message,
        "pane.split is disabled for local control and the built-in Warp MCP server"
    );
}

#[test]
fn settings_alone_decide_action() {
    assert_eq!(ensure_settings_allow_action(true, ActionKind::TabList), Ok(()));
    let err = ensure_settings_allow_action(false, ActionKind::TabList).unwrap_err();
    assert_eq!(
        err.message,
        "tab.list is disabled for local control and the built-in Warp MCP server"
    );
}

#[test]
fn action_names_round_trip() {
    for kind in ActionKind::all() {
        assert_eq!(ActionKind::from_name(kind.as_str()), Some(kind));
    }
    assert_eq!(ActionKind::from_name("window.list"), Some(ActionKind::WindowList));
    assert_eq!(ActionKind::from_name("input.send_keys"), Some(ActionKind::InputSendKeys));
    assert_eq!(ActionKind::from_name("window.lis"), None);
    assert_eq!(ActionKind::from_name(""), None);
}

#[test]
fn capabilities_are_the_implemented_actions() {
    let caps = capabilities();
    assert_eq!(caps, ActionKind::all());
    assert_eq!(caps.len(), 13);
}

#[test]
fn control_error_constructors() {
    let e = ControlError::with_details(ErrorCode::Internal, "a".to_owned(), "b".to_owned());
    assert_eq!(e.details, Some("b".to_owned()));
    let e = ControlError::new(ErrorCode::MissingTarget, "m".to_owned());
    assert_eq!(e.details, None);
    assert_eq!(e.code, ErrorCode::MissingTarget);
}
