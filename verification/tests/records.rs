use tuxbox::tool_state::{load_from, ToolState, VenvState};

#[test]
fn record_round_trip_with_venv() {
    // Writing a record and loading it from the same directory (the venv
    // still existing) yields field-equal data.
    let state = ToolState::for_venv(
        "/home/u/.tuxbox/tools/sshmenuc/venv".to_string(),
        "python3.9".to_string(),
    );
    let text = state.render();
    let back = ToolState::parse(text.as_str()).expect("round trip parses");
    assert_eq!(back.version, "1");
    assert_eq!(back.method, "venv");
    let venv = back.venv.expect("venv block survives");
    assert_eq!(venv.path, "/home/u/.tuxbox/tools/sshmenuc/venv");
    assert_eq!(venv.python, "python3.9");
}

#[test]
fn record_round_trip_without_venv() {
    let state = ToolState {
        version: "1".to_string(),
        method: "docker".to_string(),
        venv: None,
    };
    let back = ToolState::parse(state.render().as_str()).expect("round trip parses");
    assert_eq!(back.version, "1");
    assert_eq!(back.method, "docker");
    assert!(back.venv.is_none());
}

#[test]
fn rendered_record_is_the_expected_text() {
    let state = ToolState::for_venv("/v".to_string(), "python3".to_string());
    assert_eq!(
        state.render(),
        "version = \"1\"\nmethod = \"venv\"\n\n[venv]\npath = \"/v\"\npython = \"python3\"\n"
    );
}

#[test]
fn missing_record_file_reads_as_absent() {
    assert!(load_from(None, true).is_none());
}

#[test]
fn malformed_record_reads_as_absent() {
    assert!(ToolState::parse("").is_none());
    assert!(ToolState::parse("not a record at all").is_none());
    assert!(ToolState::parse("version = \"1\"\n").is_none());
    assert!(load_from(Some("version = 1\nmethod = venv\n"), true).is_none());
}

#[test]
fn vanished_venv_directory_reads_as_absent() {
    let state = ToolState::for_venv("/gone/venv".to_string(), "python3".to_string());
    let text = state.render();
    // The file parses, but the recorded directory no longer exists.
    assert!(load_from(Some(text.as_str()), false).is_none());
    // With the directory still there the record loads.
    let loaded = load_from(Some(text.as_str()), true).expect("valid record loads");
    assert_eq!(loaded.method, "venv");
}

#[test]
fn record_without_venv_ignores_directory_check() {
    let state = ToolState {
        version: "1".to_string(),
        method: "bash".to_string(),
        venv: None,
    };
    let text = state.render();
    assert!(load_from(Some(text.as_str()), false).is_some());
}

#[test]
fn validate_drops_only_stale_venvs() {
    let with_venv = ToolState::for_venv("/v".to_string(), "p".to_string());
    assert!(with_venv.validate(false).is_none());
    let with_venv = ToolState::for_venv("/v".to_string(), "p".to_string());
    assert!(with_venv.validate(true).is_some());
    let state = ToolState {
        version: "1".to_string(),
        method: "docker".to_string(),
        venv: Some(VenvState { path: "/v".to_string(), python: "p".to_string() }),
    };
    assert!(state.validate(false).is_none());
}
