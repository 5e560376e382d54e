use tuxbox::python::{
    decide_venv_action, detect_python, find_python_for_version, get_venv_executable,
    python_candidates, remediation_message, resolve_python, u32_to_string,
    versioned_python_name, PyenvEntry, VenvAction,
};
use tuxbox::selfupdate::{
    check_update_decision, get_platform_asset_name, parse_version, pick_asset, UpdateCheck,
};
use tuxbox::version::min_required_python;
use tuxbox::error::TuxBoxError;

#[test]
fn test_min_required_python() {
    assert_eq!(min_required_python(">=3.8"), Some((3, 8)));
    assert_eq!(min_required_python("^3.9"), Some((3, 9)));
    assert_eq!(min_required_python("~3.8"), Some((3, 8)));
    assert_eq!(min_required_python("3.8"), Some((3, 8)));
    assert_eq!(min_required_python(">=3.8,<4.0"), Some((3, 8)));
    assert_eq!(min_required_python(">=3.8,<3.10"), Some((3, 8)));
}

#[test]
fn min_required_python_edge_cases() {
    assert_eq!(min_required_python(""), None);
    assert_eq!(min_required_python("<4.0"), None);
    assert_eq!(min_required_python("not a version"), None);
    assert_eq!(min_required_python(">=3.8,>=3.11"), Some((3, 11)));
    assert_eq!(min_required_python(">=3.11,>=3.8"), Some((3, 11)));
    assert_eq!(min_required_python("3.8.17"), Some((3, 8)));
    assert_eq!(min_required_python(" >=3.9 , <4.0 "), Some((3, 9)));
}

#[test]
fn test_parse_version() {
    assert_eq!(parse_version("v1.2.3").unwrap(), "1.2.3");
    assert_eq!(parse_version("1.2.3").unwrap(), "1.2.3");
}

#[test]
fn u32_rendering() {
    assert_eq!(u32_to_string(0), "0");
    assert_eq!(u32_to_string(9), "9");
    assert_eq!(u32_to_string(18), "18");
    assert_eq!(u32_to_string(4294967295), "4294967295");
    assert_eq!(versioned_python_name(3, 11), "python3.11");
}

#[test]
fn interpreter_found_on_search_path() {
    // Minimum (3, 8); probes cover minors 8 ..= 13.  Only python3.9
    // answers: the resolver must pick it, never a lower version.
    let probe = vec![false, true, false, false, false, false];
    let found = find_python_for_version(3, 8, &probe, "/home/u/.pyenv/versions", &vec![]);
    assert_eq!(found.unwrap(), "python3.9");
}

#[test]
fn interpreter_prefers_newest_on_search_path() {
    let probe = vec![true, true, false, true, false, false];
    let found = find_python_for_version(3, 8, &probe, "/r", &vec![]);
    assert_eq!(found.unwrap(), "python3.11");
}

#[test]
fn interpreter_from_version_manager() {
    let probe = vec![false, false, false, false, false, false];
    let entries = vec![
        PyenvEntry { name: "3.7.2".to_string(), has_python: true },
        PyenvEntry { name: "3.11.4".to_string(), has_python: true },
        PyenvEntry { name: "3.12.0".to_string(), has_python: false },
        PyenvEntry { name: "junk".to_string(), has_python: true },
    ];
    let found = find_python_for_version(3, 8, &probe, "/h/.pyenv/versions", &entries);
    assert_eq!(found.unwrap(), "/h/.pyenv/versions/3.11.4/bin/python");
}

#[test]
fn interpreter_never_below_minimum() {
    // Only versions below the minimum exist anywhere: nothing is found.
    let probe = vec![false, false, false, false, false, false];
    let entries = vec![
        PyenvEntry { name: "3.6.8".to_string(), has_python: true },
        PyenvEntry { name: "2.7.18".to_string(), has_python: true },
    ];
    let found = find_python_for_version(3, 8, &probe, "/r", &entries);
    assert!(found.is_none());
}

#[test]
fn resolve_python_without_requirement_uses_default() {
    let r = resolve_python(None, &vec![], "/r", &vec![]).unwrap();
    assert_eq!(r.0, None);
    assert_eq!(r.1, (3, 8));
}

#[test]
fn resolve_python_failure_names_remediation() {
    let spec = ">=3.9".to_string();
    let probe = vec![false, false, false, false, false];
    let err = resolve_python(Some(&spec), &probe, "/r", &vec![]).unwrap_err();
    match err {
        TuxBoxError::RuntimeUnavailable(m) => {
            assert!(m.contains("sudo yum install python39"));
            assert!(m.contains("pyenv install 3.9"));
        }
        other => panic!("unexpected error: {:?}", other),
    }
    assert_eq!(
        remediation_message(3, 9).contains("no compatible Python was found"),
        true
    );
}

#[test]
fn venv_decision_covers_all_cases() {
    assert_eq!(decide_venv_action(false, false, false), VenvAction::Create);
    assert_eq!(decide_venv_action(true, true, false), VenvAction::UseExisting);
    assert_eq!(decide_venv_action(true, false, true), VenvAction::Recreate);
    assert_eq!(decide_venv_action(true, false, false), VenvAction::UseExisting);
}

#[test]
fn venv_executable_path() {
    assert_eq!(get_venv_executable("/t/venv", "pip"), "/t/venv/bin/pip");
}

#[test]
fn update_check_compares_releases() {
    assert_eq!(
        check_update_decision("v1.2.3", "v1.2.4").unwrap(),
        UpdateCheck::UpdateAvailable
    );
    assert_eq!(
        check_update_decision("1.2.3", "v1.2.3").unwrap(),
        UpdateCheck::UpToDate
    );
    assert_eq!(
        check_update_decision("v2.0.0", "v1.9.9").unwrap(),
        UpdateCheck::UpToDate
    );
    let err = check_update_decision("not-a-version", "v1.0.0").unwrap_err();
    assert!(matches!(err, TuxBoxError::UpdateError(_)));
}

#[test]
fn platform_asset_names() {
    assert_eq!(
        get_platform_asset_name("linux", "x86_64").unwrap(),
        "tbox-linux-amd64"
    );
    assert_eq!(
        get_platform_asset_name("macos", "aarch64").unwrap(),
        "tbox-macos-arm64"
    );
    let err = get_platform_asset_name("windows", "x86_64").unwrap_err();
    match err {
        TuxBoxError::UpdateError(m) => assert_eq!(m, "Unsupported platform: windows x86_64"),
        other => panic!("unexpected error: {:?}", other),
    }
}

#[test]
fn asset_picking_takes_first_prefix_match() {
    let names = vec![
        "checksums.txt".to_string(),
        "tbox-linux-amd64.tar.gz".to_string(),
        "tbox-linux-amd64.sig".to_string(),
    ];
    assert_eq!(pick_asset(&names, "tbox-linux-amd64"), Some(1));
    assert_eq!(pick_asset(&names, "tbox-macos-amd64"), None);
}

#[test]
fn default_detection_prefers_newest_candidate() {
    let names = python_candidates();
    assert_eq!(names[0], "python3.13");
    assert_eq!(names[7], "python");
    let probe = vec![false, false, true, false, false, false, true, false];
    assert_eq!(detect_python(&probe).unwrap(), "python3.11");
    let none = vec![false; 8];
    let err = detect_python(&none).unwrap_err();
    match err {
        TuxBoxError::ExecutionError(m) => {
            assert_eq!(m, "Python not found. Please install Python 3.8+")
        }
        other => panic!("unexpected error: {:?}", other),
    }
}
