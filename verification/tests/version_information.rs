use modtorio::error::ExecutableError;
use modtorio::version::HumanVersion;
use modtorio::version_information::{VersionInformation, VersionInformationFailure};

#[test]
fn valid_version_string_trailing_newline() {
    let ver_str = r"Version: 0.18.47 (build 54412, linux64, headless)
Binary version: 64
Map input version: 0.16.0-0
Map output version: 0.18.47-0
";
    let parsed = VersionInformation::from_str(ver_str).expect("valid version string failed to parse");

    assert_eq!(parsed.version, HumanVersion::new(0, 18, 47));
    assert_eq!(parsed.binary, "64");
    assert_eq!(parsed.map_input, "0.16.0-0");
    assert_eq!(parsed.map_output, "0.18.47-0");
}

#[test]
fn valid_version_string_no_trailing_newline() {
    let ver_str = r"Version: 0.18.47 (build 54412, linux64, headless)
Binary version: 64
Map input version: 0.16.0-0
Map output version: 0.18.47-0";
    let parsed = VersionInformation::from_str(ver_str).expect("valid version string failed to parse");

    assert_eq!(parsed.version, HumanVersion::new(0, 18, 47));
    assert_eq!(parsed.binary, "64");
    assert_eq!(parsed.map_input, "0.16.0-0");
    assert_eq!(parsed.map_output, "0.18.47-0");
}

#[test]
fn version_information_meta_runs_to_last_bracket() {
    let ver_str = "  Version: 1.1.0 (build (x), linux64)\nBinary version: 64\nMap input version: 1.0.0-0\nMap output version: 1.1.0-0\n\n";
    let parsed = VersionInformation::from_str(ver_str).expect("failed to parse");
    assert_eq!(parsed.version, HumanVersion::new(1, 1, 0));
    assert_eq!(parsed.meta, "build (x), linux64");
}

#[test]
fn version_information_rejects_other_text() {
    let ver_str = "Factorio 0.18.47";
    match VersionInformation::from_str(ver_str) {
        Err(ExecutableError::InvalidVersionInformation { ver_str: s, reason: VersionInformationFailure::NoMatch }) => {
            assert_eq!(s, ver_str)
        }
        other => panic!("unexpected result {:?}", other),
    }
}

#[test]
fn version_information_rejects_bad_version() {
    let ver_str = "Version: 0.18 (build 1)\nBinary version: 64\nMap input version: 0.16.0-0\nMap output version: 0.18.47-0";
    match VersionInformation::from_str(ver_str) {
        Err(ExecutableError::InvalidVersionInformation { reason: VersionInformationFailure::InvalidVersion(_), .. }) => {}
        other => panic!("unexpected result {:?}", other),
    }
}

#[test]
fn version_information_word_class_is_unicode() {
    let ver_str = "Version: 0.18.47 (build 1)\nBinary version: 64é\nMap input version: 0.16.0-ß\nMap output version: 0.18.47-0\n";
    let re = regex::Regex::new(r"^Version: ([\w.-]+) \((.+)\)\nBinary version: ([\w.-]+)\nMap input version: ([\w.-]+)\nMap output version: ([\w.-]+)$").unwrap();
    let caps = re.captures(ver_str.trim()).expect("regex refuses the report");
    let parsed = VersionInformation::from_str(ver_str).expect("report with non-ASCII word characters failed to parse");
    assert_eq!(parsed.binary, &caps[3]);
    assert_eq!(parsed.map_input, &caps[4]);
    assert_eq!(parsed.map_output, &caps[5]);
    assert_eq!(parsed.binary, "64é");
}
