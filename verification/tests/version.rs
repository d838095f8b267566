use std::path::PathBuf;

use codex_native::calls::Problem;
use codex_native::text::NumberError;
use codex_native::version::{
    check_help_probe, check_version_probe, find_on_path, minimum_codex_version,
    native_codex_disabled, parse_codex_version, resolve_codex_path, CodexNotFound, CodexVersion,
    VersionError,
};

fn version(major: u64, minor: u64, patch: u64) -> CodexVersion {
    CodexVersion { major, minor, patch }
}

#[test]
fn parses_codex_cli_version() {
    let version = parse_codex_version("codex-cli 0.142.3").expect("version should parse");
    assert_eq!(
        version,
        CodexVersion {
            major: 0,
            minor: 142,
            patch: 3,
        }
    );
}

#[test]
fn versions_are_found_among_words() {
    assert_eq!(parse_codex_version("1.2.3"), Ok(version(1, 2, 3)));
    assert_eq!(parse_codex_version(" v9 codex 1.+2.3-beta.4 5.6.7"), Ok(version(1, 2, 3)));
    assert_eq!(parse_codex_version("0.0.18446744073709551615"), Ok(version(0, 0, u64::MAX)));
    for (output, error, text) in [
        ("", VersionError::MissingVersionNumber, "missing version number"),
        ("codex v1.2.3", VersionError::MissingVersionNumber, "missing version number"),
        ("1a.2.3", VersionError::InvalidMajor(NumberError::InvalidDigit), "invalid major version"),
        (
            "99999999999999999999.2.3",
            VersionError::InvalidMajor(NumberError::TooLarge),
            "invalid major version",
        ),
        ("1", VersionError::MissingMinor, "missing minor version"),
        ("1.x.3", VersionError::InvalidMinor(NumberError::InvalidDigit), "invalid minor version"),
        ("1..3", VersionError::InvalidMinor(NumberError::Empty), "invalid minor version"),
        ("1.2", VersionError::MissingPatch, "missing patch version"),
        ("1.2.beta", VersionError::InvalidPatch(NumberError::Empty), "invalid patch version"),
        ("1.2.", VersionError::InvalidPatch(NumberError::Empty), "invalid patch version"),
    ] {
        assert_eq!(parse_codex_version(output), Err(error), "{output}");
        assert_eq!(error.to_text(), text);
    }
}

#[test]
fn versions_are_ordered_and_read_back() {
    let versions = [
        version(0, 0, 0),
        version(0, 0, 9),
        version(0, 141, 99),
        version(0, 142, 0),
        version(1, 0, 0),
        version(u64::MAX, 1, 2),
    ];
    for (i, a) in versions.iter().enumerate() {
        assert_eq!(parse_codex_version(&a.to_text()), Ok(*a));
        for (j, b) in versions.iter().enumerate() {
            assert_eq!(a.older_than(b), i < j);
        }
    }
    assert_eq!(minimum_codex_version().to_text(), "0.142.0");
}

#[test]
fn probes_are_judged() {
    assert_eq!(
        check_version_probe("/c", true, "exit status: 0", " codex-cli 0.142.0\n"),
        Ok(version(0, 142, 0))
    );
    let failed = |success, stdout: &str| {
        check_version_probe("/c", success, "exit status: 1", stdout).unwrap_err()
    };
    assert_eq!(
        failed(false, "codex-cli 9.9.9"),
        Problem { message: "`/c` --version exited with exit status: 1".into(), cause: None }
    );
    assert_eq!(
        failed(true, " codex \n"),
        Problem {
            message: "failed to parse Codex version from `codex`".into(),
            cause: Some("missing version number".into()),
        }
    );
    assert_eq!(
        failed(true, "codex 1.x.3"),
        Problem {
            message: "failed to parse Codex version from `codex 1.x.3`".into(),
            cause: Some("invalid minor version: invalid digit found in string".into()),
        }
    );
    assert_eq!(
        failed(true, "codex 0.141.99"),
        Problem {
            message: "Codex 0.141.99 is not supported; need at least 0.142.0".into(),
            cause: None,
        }
    );
    assert_eq!(check_help_probe("/c", true, "--std", "io"), Ok(()));
    assert_eq!(check_help_probe("/c", true, "", "use --stdio"), Ok(()));
    for (success, stdout) in [(false, "--stdio"), (true, "-stdio")] {
        assert_eq!(
            check_help_probe("/c", success, stdout, ""),
            Err(Problem {
                message: "`/c` does not expose `codex app-server --stdio`".into(),
                cause: None,
            })
        );
    }
}

#[test]
fn resolves_codex_path_from_explicit_setting() {
    let path = PathBuf::from("/tmp/custom-codex");
    let resolved = resolve_codex_path(Some(path.clone()), None).expect("path should resolve");
    assert_eq!(resolved, path);
}

#[test]
fn executables_are_looked_for() {
    assert_eq!(resolve_codex_path(Some("a"), Some("b")), Ok("a"));
    assert_eq!(resolve_codex_path(None, Some("b")), Ok("b"));
    assert_eq!(resolve_codex_path::<&str>(None, None), Err(CodexNotFound));
    assert_eq!(CodexNotFound.to_text(), "could not find `codex` on PATH");
    assert_eq!(find_on_path(&vec![false, true, true]), Some(1));
    assert_eq!(find_on_path(&vec![false]), None);
    for value in ["0", "false", "off", "disabled"] {
        assert!(native_codex_disabled(Some(value)));
    }
    for value in ["", "1", "False", " 0"] {
        assert!(!native_codex_disabled(Some(value)));
    }
    assert!(!native_codex_disabled(None));
}
