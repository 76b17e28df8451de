use std::io::Write;

use flate2::write::GzEncoder;
use flate2::Compression;
use testenv::conditions::has_kconfig::{
    verdict_of_line, verdict_of_value, Error, Probe, PROC_CONFIG_PATH,
};
use testenv::conditions::{Condition, ConditionError, HasKconfig};
use testenv::io_error::{IoError, IoKind};

fn gzip(text: &[u8]) -> Vec<u8> {
    let mut encoder = GzEncoder::new(Vec::new(), Compression::default());
    encoder.write_all(text).unwrap();
    encoder.finish().unwrap()
}

fn condition(key: &str, allow_module: bool) -> HasKconfig {
    let mut condition = HasKconfig::new(key.to_string());
    condition.allow_module = allow_module;
    condition
}

#[test]
fn test() {
    let config = gzip(b"CONFIG_SCHED_CLASS_EXT=y\n");
    assert!(HasKconfig::new("CONFIG_SCHED_CLASS_EXT".into())
        .check(&config)
        .unwrap());
}

#[test]
fn new_counts_modules_as_enabled() {
    let condition = HasKconfig::new("CONFIG_FOO".to_string());
    assert_eq!(condition.conf, "CONFIG_FOO");
    assert!(condition.allow_module);
}

#[test]
fn value_y_is_enabled() {
    let config = gzip(b"CONFIG_A=m\nCONFIG_FOO=y\nCONFIG_B=y\n");
    assert!(condition("CONFIG_FOO", true).check(&config).unwrap());
    assert!(condition("CONFIG_FOO", false).check(&config).unwrap());
}

#[test]
fn value_m_follows_allow_module() {
    let config = gzip(b"CONFIG_FOO=m\n");
    assert!(condition("CONFIG_FOO", true).check(&config).unwrap());
    assert!(!condition("CONFIG_FOO", false).check(&config).unwrap());
}

#[test]
fn empty_value_is_disabled() {
    let config = gzip(b"CONFIG_FOO=\n");
    assert!(!condition("CONFIG_FOO", true).check(&config).unwrap());
    let config = gzip(b"CONFIG_FOO=");
    assert!(!condition("CONFIG_FOO", true).check(&config).unwrap());
    let config = gzip(b"CONFIG_FOO= \t\r\n");
    assert!(!condition("CONFIG_FOO", true).check(&config).unwrap());
}

#[test]
fn unrecognised_value_is_an_invariant_violation() {
    let config = gzip(b"CONFIG_FOO=z\n");
    let error = condition("CONFIG_FOO", true).check(&config).unwrap_err();
    assert!(!error.is_ignorable());
    match &error {
        Error::InvariantViolation(detail) => {
            assert_eq!(detail, "unexpected value in config.gz: `z`");
        }
        other => panic!("unexpected error: {:?}", other),
    }
    assert_eq!(
        error.message(),
        "invariant violated: unexpected value in config.gz: `z`"
    );
}

#[test]
fn quoted_value_is_reported_as_it_stands() {
    let config = gzip(b"CONFIG_LOCALVERSION=  \"-test\" \n");
    let error = condition("CONFIG_LOCALVERSION", true)
        .check(&config)
        .unwrap_err();
    match error {
        Error::InvariantViolation(detail) => {
            assert_eq!(detail, "unexpected value in config.gz: `\"-test\"`");
        }
        other => panic!("unexpected error: {:?}", other),
    }
}

#[test]
fn absent_key_is_disabled() {
    let config = gzip(b"CONFIG_A=y\n# CONFIG_FOO is not set\nCONFIG_B=m\n");
    assert!(!condition("CONFIG_FOO", true).check(&config).unwrap());
    let empty = gzip(b"");
    assert!(!condition("CONFIG_FOO", true).check(&empty).unwrap());
}

#[test]
fn longer_key_is_another_key() {
    let config = gzip(b"CONFIG_FOO_BAR=y\nXCONFIG_FOO=y\n CONFIG_FOO=y\n");
    assert!(!condition("CONFIG_FOO", true).check(&config).unwrap());
}

#[test]
fn first_occurrence_wins() {
    let config = gzip(b"CONFIG_FOO=y\nCONFIG_FOO=z\n");
    assert!(condition("CONFIG_FOO", true).check(&config).unwrap());
    let config = gzip(b"CONFIG_FOO=\nCONFIG_FOO=y\n");
    assert!(!condition("CONFIG_FOO", true).check(&config).unwrap());
    let config = gzip(b"CONFIG_FOO=z\nCONFIG_FOO=y\n");
    assert!(matches!(
        condition("CONFIG_FOO", true).check(&config),
        Err(Error::InvariantViolation(_))
    ));
}

#[test]
fn nothing_after_the_first_match_is_read() {
    let mut text = Vec::new();
    text.extend_from_slice(b"CONFIG_FOO=y\n");
    for i in 0..20000u32 {
        text.extend_from_slice(format!("CONFIG_FILLER_{}=y\n", i.wrapping_mul(2654435761)).as_bytes());
    }
    let mut config = gzip(&text);
    let whole = condition("CONFIG_FOO", true).check(&config);
    assert!(matches!(whole, Ok(true)));
    // A stream whose end is cut off still answers for a key that comes early,
    // and fails for one that it does not hold.
    config.truncate(config.len() / 2);
    assert!(condition("CONFIG_FOO", true).check(&config).unwrap());
    let error = condition("CONFIG_MISSING", true)
        .check(&config)
        .unwrap_err();
    assert!(matches!(error, Error::Io(_)));
    assert!(!error.is_ignorable());
}

#[test]
fn no_gzip_stream_is_an_io_error() {
    let error = condition("CONFIG_FOO", true)
        .check(b"CONFIG_FOO=y\n")
        .unwrap_err();
    match &error {
        Error::Io(failure) => assert_eq!(failure.kind, IoKind::InvalidInput),
        other => panic!("unexpected error: {:?}", other),
    }
    assert!(!error.is_ignorable());
    let error = condition("CONFIG_FOO", true).check(b"").unwrap_err();
    match &error {
        Error::Io(failure) => assert_eq!(failure.kind, IoKind::UnexpectedEof),
        other => panic!("unexpected error: {:?}", other),
    }
}

#[test]
fn wrong_checksum_is_an_io_error() {
    let mut config = gzip(b"CONFIG_A=y\n");
    let at = config.len() - 8;
    config[at] ^= 0xff;
    let error = condition("CONFIG_FOO", true).check(&config).unwrap_err();
    assert!(matches!(error, Error::Io(_)));
    assert_eq!(
        error.message(),
        "corrupt gzip stream does not have a matching checksum"
    );
}

#[test]
fn text_that_is_no_utf8_is_an_io_error() {
    let config = gzip(b"CONFIG_A=y\n\xff\xfe\nCONFIG_FOO=y\n");
    assert!(condition("CONFIG_A", true).check(&config).unwrap());
    let error = condition("CONFIG_FOO", true).check(&config).unwrap_err();
    match &error {
        Error::Io(failure) => assert_eq!(failure.kind, IoKind::InvalidData),
        other => panic!("unexpected error: {:?}", other),
    }
}

#[test]
fn value_mapping() {
    assert!(matches!(verdict_of_value("y", true), Ok(true)));
    assert!(matches!(verdict_of_value("y", false), Ok(true)));
    assert!(matches!(verdict_of_value("m", true), Ok(true)));
    assert!(matches!(verdict_of_value("m", false), Ok(false)));
    assert!(matches!(verdict_of_value("", true), Ok(false)));
    assert!(matches!(verdict_of_value("n", true), Err(Error::InvariantViolation(_))));
    assert!(matches!(verdict_of_value("Y", true), Err(Error::InvariantViolation(_))));
    assert!(matches!(verdict_of_value("yy", true), Err(Error::InvariantViolation(_))));
}

#[test]
fn line_matching() {
    assert!(verdict_of_line("CONFIG_FOO=", true, "CONFIG_BAR=y\n").is_none());
    assert!(verdict_of_line("CONFIG_FOO=", true, "CONFIG_FOO").is_none());
    assert!(verdict_of_line("CONFIG_FOO=", true, "").is_none());
    assert!(matches!(
        verdict_of_line("CONFIG_FOO=", true, "CONFIG_FOO=y\n"),
        Some(Ok(true))
    ));
    assert!(matches!(
        verdict_of_line("CONFIG_FOO=", false, "CONFIG_FOO= m \r\n"),
        Some(Ok(false))
    ));
    assert!(matches!(
        verdict_of_line("CONFIG_FOO=", true, "CONFIG_FOO=\u{a0}\u{3000}\n"),
        Some(Ok(false))
    ));
    match verdict_of_line("CONFIG_FOO=", true, "CONFIG_FOO=y=\n") {
        Some(Err(Error::InvariantViolation(detail))) => {
            assert_eq!(detail, "unexpected value in config.gz: `y=`")
        }
        other => panic!("unexpected outcome: {:?}", other),
    }
}

#[test]
fn missing_config_is_ignorable() {
    let missing = IoError {
        kind: IoKind::NotFound,
        message: "No such file or directory (os error 2)".to_string(),
    };
    let error = Error::from_open_failure(missing);
    assert!(matches!(error, Error::MissingProcConfig));
    assert!(error.is_ignorable());
    assert_eq!(
        error.message(),
        "missing /proc/config.gz. does your kernel have CONFIG_IKCONFIG_PROC=y?"
    );
}

#[test]
fn other_open_failures_are_passed_on() {
    let denied = IoError {
        kind: IoKind::PermissionDenied,
        message: "Permission denied (os error 13)".to_string(),
    };
    let error = Error::from_open_failure(denied);
    match &error {
        Error::Io(failure) => {
            assert_eq!(failure.kind, IoKind::PermissionDenied);
            assert_eq!(failure.message, "Permission denied (os error 13)");
        }
        other => panic!("unexpected error: {:?}", other),
    }
    assert!(!error.is_ignorable());
    assert_eq!(error.message(), "Permission denied (os error 13)");
}

#[test]
fn io_failure_converts_into_the_io_error() {
    let failure = IoError {
        kind: IoKind::NotFound,
        message: "gone".to_string(),
    };
    // The conversion does not classify: only a failure to open is looked at.
    let error = Error::from(failure);
    match &error {
        Error::Io(failure) => {
            assert_eq!(failure.kind, IoKind::NotFound);
            assert_eq!(failure.message, "gone");
        }
        other => panic!("unexpected error: {:?}", other),
    }
    assert!(!error.is_ignorable());
}

#[test]
fn configuration_path() {
    assert_eq!(PROC_CONFIG_PATH, "/proc/config.gz");
}

#[test]
fn other_errors_are_not_ignorable() {
    let error = Error::Other("something else".to_string());
    assert!(!error.is_ignorable());
    assert_eq!(error.message(), "something else");
    assert!(!Error::InvariantViolation("x".to_string()).is_ignorable());
}

#[test]
fn probe_checks_its_source() {
    let probe = Probe {
        condition: HasKconfig::new("CONFIG_SCHED_CLASS_EXT".to_string()),
        source: Ok(gzip(b"CONFIG_SCHED_CLASS_EXT=y\n")),
    };
    assert!(Condition::check(&probe).unwrap());
    // Each check reads the source anew.
    assert!(Condition::check(&probe).unwrap());
    let probe = Probe {
        condition: HasKconfig::new("CONFIG_SCHED_CLASS_EXT".to_string()),
        source: Err(IoError {
            kind: IoKind::NotFound,
            message: "No such file or directory (os error 2)".to_string(),
        }),
    };
    assert!(matches!(
        Condition::check(&probe),
        Err(Error::MissingProcConfig)
    ));
    let probe = Probe {
        condition: HasKconfig::new("CONFIG_SCHED_CLASS_EXT".to_string()),
        source: Err(IoError {
            kind: IoKind::PermissionDenied,
            message: "Permission denied (os error 13)".to_string(),
        }),
    };
    match Condition::check(&probe) {
        Err(Error::Io(failure)) => {
            assert_eq!(failure.kind, IoKind::PermissionDenied);
            assert_eq!(failure.message, "Permission denied (os error 13)");
        }
        other => panic!("unexpected outcome: {:?}", other),
    }
}
