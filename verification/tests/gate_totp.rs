use vault_rpg::errors::TotpError;
use vault_rpg::gate::{
    answer_static, answer_timecode, decide_gate, parse_selection, run_gate, static_question,
    ChallengeKind, GateReason,
};
use vault_rpg::totp::{
    generate_secret, get_totp_code, parse_algorithm, qr_filename, resolve_setting, totp_qr_png,
    TotpAlgorithm, TotpConfig,
};

// Base32 (RFC 4648, no padding) of the 20-byte ASCII secret
// "12345678901234567890".
const SECRET_B32: &str = "GEZDGNBVGY3TQOJQGEZDGNBVGY3TQOJQ";

fn config_with(secret: &str) -> TotpConfig {
    TotpConfig { secret: secret.to_string(), account: "demo@example.com".to_string(), ..TotpConfig::default() }
}

#[test]
fn selection_parses_exactly_two_kinds() {
    assert_eq!(parse_selection("1"), Some(ChallengeKind::TimeCode));
    assert_eq!(parse_selection("2"), Some(ChallengeKind::StaticQuestion));
    assert_eq!(parse_selection("3"), None);
    assert_eq!(parse_selection(""), None);
    assert_eq!(parse_selection("12"), None);
}

#[test]
fn static_branch_passes_on_the_fixed_answer() {
    assert_eq!(static_question(), "What is the capital city of China?");
    assert!(answer_static("Beijing"));
    assert!(!answer_static("beijing"));
    assert!(!answer_static("Shanghai"));
    let out = decide_gate("2", "Beijing", &None);
    assert!(out.passed);
    assert_eq!(out.branch, Some(ChallengeKind::StaticQuestion));
    assert_eq!(out.reason, GateReason::CorrectResponse);
    let out = decide_gate("2", "beijing", &None);
    assert!(!out.passed);
    assert_eq!(out.reason, GateReason::WrongResponse);
}

#[test]
fn invalid_selection_fails_without_a_branch() {
    let out = decide_gate("3", "Beijing", &None);
    assert!(!out.passed);
    assert_eq!(out.branch, None);
    assert_eq!(out.reason, GateReason::InvalidSelection);
}

#[test]
fn timecode_branch_needs_a_secret() {
    let out = decide_gate("1", "123456", &None);
    assert!(!out.passed);
    assert_eq!(out.branch, Some(ChallengeKind::TimeCode));
    assert_eq!(out.reason, GateReason::MissingSecret);
    let out = run_gate("1", "123456", None);
    assert!(!out.passed);
    assert_eq!(out.reason, GateReason::MissingSecret);
}

#[test]
fn timecode_branch_compares_exactly() {
    assert!(answer_timecode("123456", "123456"));
    assert!(!answer_timecode("123456", "654321"));
    let out = decide_gate("1", "123456", &Some(Ok("123456".to_string())));
    assert!(out.passed);
    assert_eq!(out.reason, GateReason::CorrectResponse);
    let out = decide_gate("1", "654321", &Some(Ok("123456".to_string())));
    assert!(!out.passed);
    assert_eq!(out.reason, GateReason::WrongResponse);
    let out = decide_gate("1", "123456", &Some(Err(TotpError::ClockUnavailable)));
    assert!(!out.passed);
    assert_eq!(out.reason, GateReason::CodeUnavailable);
}

#[test]
fn code_of_an_adjacent_step_fails_the_gate() {
    // Codes of two adjacent time steps, from the code library directly, at
    // fixed timestamps; the comparison itself is exact string equality.
    let totp = totp_rs::TOTP::new(
        totp_rs::Algorithm::SHA1,
        6,
        1,
        30,
        totp_rs::Secret::Encoded(SECRET_B32.to_string()).to_bytes().unwrap(),
        None,
        "demo@example.com".to_string(),
    )
    .unwrap();
    let earlier = totp.generate(59);
    let current = totp.generate(89);
    assert_ne!(earlier, current);
    let out = decide_gate("1", &earlier, &Some(Ok(current.clone())));
    assert!(!out.passed);
    assert_eq!(out.reason, GateReason::WrongResponse);
    let out = decide_gate("1", &current, &Some(Ok(current.clone())));
    assert!(out.passed);
}

#[test]
fn library_code_matches_the_code_library() {
    let cfg = config_with(SECRET_B32);
    let totp = totp_rs::TOTP::new(
        totp_rs::Algorithm::SHA1,
        6,
        1,
        30,
        totp_rs::Secret::Encoded(SECRET_B32.to_string()).to_bytes().unwrap(),
        None,
        "demo@example.com".to_string(),
    )
    .unwrap();
    let c1 = get_totp_code(&cfg).unwrap();
    let direct = totp.generate_current().unwrap();
    let c2 = get_totp_code(&cfg).unwrap();
    assert!(c1 == direct || direct == c2, "library code must agree with the code library");
    assert_eq!(c1.len(), 6);
    assert!(c1.chars().all(|c| c.is_ascii_digit()));
}

#[test]
fn current_code_passes_the_whole_gate() {
    let cfg = config_with(SECRET_B32);
    let c1 = get_totp_code(&cfg).unwrap();
    let out = run_gate("1", &c1, Some(&cfg));
    let c2 = get_totp_code(&cfg).unwrap();
    assert_eq!(out.branch, Some(ChallengeKind::TimeCode));
    if c1 == c2 {
        assert!(out.passed);
        assert_eq!(out.reason, GateReason::CorrectResponse);
    }
    let out = run_gate("1", "no such code", Some(&cfg));
    assert!(!out.passed);
}

#[test]
fn undecodable_secret_is_rejected() {
    // '0', '1', '8' and '9' are outside the base32 alphabet.
    let cfg = config_with("0189!");
    assert_eq!(get_totp_code(&cfg).unwrap_err(), TotpError::BadSecret);
    let out = run_gate("1", "123456", Some(&cfg));
    assert!(!out.passed);
    assert_eq!(out.reason, GateReason::CodeUnavailable);
}

#[test]
fn out_of_range_config_is_rejected() {
    let mut cfg = config_with(SECRET_B32);
    cfg.digits = 9;
    assert_eq!(get_totp_code(&cfg).unwrap_err(), TotpError::InvalidConfig);
    let mut cfg = config_with(SECRET_B32);
    cfg.digits = 5;
    assert_eq!(get_totp_code(&cfg).unwrap_err(), TotpError::InvalidConfig);
    let mut cfg = config_with(SECRET_B32);
    cfg.step = 0;
    assert_eq!(get_totp_code(&cfg).unwrap_err(), TotpError::InvalidConfig);
    // A secret of fewer than 16 bytes ("JBSWY3DP" decodes to 5).
    let cfg = config_with("JBSWY3DP");
    assert_eq!(get_totp_code(&cfg).unwrap_err(), TotpError::InvalidConfig);
    let mut cfg = config_with(SECRET_B32);
    cfg.account = "a:b".to_string();
    assert_eq!(get_totp_code(&cfg).unwrap_err(), TotpError::InvalidConfig);
    let mut cfg = config_with(SECRET_B32);
    cfg.issuer = Some("x:y".to_string());
    assert_eq!(get_totp_code(&cfg).unwrap_err(), TotpError::InvalidConfig);
}

#[test]
fn default_config_has_the_conventional_values() {
    let cfg = TotpConfig::default();
    assert_eq!(cfg.algorithm, TotpAlgorithm::Sha1);
    assert_eq!(cfg.digits, 6);
    assert_eq!(cfg.skew, 1);
    assert_eq!(cfg.step, 30);
    assert_eq!(cfg.secret, "");
    assert_eq!(cfg.issuer, None);
    assert_eq!(cfg.account, "");
}

#[test]
fn algorithm_names_parse_case_insensitively() {
    assert_eq!(parse_algorithm("SHA1"), Ok(TotpAlgorithm::Sha1));
    assert_eq!(parse_algorithm("sha1"), Ok(TotpAlgorithm::Sha1));
    assert_eq!(parse_algorithm("Sha256"), Ok(TotpAlgorithm::Sha256));
    assert_eq!(parse_algorithm("sha512"), Ok(TotpAlgorithm::Sha512));
    assert_eq!(parse_algorithm("md5"), Err(TotpError::UnsupportedAlgorithm));
    assert_eq!(parse_algorithm(""), Err(TotpError::UnsupportedAlgorithm));
}

#[test]
fn generated_secret_draws_from_the_alphabet() {
    let s1 = generate_secret();
    let s2 = generate_secret();
    assert_eq!(s1.len(), 32);
    assert_eq!(s2.len(), 32);
    assert!(s1.chars().all(|c| "ABCDEFGHIJKLMNOPQRSTUVWXYZ234567".contains(c)));
    assert_ne!(s1, s2, "two drawn secrets must differ");
    // A generated secret is itself a usable shared secret.
    let cfg = config_with(&s1);
    assert_eq!(get_totp_code(&cfg).unwrap().len(), 6);
}

#[test]
fn qr_artifact_is_a_png_with_the_fixed_name() {
    let cfg = config_with(SECRET_B32);
    let png = totp_qr_png(&cfg).unwrap();
    assert!(png.len() > 8);
    assert_eq!(&png[..8], &[0x89, 0x50, 0x4E, 0x47, 0x0D, 0x0A, 0x1A, 0x0A]);
    assert_eq!(qr_filename("demo@example.com"), "totp_demo@example.com.png");
    // An undecodable secret is rejected before any drawing.
    assert_eq!(totp_qr_png(&config_with("0189!")).unwrap_err(), TotpError::BadSecret);
}

#[test]
fn settings_resolve_in_strict_priority() {
    let r = resolve_setting(Some("a".into()), Some("b".into()), "c".into());
    assert_eq!(r, "a");
    let r = resolve_setting(None, Some("b".into()), "c".into());
    assert_eq!(r, "b");
    let r = resolve_setting(None, None, "c".into());
    assert_eq!(r, "c");
}
