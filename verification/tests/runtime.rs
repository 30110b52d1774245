use commut::build_info::current_wire_body;
use commut::runtime::{
    default_authorized_public_key_path_with, is_blank_text, load_authorized_public_key_pem_with,
    parse_cli_args_from, KeySource, RuntimeError, DEFAULT_AUTHORIZED_PUBLIC_KEY_RELATIVE_PATH,
};

#[test]
fn default_authorized_public_key_path_uses_the_specified_home_relative_location() {
    let path = default_authorized_public_key_path_with(Some("/home/commut"))
        .expect("default path should resolve");
    assert_eq!(path, "/home/commut/.config/commut/authorized.pub.pem");
}

#[test]
fn env_file_override_takes_precedence_over_inline_pem_and_default_path() {
    let source = load_authorized_public_key_pem_with(
        Some("/override/key.pem"),
        Some("INLINE"),
        Some("/home/commut"),
    )
    .expect("file override should win");
    assert_eq!(source, KeySource::OverrideFile("/override/key.pem".to_owned()));
}

#[test]
fn inline_pem_is_used_when_no_file_override_is_present() {
    let source = load_authorized_public_key_pem_with(None, Some("INLINE"), Some("/home/commut"))
        .expect("inline PEM should be accepted");
    assert_eq!(source, KeySource::Inline("INLINE".to_owned()));
}

#[test]
fn default_home_relative_path_is_used_when_no_env_override_exists() {
    let source = load_authorized_public_key_pem_with(None, None, Some("/home/commut"))
        .expect("default path should be used");
    assert_eq!(
        source,
        KeySource::DefaultFile("/home/commut/.config/commut/authorized.pub.pem".to_owned())
    );
}

#[test]
fn blank_overrides_count_as_unset() {
    let source = load_authorized_public_key_pem_with(Some("  \t"), Some("\n"), Some("/h"))
        .expect("default path");
    assert_eq!(source, KeySource::DefaultFile("/h/.config/commut/authorized.pub.pem".to_owned()));
    assert_eq!(
        load_authorized_public_key_pem_with(Some(" "), None, None),
        Err(RuntimeError::HomeMissing)
    );
    assert_eq!(
        load_authorized_public_key_pem_with(None, None, Some("")),
        Err(RuntimeError::HomeMissing)
    );
    assert!(is_blank_text("\u{3000} \u{a0}\r\n"));
    assert!(!is_blank_text(" x "));
    assert!(is_blank_text(""));
}

#[test]
fn cli_parser_accepts_no_arguments() {
    parse_cli_args_from(&vec!["commut".to_owned()]).expect("empty args should parse");
}

#[test]
fn cli_parser_rejects_unknown_arguments() {
    let error = parse_cli_args_from(&vec!["commut".to_owned(), "--wat".to_owned()])
        .expect_err("unknown args must fail");
    assert!(error.message().contains("unknown argument"));
    assert_eq!(error.message(), "unknown argument: --wat");
}

#[test]
fn home_is_required_for_the_default_path() {
    assert_eq!(default_authorized_public_key_path_with(None), Err(RuntimeError::HomeMissing));
    assert_eq!(
        RuntimeError::HomeMissing.message(),
        "$HOME must be set to resolve the default authorized key path"
    );
    assert_eq!(DEFAULT_AUTHORIZED_PUBLIC_KEY_RELATIVE_PATH, ".config/commut/authorized.pub.pem");
}

#[test]
fn build_info_body_is_version_space_digest() {
    assert_eq!(current_wire_body("0.1.0", "abc="), "0.1.0 abc=");
}
