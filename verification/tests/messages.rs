use syncoon::config::{
    config_plan, email_line, no_secret_message, no_store_message, no_token_message,
    plan_secret_info, plan_token_info, prepare_config_target, secret_removed_message,
    secret_stored_message, service_name, should_remove_token, token_removed_message,
    token_stored_line, trim_crypto, user_info_lines, user_line, username_line, ConfigAction,
};
use syncoon::errors::{get_error_message, map_client_error, AppError, ClientErrorKind};
use syncoon::models::{ConfigAuthCommand, ConfigCommand, ConfigCryptoCommand};
use syncoon::strings::format_error_message;
use syncoon::get_version;

#[test]
fn test_error_messages_per_variant() {
    assert_eq!(
        get_error_message(&AppError::InvalidUrl("https://x".into())),
        "Invalid URL: https://x"
    );
    assert_eq!(
        get_error_message(&AppError::IoError),
        "Error reading / writing content."
    );
    assert_eq!(
        get_error_message(&AppError::DracoonError("remote says no".into())),
        "remote says no"
    );
    assert_eq!(get_error_message(&AppError::ConnectionFailed), "Connection failed.");
    assert_eq!(
        get_error_message(&AppError::CredentialDeletionFailed),
        "Credential deletion failed."
    );
    assert_eq!(
        get_error_message(&AppError::CredentialStorageFailed),
        "Credential store failed."
    );
    assert_eq!(get_error_message(&AppError::InvalidAccount), "Invalid account.");
    assert_eq!(get_error_message(&AppError::Unknown), "Unknown error.");
    assert_eq!(
        get_error_message(&AppError::DracoonS3Error("s3 detail".into())),
        "s3 detail"
    );
    assert_eq!(
        get_error_message(&AppError::DracoonAuthError("auth detail".into())),
        "auth detail"
    );
    assert_eq!(
        get_error_message(&AppError::InvalidArgument("missing password".into())),
        "missing password"
    );
    assert_eq!(
        get_error_message(&AppError::LogFileCreationFailed),
        "Log file creation failed."
    );
}

#[test]
fn test_formatted_error_line_embeds_prefix_and_message() {
    let line = format_error_message("We have a problem.");
    assert!(line.contains("Error: "));
    assert!(line.ends_with(" We have a problem."));
    let prefix_at = line.find("Error: ").unwrap();
    let after_prefix = &line[prefix_at + "Error: ".len()..];
    // between the prefix and the space only styling codes may stand
    assert!(after_prefix.ends_with(" We have a problem."));
    // without a terminal, styling is suppressed and the line is plain
    if !console::colors_enabled() {
        assert_eq!(line, "Error:  We have a problem.");
    }
}

#[test]
fn test_version_line() {
    assert_eq!(
        get_version(),
        "\u{1f680} remove-expiration-date 0.1.0\n\u{25b6}\u{fe0e} https://github.com/semtisem/remove-expiration-date"
    );
}

#[test]
fn test_service_name() {
    assert_eq!(service_name(), "syncoon");
}

#[test]
fn test_config_target_normalization() {
    assert_eq!(
        prepare_config_target("https://host.example.com///", false),
        "https://host.example.com"
    );
    assert_eq!(
        prepare_config_target("host.example.com", false),
        "https://host.example.com"
    );
    assert_eq!(
        prepare_config_target("host.example.com/", true),
        "https://host.example.com/-crypto"
    );
}

#[test]
fn test_config_plan_routing() {
    let (action, target, is_crypto) = config_plan(ConfigCommand::Auth {
        cmd: ConfigAuthCommand::Ls { target: "a.example.com".into() },
    });
    assert_eq!(action, ConfigAction::ShowToken);
    assert_eq!(target, "a.example.com");
    assert!(!is_crypto);

    let (action, _, is_crypto) = config_plan(ConfigCommand::Auth {
        cmd: ConfigAuthCommand::Rm { target: "a.example.com".into() },
    });
    assert_eq!(action, ConfigAction::RemoveToken);
    assert!(!is_crypto);

    let (action, _, is_crypto) = config_plan(ConfigCommand::Crypto {
        cmd: ConfigCryptoCommand::Ls { target: "a.example.com".into() },
    });
    assert_eq!(action, ConfigAction::ShowSecret);
    assert!(is_crypto);

    let (action, _, is_crypto) = config_plan(ConfigCommand::Crypto {
        cmd: ConfigCryptoCommand::Rm { target: "a.example.com".into() },
    });
    assert_eq!(action, ConfigAction::RemoveSecret);
    assert!(is_crypto);
}

#[test]
fn test_crypto_suffix_trimming() {
    assert_eq!(trim_crypto("host-crypto"), "host");
    assert_eq!(trim_crypto("host-crypto-crypto"), "host");
    assert_eq!(trim_crypto("host"), "host");
    assert_eq!(trim_crypto("-crypto"), "");
}

#[test]
fn test_operator_messages() {
    assert_eq!(
        no_token_message("https://h.example.com"),
        "No token found for this DRACOON url: https://h.example.com."
    );
    assert_eq!(
        token_stored_line("https://h.example.com"),
        "► Token stored for: https://h.example.com"
    );
    assert_eq!(user_line("Ada", "Lovelace"), "► User: Ada Lovelace");
    assert_eq!(email_line(Some("ada@example.com".into())), "► Email: ada@example.com");
    assert_eq!(email_line(None), "► Email: N/A");
    assert_eq!(username_line("ada"), "► Username: ada");
    assert_eq!(
        token_removed_message("https://h.example.com"),
        "► Token removed for https://h.example.com"
    );
    assert_eq!(
        secret_stored_message("https://h.example.com/-crypto"),
        "► Encryption secret securely stored for https://h.example.com/."
    );
    assert_eq!(no_secret_message(), "No encryption secret found.");
    assert_eq!(
        secret_removed_message("https://h.example.com/-crypto"),
        "► Encryption secret removed for https://h.example.com/-crypto."
    );
    assert_eq!(
        no_store_message(),
        "Secure storage for credentials not available on this platform."
    );
}

#[test]
fn test_client_error_classification() {
    assert_eq!(
        map_client_error(ClientErrorKind::ConnectionFailed),
        AppError::ConnectionFailed
    );
    assert_eq!(
        map_client_error(ClientErrorKind::Http("remote says no".into())),
        AppError::DracoonError("remote says no".into())
    );
    assert_eq!(
        map_client_error(ClientErrorKind::Auth("invalid grant".into())),
        AppError::DracoonAuthError("invalid grant".into())
    );
    assert_eq!(
        map_client_error(ClientErrorKind::InvalidUrl("ftp://x".into())),
        AppError::InvalidUrl("ftp://x".into())
    );
    assert_eq!(map_client_error(ClientErrorKind::Io), AppError::IoError);
    assert_eq!(
        map_client_error(ClientErrorKind::S3("s3 detail".into())),
        AppError::DracoonS3Error("s3 detail".into())
    );
    assert_eq!(
        map_client_error(ClientErrorKind::MissingArgument),
        AppError::InvalidArgument("Missing argument (password set?)".into())
    );
    assert_eq!(
        map_client_error(ClientErrorKind::Crypto),
        AppError::InvalidArgument("Wrong encryption secret.".into())
    );
    assert_eq!(map_client_error(ClientErrorKind::Other), AppError::Unknown);
}

#[test]
fn test_token_info_planning() {
    let r = plan_token_info(Ok("stored-token".into()), "https://h.example.com");
    assert_eq!(r, Ok("stored-token".into()));

    let r = plan_token_info(Err(AppError::InvalidAccount), "https://h.example.com");
    let (line, e) = r.unwrap_err();
    assert_eq!(e, AppError::InvalidAccount);
    assert!(line.contains("Error: "));
    assert!(line.ends_with(" No token found for this DRACOON url: https://h.example.com."));
}

#[test]
fn test_user_info_lines() {
    let lines = user_info_lines(
        "https://h.example.com",
        "Ada",
        "Lovelace",
        Some("ada@example.com".into()),
        "ada",
    );
    assert_eq!(
        lines,
        vec![
            "\u{25ba} Token stored for: https://h.example.com".to_string(),
            "\u{25ba} User: Ada Lovelace".to_string(),
            "\u{25ba} Email: ada@example.com".to_string(),
            "\u{25ba} Username: ada".to_string(),
        ]
    );
}

#[test]
fn test_secret_info_planning() {
    let r = plan_secret_info(Ok("secret".into()), "https://h.example.com/-crypto");
    assert_eq!(
        r,
        Ok("\u{25ba} Encryption secret securely stored for https://h.example.com/.".to_string())
    );

    let r = plan_secret_info(Err(AppError::InvalidAccount), "https://h.example.com/-crypto");
    let (line, e) = r.unwrap_err();
    assert_eq!(e, AppError::InvalidAccount);
    assert!(line.contains("Error: "));
    assert!(line.ends_with(" No encryption secret found."));
}

#[test]
fn test_removal_confirmation_gate() {
    assert!(should_remove_token(Some(true)));
    assert!(!should_remove_token(Some(false)));
    assert!(!should_remove_token(None));
}
