use badpiggies_editor::diagnostics::error::{AppError, AppErrorMessage};

#[test]
fn raw_messages_are_formatted_under_their_category() {
    let e = AppError::invalid_data("bad header");
    assert_eq!(e.localized(), ("app_error_invalid_data", Some("bad header".to_string())));
}

#[test]
fn key_messages_use_their_own_key() {
    assert_eq!(AppError::invalid_data_key("error_x").localized(), ("error_x", None));
    assert_eq!(
        AppError::crypto_key1("error_decrypt", "Progress.dat").localized(),
        ("error_decrypt", Some("Progress.dat".to_string()))
    );
    assert_eq!(AppError::browser_key("error_b").localized(), ("error_b", None));
    assert_eq!(
        AppError::browser_key1("error_b1", "f").localized(),
        ("error_b1", Some("f".to_string()))
    );
    assert_eq!(AppError::state_key("error_s").localized(), ("error_s", None));
    assert_eq!(
        AppError::Crypto(AppErrorMessage::Raw("x".to_string())).localized(),
        ("app_error_crypto", Some("x".to_string()))
    );
}

#[test]
fn io_errors_carry_their_text() {
    let e = AppError::Io(std::io::Error::new(std::io::ErrorKind::Other, "disk gone"));
    assert_eq!(e.localized(), ("app_error_io", Some("disk gone".to_string())));
}
