//! Application errors: a category and a message that is either raw text or
//! a locale key (with an optional argument) resolved by the presentation layer.

use vstd::prelude::*;

verus! {

/// `std::io::Error`, carried through unchanged.
#[verifier::external_type_specification]
#[verifier::external_body]
pub struct ExIoError(std::io::Error);

pub type AppResult<T> = Result<T, AppError>;

/// The message of an error: raw text, a locale key, or a locale key with one
/// argument.
#[derive(Debug)]
pub enum AppErrorMessage {
    Raw(String),
    Key(&'static str),
    Key1 { key: &'static str, name: String },
}

/// Error categories of the editor.
#[derive(Debug)]
pub enum AppError {
    Io(std::io::Error),
    InvalidData(AppErrorMessage),
    Crypto(AppErrorMessage),
    Browser(AppErrorMessage),
    State(AppErrorMessage),
}

impl AppErrorMessage {
    fn raw(message: &str) -> (r: Self)
        ensures
            r matches AppErrorMessage::Raw(m) && m@ == message@,
    {
        AppErrorMessage::Raw(String::from_str(message))
    }

    fn key(key: &'static str) -> (r: Self)
        ensures
            r == AppErrorMessage::Key(key),
    {
        AppErrorMessage::Key(key)
    }

    fn key1(key: &'static str, name: &str) -> (r: Self)
        ensures
            r matches AppErrorMessage::Key1 { key: k, name: n } && k == key && n@ == name@,
    {
        AppErrorMessage::Key1 { key, name: String::from_str(name) }
    }
}

impl AppError {
    /// Invalid data described by raw text.
    pub fn invalid_data(message: &str) -> (r: Self)
        ensures
            r matches AppError::InvalidData(AppErrorMessage::Raw(m)) && m@ == message@,
    {
        AppError::InvalidData(AppErrorMessage::raw(message))
    }

    /// Invalid data described by a locale key.
    pub fn invalid_data_key(key: &'static str) -> (r: Self)
        ensures
            r == AppError::InvalidData(AppErrorMessage::Key(key)),
    {
        AppError::InvalidData(AppErrorMessage::key(key))
    }

    /// Invalid data described by a locale key with one argument.
    pub fn invalid_data_key1(key: &'static str, name: &str) -> (r: Self)
        ensures
            r matches AppError::InvalidData(AppErrorMessage::Key1 { key: k, name: n }) && k == key
                && n@ == name@,
    {
        AppError::InvalidData(AppErrorMessage::key1(key, name))
    }

    /// A cryptography failure described by a locale key.
    pub fn crypto_key(key: &'static str) -> (r: Self)
        ensures
            r == AppError::Crypto(AppErrorMessage::Key(key)),
    {
        AppError::Crypto(AppErrorMessage::key(key))
    }

    /// A cryptography failure described by a locale key with one argument.
    pub fn crypto_key1(key: &'static str, name: &str) -> (r: Self)
        ensures
            r matches AppError::Crypto(AppErrorMessage::Key1 { key: k, name: n }) && k == key
                && n@ == name@,
    {
        AppError::Crypto(AppErrorMessage::key1(key, name))
    }

    /// A browser failure described by a locale key.
    pub fn browser_key(key: &'static str) -> (r: Self)
        ensures
            r == AppError::Browser(AppErrorMessage::Key(key)),
    {
        AppError::Browser(AppErrorMessage::key(key))
    }

    /// A browser failure described by a locale key with one argument.
    pub fn browser_key1(key: &'static str, name: &str) -> (r: Self)
        ensures
            r matches AppError::Browser(AppErrorMessage::Key1 { key: k, name: n }) && k == key
                && n@ == name@,
    {
        AppError::Browser(AppErrorMessage::key1(key, name))
    }

    /// An editor state failure described by a locale key.
    pub fn state_key(key: &'static str) -> (r: Self)
        ensures
            r == AppError::State(AppErrorMessage::Key(key)),
    {
        AppError::State(AppErrorMessage::key(key))
    }
}


/// `std::io::Error`'s `Display` text; it comes from the operating system,
/// so nothing is stated of it.
#[verifier::external_body]
fn io_error_text(error: &std::io::Error) -> String {
    error.to_string()
}

/// The locale key of a message and its argument, where a category whose
/// message is raw text formats that text under `prefix_key`.
pub open spec fn message_locale(prefix_key: Seq<char>, m: AppErrorMessage) -> (Seq<char>, Option<Seq<char>>) {
    match m {
        AppErrorMessage::Raw(detail) => (prefix_key, Some(detail@)),
        AppErrorMessage::Key(key) => (key@, None),
        AppErrorMessage::Key1 { key, name } => (key@, Some(name@)),
    }
}

fn localize_variant(prefix_key: &'static str, message: &AppErrorMessage) -> (r: (&'static str, Option<String>))
    ensures
        (r.0@, match r.1 {
            Some(a) => Some(a@),
            None => None,
        }) == message_locale(prefix_key@, *message),
{
    match message {
        AppErrorMessage::Raw(detail) => (prefix_key, Some(detail.clone())),
        AppErrorMessage::Key(key) => (*key, None),
        AppErrorMessage::Key1 { key, name } => (*key, Some(name.clone())),
    }
}

impl AppError {
    /// What the user is told: a locale key and the argument it is formatted
    /// with, if any. An I/O error reads `app_error_io` with the error's text.
    pub fn localized(&self) -> (r: (&'static str, Option<String>))
        ensures
            match self {
                AppError::Io(_) => r.0@ == "app_error_io"@ && r.1 is Some,
                AppError::InvalidData(m) => (r.0@, match r.1 {
                    Some(a) => Some(a@),
                    None => None,
                }) == message_locale("app_error_invalid_data"@, *m),
                AppError::Crypto(m) => (r.0@, match r.1 {
                    Some(a) => Some(a@),
                    None => None,
                }) == message_locale("app_error_crypto"@, *m),
                AppError::Browser(m) => (r.0@, match r.1 {
                    Some(a) => Some(a@),
                    None => None,
                }) == message_locale("app_error_browser"@, *m),
                AppError::State(m) => (r.0@, match r.1 {
                    Some(a) => Some(a@),
                    None => None,
                }) == message_locale("app_error_state"@, *m),
            },
    {
        match self {
            AppError::Io(error) => ("app_error_io", Some(io_error_text(error))),
            AppError::InvalidData(m) => localize_variant("app_error_invalid_data", m),
            AppError::Crypto(m) => localize_variant("app_error_crypto", m),
            AppError::Browser(m) => localize_variant("app_error_browser", m),
            AppError::State(m) => localize_variant("app_error_state", m),
        }
    }
}

} // verus!
