//! The crate-wide error type and its messages.
use vstd::prelude::*;
use crate::text::{push_str, to_string};

verus! {

/// `std::io::Error`, carried opaquely.
#[verifier::external_type_specification]
#[verifier::external_body]
pub struct ExIoError(std::io::Error);

/// `serde_json::Error`, carried opaquely.
#[verifier::external_type_specification]
#[verifier::external_body]
pub struct ExJsonError(serde_json::Error);

/// An error of any part of the system.
#[derive(Debug)]
pub enum AtlasError {
    Crypto(String),
    Network(String),
    Device(String),
    Capture(String),
    Codec(String),
    Input(String),
    Permission(String),
    Internal(String),
    Protocol(String),
    Config(String),
    Io(std::io::Error),
    Serialization(serde_json::Error),
}

/// `std::io::Error`'s `Display` text. It comes from the operating system's
/// error description, so nothing is stated of it.
#[verifier::external_body]
fn io_error_text(e: &std::io::Error) -> String {
    format!("{}", e)
}

/// `serde_json::Error`'s `Display` text: the error's description with its
/// position. The error is opaque here, so nothing is stated of it.
#[verifier::external_body]
fn json_error_text(e: &serde_json::Error) -> String {
    format!("{}", e)
}

/// The message prefix of each kind of error.
pub open spec fn error_prefix(e: &AtlasError) -> Seq<char> {
    match e {
        AtlasError::Crypto(_) => "Crypto error: "@,
        AtlasError::Network(_) => "Network error: "@,
        AtlasError::Device(_) => "Device error: "@,
        AtlasError::Capture(_) => "Capture error: "@,
        AtlasError::Codec(_) => "Codec error: "@,
        AtlasError::Input(_) => "Input error: "@,
        AtlasError::Permission(_) => "Permission denied: "@,
        AtlasError::Internal(_) => "Internal error: "@,
        AtlasError::Protocol(_) => "Protocol error: "@,
        AtlasError::Config(_) => "Configuration error: "@,
        AtlasError::Io(_) => "IO error: "@,
        AtlasError::Serialization(_) => "Serialization error: "@,
    }
}

/// The detail text of an error that carries one as a string.
pub open spec fn error_detail(e: &AtlasError) -> Option<Seq<char>> {
    match e {
        AtlasError::Crypto(s) => Some(s@),
        AtlasError::Network(s) => Some(s@),
        AtlasError::Device(s) => Some(s@),
        AtlasError::Capture(s) => Some(s@),
        AtlasError::Codec(s) => Some(s@),
        AtlasError::Input(s) => Some(s@),
        AtlasError::Permission(s) => Some(s@),
        AtlasError::Internal(s) => Some(s@),
        AtlasError::Protocol(s) => Some(s@),
        AtlasError::Config(s) => Some(s@),
        AtlasError::Io(_) => None,
        AtlasError::Serialization(_) => None,
    }
}

impl AtlasError {
    /// The error's message: its kind's prefix, then its detail.
    pub fn message(&self) -> (r: String)
        ensures
            r@.len() >= error_prefix(self).len(),
            r@.subrange(0, error_prefix(self).len() as int) == error_prefix(self),
            error_detail(self) matches Some(d) ==> r@ == error_prefix(self) + d,
    {
        let (prefix, detail): (&str, String) = match self {
            AtlasError::Crypto(s) => ("Crypto error: ", s.clone()),
            AtlasError::Network(s) => ("Network error: ", s.clone()),
            AtlasError::Device(s) => ("Device error: ", s.clone()),
            AtlasError::Capture(s) => ("Capture error: ", s.clone()),
            AtlasError::Codec(s) => ("Codec error: ", s.clone()),
            AtlasError::Input(s) => ("Input error: ", s.clone()),
            AtlasError::Permission(s) => ("Permission denied: ", s.clone()),
            AtlasError::Internal(s) => ("Internal error: ", s.clone()),
            AtlasError::Protocol(s) => ("Protocol error: ", s.clone()),
            AtlasError::Config(s) => ("Configuration error: ", s.clone()),
            AtlasError::Io(e) => ("IO error: ", io_error_text(e)),
            AtlasError::Serialization(e) => ("Serialization error: ", json_error_text(e)),
        };
        let mut r = to_string(prefix);
        push_str(&mut r, detail.as_str());
        assert(r@.subrange(0, prefix@.len() as int) =~= prefix@);
        r
    }
}

/// Unwrapping the error of a failed result.
pub trait IntoAtlasError: Sized {
    /// The value holds an error.
    spec fn holds_error(&self) -> bool;

    /// The error held; only for values that hold one.
    fn into_atlas_error(self) -> (r: AtlasError)
        requires
            self.holds_error(),
    ;
}

impl<T> IntoAtlasError for Result<T, AtlasError> {
    open spec fn holds_error(&self) -> bool {
        self is Err
    }

    fn into_atlas_error(self) -> (r: AtlasError)
        ensures
            Err::<T, AtlasError>(r) == self,
    {
        match self {
            Err(e) => e,
            Ok(_) => {
                assert(false);
                AtlasError::Internal(String::new())
            },
        }
    }
}

} // verus!
