//! Errors of the authentication components.

use vstd::prelude::*;

verus! {

/// Errors of the authentication components.
#[derive(Debug, PartialEq)]
pub enum AuthError {
    /// the configuration is unusable; the text says why
    ConfigError(String),
}

/// The mathematical form of an `AuthError`.
pub enum AuthErrorView {
    ConfigError(Seq<char>),
}

impl View for AuthError {
    type V = AuthErrorView;

    open spec fn view(&self) -> AuthErrorView {
        match self {
            AuthError::ConfigError(s) => AuthErrorView::ConfigError(s@),
        }
    }
}

} // verus!
