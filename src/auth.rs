use crate::text::same_text;
use crate::FirebaseError;
use vstd::prelude::*;

verus! {

/// The kind of an authentication error, read from its code.
#[derive(Clone, Debug)]
#[non_exhaustive]
pub enum AuthErrorKind {
    /// `auth/app-deleted`
    AppDeleted,
    /// `auth/app-not-authorized`
    AppNotAuthorized,
    /// `auth/argument-error`
    ArgumentError,
    /// `auth/invalid-api-key`
    InvalidApiKey,
    /// `auth/invalid-user-token`
    InvalidUserToken,
    /// `auth/invalid-tenant-id`
    InvalidTenantId,
    /// `auth/network-request-failed`
    NetworkRequestFailed,
    /// `auth/operation-not-allowed`
    OperationNotAllowed,
    /// `auth/requires-recent-login`
    RequiresRecentLogin,
    /// `auth/too-many-requests`
    TooManyRequests,
    /// `auth/unauthorized-domain`
    UnauthorizedDomain,
    /// `auth/user-disabled`
    UserDisabled,
    /// `auth/user-token-expired`
    UserTokenExpired,
    /// `auth/web-storage-unsupported`
    WebStorageUnsupported,
    /// `auth/invalid-email`
    InvalidEmail,
    /// `auth/user-not-found`
    UserNotFound,
    /// `auth/wrong-password`
    WrongPassword,
    /// `auth/email-already-in-use`
    EmailAlreadyInUse,
    /// `auth/weak-password`
    WeakPassword,
    /// `auth/missing-android-pkg-name`
    MissingAndroidPackageName,
    /// `auth/missing-continue-uri`
    MissingContinueUri,
    /// `auth/missing-ios-bundle-id`
    MissingIOSBundleId,
    /// `auth/invalid-continue-uri`
    InvalidContinueUri,
    /// `auth/unauthorized-continue-uri`
    UnauthorizedContinueUri,
    /// `auth/expired-action-code`
    ExpiredActionCode,
    /// A code that none of the other variants stands for, as it was given.
    Other(String),
}

/// The kind that a known authentication error code stands for.
pub open spec fn auth_kind_of(code: Seq<char>) -> Option<AuthErrorKind> {
    if code == "auth/app-deleted"@ {
        Some(AuthErrorKind::AppDeleted)
    } else if code == "auth/app-not-authorized"@ {
        Some(AuthErrorKind::AppNotAuthorized)
    } else if code == "auth/argument-error"@ {
        Some(AuthErrorKind::ArgumentError)
    } else if code == "auth/invalid-api-key"@ {
        Some(AuthErrorKind::InvalidApiKey)
    } else if code == "auth/invalid-user-token"@ {
        Some(AuthErrorKind::InvalidUserToken)
    } else if code == "auth/invalid-tenant-id"@ {
        Some(AuthErrorKind::InvalidTenantId)
    } else if code == "auth/network-request-failed"@ {
        Some(AuthErrorKind::NetworkRequestFailed)
    } else if code == "auth/operation-not-allowed"@ {
        Some(AuthErrorKind::OperationNotAllowed)
    } else if code == "auth/requires-recent-login"@ {
        Some(AuthErrorKind::RequiresRecentLogin)
    } else if code == "auth/too-many-requests"@ {
        Some(AuthErrorKind::TooManyRequests)
    } else if code == "auth/unauthorized-domain"@ {
        Some(AuthErrorKind::UnauthorizedDomain)
    } else if code == "auth/user-disabled"@ {
        Some(AuthErrorKind::UserDisabled)
    } else if code == "auth/user-token-expired"@ {
        Some(AuthErrorKind::UserTokenExpired)
    } else if code == "auth/web-storage-unsupported"@ {
        Some(AuthErrorKind::WebStorageUnsupported)
    } else if code == "auth/invalid-email"@ {
        Some(AuthErrorKind::InvalidEmail)
    } else if code == "auth/user-not-found"@ {
        Some(AuthErrorKind::UserNotFound)
    } else if code == "auth/wrong-password"@ {
        Some(AuthErrorKind::WrongPassword)
    } else if code == "auth/email-already-in-use"@ {
        Some(AuthErrorKind::EmailAlreadyInUse)
    } else if code == "auth/weak-password"@ {
        Some(AuthErrorKind::WeakPassword)
    } else if code == "auth/missing-android-pkg-name"@ {
        Some(AuthErrorKind::MissingAndroidPackageName)
    } else if code == "auth/missing-continue-uri"@ {
        Some(AuthErrorKind::MissingContinueUri)
    } else if code == "auth/missing-ios-bundle-id"@ {
        Some(AuthErrorKind::MissingIOSBundleId)
    } else if code == "auth/invalid-continue-uri"@ {
        Some(AuthErrorKind::InvalidContinueUri)
    } else if code == "auth/unauthorized-continue-uri"@ {
        Some(AuthErrorKind::UnauthorizedContinueUri)
    } else if code == "auth/expired-action-code"@ {
        Some(AuthErrorKind::ExpiredActionCode)
    } else {
        None
    }
}

impl AuthErrorKind {
    /// Whether this kind stands for the error code `code`: the named kind for a
    /// known code, else `Other` holding the code.
    pub open spec fn classifies(self, code: Seq<char>) -> bool {
        match auth_kind_of(code) {
            Some(k) => self == k,
            None => self matches AuthErrorKind::Other(s) && s@ == code,
        }
    }

    /// Classifies an authentication error code; an unknown code gives `Other`.
    pub fn from_code(code: &str) -> (r: Self)
        ensures
            r.classifies(code@),
    {
        if same_text(code, "auth/app-deleted") {
            AuthErrorKind::AppDeleted
        } else if same_text(code, "auth/app-not-authorized") {
            AuthErrorKind::AppNotAuthorized
        } else if same_text(code, "auth/argument-error") {
            AuthErrorKind::ArgumentError
        } else if same_text(code, "auth/invalid-api-key") {
            AuthErrorKind::InvalidApiKey
        } else if same_text(code, "auth/invalid-user-token") {
            AuthErrorKind::InvalidUserToken
        } else if same_text(code, "auth/invalid-tenant-id") {
            AuthErrorKind::InvalidTenantId
        } else if same_text(code, "auth/network-request-failed") {
            AuthErrorKind::NetworkRequestFailed
        } else if same_text(code, "auth/operation-not-allowed") {
            AuthErrorKind::OperationNotAllowed
        } else if same_text(code, "auth/requires-recent-login") {
            AuthErrorKind::RequiresRecentLogin
        } else if same_text(code, "auth/too-many-requests") {
            AuthErrorKind::TooManyRequests
        } else if same_text(code, "auth/unauthorized-domain") {
            AuthErrorKind::UnauthorizedDomain
        } else if same_text(code, "auth/user-disabled") {
            AuthErrorKind::UserDisabled
        } else if same_text(code, "auth/user-token-expired") {
            AuthErrorKind::UserTokenExpired
        } else if same_text(code, "auth/web-storage-unsupported") {
            AuthErrorKind::WebStorageUnsupported
        } else if same_text(code, "auth/invalid-email") {
            AuthErrorKind::InvalidEmail
        } else if same_text(code, "auth/user-not-found") {
            AuthErrorKind::UserNotFound
        } else if same_text(code, "auth/wrong-password") {
            AuthErrorKind::WrongPassword
        } else if same_text(code, "auth/email-already-in-use") {
            AuthErrorKind::EmailAlreadyInUse
        } else if same_text(code, "auth/weak-password") {
            AuthErrorKind::WeakPassword
        } else if same_text(code, "auth/missing-android-pkg-name") {
            AuthErrorKind::MissingAndroidPackageName
        } else if same_text(code, "auth/missing-continue-uri") {
            AuthErrorKind::MissingContinueUri
        } else if same_text(code, "auth/missing-ios-bundle-id") {
            AuthErrorKind::MissingIOSBundleId
        } else if same_text(code, "auth/invalid-continue-uri") {
            AuthErrorKind::InvalidContinueUri
        } else if same_text(code, "auth/unauthorized-continue-uri") {
            AuthErrorKind::UnauthorizedContinueUri
        } else if same_text(code, "auth/expired-action-code") {
            AuthErrorKind::ExpiredActionCode
        } else {
            AuthErrorKind::Other(code.to_owned())
        }
    }
}

/// An authentication error: its kind, and the backend error it was read from.
#[derive(Clone, Debug)]
pub struct AuthError {
    pub kind: AuthErrorKind,
    pub source: FirebaseError,
}

impl AuthError {
    /// Classifies a backend error by its code.
    pub fn from_firebase(source: FirebaseError) -> (r: Self)
        ensures
            r.kind.classifies(source.code@),
            r.source == source,
    {
        let kind = AuthErrorKind::from_code(source.code.as_str());
        AuthError { kind, source }
    }
}

} // verus!
