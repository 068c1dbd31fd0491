use crate::text::same_text;
use crate::FirebaseError;
use vstd::prelude::*;

verus! {

/// The kind of a Firestore error, read from its code.
#[derive(Clone, Debug)]
#[non_exhaustive]
pub enum FirestoreErrorKind {
    /// `cancelled`
    Cancelled,
    /// `unknown`
    Unknown,
    /// `invalid-argument`
    InvalidArgument,
    /// `deadline-exceeded`
    DeadlineExceeded,
    /// `not-found`
    NotFound,
    /// `already-exists`
    AlreadyExists,
    /// `permission-denied`
    PermissionDenied,
    /// `resource-exhausted`
    ResourceExhausted,
    /// `failed-precondition`
    FailedPrecondition,
    /// `aborted`
    Aborted,
    /// `out-of-range`
    OutOfRange,
    /// `unimplemented`
    Unimplemented,
    /// `internal`
    Internal,
    /// `unavailable`
    Unavailable,
    /// `data-loss`
    DataLoss,
    /// `unauthenticated`
    Unauthenticated,
    /// A code that none of the other variants stands for, as it was given.
    Other(String),
}

/// The kind that a known Firestore error code stands for.
pub open spec fn firestore_kind_of(code: Seq<char>) -> Option<FirestoreErrorKind> {
    if code == "cancelled"@ {
        Some(FirestoreErrorKind::Cancelled)
    } else if code == "unknown"@ {
        Some(FirestoreErrorKind::Unknown)
    } else if code == "invalid-argument"@ {
        Some(FirestoreErrorKind::InvalidArgument)
    } else if code == "deadline-exceeded"@ {
        Some(FirestoreErrorKind::DeadlineExceeded)
    } else if code == "not-found"@ {
        Some(FirestoreErrorKind::NotFound)
    } else if code == "already-exists"@ {
        Some(FirestoreErrorKind::AlreadyExists)
    } else if code == "permission-denied"@ {
        Some(FirestoreErrorKind::PermissionDenied)
    } else if code == "resource-exhausted"@ {
        Some(FirestoreErrorKind::ResourceExhausted)
    } else if code == "failed-precondition"@ {
        Some(FirestoreErrorKind::FailedPrecondition)
    } else if code == "aborted"@ {
        Some(FirestoreErrorKind::Aborted)
    } else if code == "out-of-range"@ {
        Some(FirestoreErrorKind::OutOfRange)
    } else if code == "unimplemented"@ {
        Some(FirestoreErrorKind::Unimplemented)
    } else if code == "internal"@ {
        Some(FirestoreErrorKind::Internal)
    } else if code == "unavailable"@ {
        Some(FirestoreErrorKind::Unavailable)
    } else if code == "data-loss"@ {
        Some(FirestoreErrorKind::DataLoss)
    } else if code == "unauthenticated"@ {
        Some(FirestoreErrorKind::Unauthenticated)
    } else {
        None
    }
}

impl FirestoreErrorKind {
    /// Whether this kind stands for the error code `code`: the named kind for a
    /// known code, else `Other` holding the code.
    pub open spec fn classifies(self, code: Seq<char>) -> bool {
        match firestore_kind_of(code) {
            Some(k) => self == k,
            None => self matches FirestoreErrorKind::Other(s) && s@ == code,
        }
    }

    /// Classifies a Firestore error code; an unknown code gives `Other`.
    pub fn from_code(code: &str) -> (r: Self)
        ensures
            r.classifies(code@),
    {
        if same_text(code, "cancelled") {
            FirestoreErrorKind::Cancelled
        } else if same_text(code, "unknown") {
            FirestoreErrorKind::Unknown
        } else if same_text(code, "invalid-argument") {
            FirestoreErrorKind::InvalidArgument
        } else if same_text(code, "deadline-exceeded") {
            FirestoreErrorKind::DeadlineExceeded
        } else if same_text(code, "not-found") {
            FirestoreErrorKind::NotFound
        } else if same_text(code, "already-exists") {
            FirestoreErrorKind::AlreadyExists
        } else if same_text(code, "permission-denied") {
            FirestoreErrorKind::PermissionDenied
        } else if same_text(code, "resource-exhausted") {
            FirestoreErrorKind::ResourceExhausted
        } else if same_text(code, "failed-precondition") {
            FirestoreErrorKind::FailedPrecondition
        } else if same_text(code, "aborted") {
            FirestoreErrorKind::Aborted
        } else if same_text(code, "out-of-range") {
            FirestoreErrorKind::OutOfRange
        } else if same_text(code, "unimplemented") {
            FirestoreErrorKind::Unimplemented
        } else if same_text(code, "internal") {
            FirestoreErrorKind::Internal
        } else if same_text(code, "unavailable") {
            FirestoreErrorKind::Unavailable
        } else if same_text(code, "data-loss") {
            FirestoreErrorKind::DataLoss
        } else if same_text(code, "unauthenticated") {
            FirestoreErrorKind::Unauthenticated
        } else {
            FirestoreErrorKind::Other(code.to_owned())
        }
    }
}

/// A Firestore error: its kind, and the backend error it was read from.
#[derive(Clone, Debug)]
pub struct FirestoreError {
    pub kind: FirestoreErrorKind,
    pub source: FirebaseError,
}

impl FirestoreError {
    /// Classifies a backend error by its code.
    pub fn from_firebase(source: FirebaseError) -> (r: Self)
        ensures
            r.kind.classifies(source.code@),
            r.source == source,
    {
        let kind = FirestoreErrorKind::from_code(source.code.as_str());
        FirestoreError { kind, source }
    }
}

/// The order in which a query sorts on a field.
#[derive(Clone, Copy, Debug)]
pub enum Direction {
    Asc,
    Desc,
}

impl Direction {
    /// The name that the query API takes for this order.
    pub open spec fn name(self) -> Seq<char> {
        match self {
            Direction::Asc => "asc"@,
            Direction::Desc => "desc"@,
        }
    }

    /// The name that the query API takes for this order.
    pub fn as_str(&self) -> (r: &'static str)
        ensures
            r@ == self.name(),
    {
        match self {
            Direction::Asc => "asc",
            Direction::Desc => "desc",
        }
    }
}

/// A comparison that a `where` query constraint applies to a field.
pub enum QueryConstraintOp {
    /// `<`
    LessThan,
    /// `<=`
    LessThanEq,
    /// `>`
    GreaterThan,
    /// `>=`
    GreaterThanEq,
    /// `==`
    Eq,
    /// `!=`
    NotEq,
    /// `array-contains`
    ArrayContains,
    /// `in`
    In,
    /// `array-contains-any`
    ArrayContainsAny,
    /// `not-in`
    NotIn,
}

impl QueryConstraintOp {
    /// The operator as the query API writes it.
    pub open spec fn symbol(self) -> Seq<char> {
        match self {
            QueryConstraintOp::LessThan => "<"@,
            QueryConstraintOp::LessThanEq => "<="@,
            QueryConstraintOp::GreaterThan => ">"@,
            QueryConstraintOp::GreaterThanEq => ">="@,
            QueryConstraintOp::Eq => "=="@,
            QueryConstraintOp::NotEq => "!="@,
            QueryConstraintOp::ArrayContains => "array-contains"@,
            QueryConstraintOp::In => "in"@,
            QueryConstraintOp::ArrayContainsAny => "array-contains-any"@,
            QueryConstraintOp::NotIn => "not-in"@,
        }
    }

    /// The operator as the query API writes it.
    pub fn as_str(&self) -> (r: &'static str)
        ensures
            r@ == self.symbol(),
    {
        match self {
            QueryConstraintOp::LessThan => "<",
            QueryConstraintOp::LessThanEq => "<=",
            QueryConstraintOp::GreaterThan => ">",
            QueryConstraintOp::GreaterThanEq => ">=",
            QueryConstraintOp::Eq => "==",
            QueryConstraintOp::NotEq => "!=",
            QueryConstraintOp::ArrayContains => "array-contains",
            QueryConstraintOp::In => "in",
            QueryConstraintOp::ArrayContainsAny => "array-contains-any",
            QueryConstraintOp::NotIn => "not-in",
        }
    }
}

} // verus!
