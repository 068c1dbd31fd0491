use crate::firestore::FirestoreError;
use vstd::prelude::*;

verus! {

/// Why a transaction failed: the backend gave up, or the caller's update
/// function aborted it with an error of its own.
#[derive(Clone, Debug)]
pub enum TransactionError<E> {
    Firestore(FirestoreError),
    User(E),
}

impl<E> TransactionError<E> {
    pub fn is_firestore_err(&self) -> (r: bool)
        ensures
            r == self is Firestore,
    {
        matches!(self, TransactionError::Firestore(_))
    }

    pub fn is_user_err(&self) -> (r: bool)
        ensures
            r == self is User,
    {
        matches!(self, TransactionError::User(_))
    }

    /// The backend's error, if it was one.
    pub fn firestore_err(self) -> (r: Option<FirestoreError>)
        ensures
            match self {
                TransactionError::Firestore(e) => r == Some(e),
                TransactionError::User(_) => r is None,
            },
    {
        match self {
            TransactionError::Firestore(e) => Some(e),
            TransactionError::User(_) => None,
        }
    }

    /// The update function's error, if it was one.
    pub fn user_err(self) -> (r: Option<E>)
        ensures
            match self {
                TransactionError::Firestore(_) => r is None,
                TransactionError::User(e) => r == Some(e),
            },
    {
        match self {
            TransactionError::Firestore(_) => None,
            TransactionError::User(e) => Some(e),
        }
    }
}

/// Carries the outcome of a caller's update function across the backend's
/// transaction retry loop.
///
/// The backend calls the update function one attempt at a time and may call
/// it again after a conflict; each attempt's outcome replaces the previous
/// one, so the last attempt decides.
pub struct TransactionBridge<T, E> {
    outcome: Option<Result<T, E>>,
}

impl<T, E> View for TransactionBridge<T, E> {
    type V = Option<Result<T, E>>;

    /// The outcome of the most recent attempt, if any attempt ended.
    closed spec fn view(&self) -> Option<Result<T, E>> {
        self.outcome
    }
}

impl<T, E> TransactionBridge<T, E> {
    /// A bridge before the first attempt.
    pub fn new() -> (r: Self)
        ensures
            r@ is None,
    {
        TransactionBridge { outcome: None }
    }

    /// Records the outcome of one attempt of the update function. Returns
    /// whether the attempt is handed back to the backend as a success (to be
    /// committed); an error is handed back as an abort.
    pub fn record(&mut self, outcome: Result<T, E>) -> (commit: bool)
        ensures
            final(self)@ == Some(outcome),
            commit == outcome is Ok,
    {
        let commit = outcome.is_ok();
        self.outcome = Some(outcome);
        commit
    }

    /// Whether an attempt of the update function has ended.
    pub fn has_outcome(&self) -> (r: bool)
        ensures
            r == self@ is Some,
    {
        self.outcome.is_some()
    }

    /// The transaction's result, once the backend has settled.
    ///
    /// `backend_failure` is the backend's own error when it rejected the
    /// transaction with one; it takes precedence. Otherwise the last
    /// attempt decides: its value, or its error as a user error.
    pub fn finish(self, backend_failure: Option<FirestoreError>) -> (r: Result<
        T,
        TransactionError<E>,
    >)
        requires
            backend_failure is Some || self@ is Some,
        ensures
            match backend_failure {
                Some(fe) => r == Err::<T, TransactionError<E>>(TransactionError::Firestore(fe)),
                None => match self@ {
                    Some(Ok(v)) => r == Ok::<T, TransactionError<E>>(v),
                    Some(Err(e)) => r == Err::<T, TransactionError<E>>(TransactionError::User(e)),
                    None => false,
                },
            },
    {
        match backend_failure {
            Some(fe) => Err(TransactionError::Firestore(fe)),
            None => match self.outcome.unwrap() {
                Ok(v) => Ok(v),
                Err(e) => Err(TransactionError::User(e)),
            },
        }
    }
}

} // verus!
