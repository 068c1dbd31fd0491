//! Verified core of a set of Firebase Web SDK bindings.
//!
//! The library holds the parts of the bindings that decide something on
//! plain values: the adapter that turns an upload task's progress callbacks
//! into a pull-based sequence, the bridge that carries a transaction's result
//! across the backend's retry loop, and the classification of backend error
//! codes.

pub mod auth;
pub mod firestore;
pub mod storage;
mod text;
pub mod transaction;
pub mod upload;

use vstd::prelude::*;

verus! {

/// An error that the Firebase backend raised.
#[derive(Clone, Debug)]
pub struct FirebaseError {
    /// The machine-readable code, such as `auth/user-not-found`.
    pub code: String,
    /// The human-readable description.
    pub message: String,
}

} // verus!
