use firebase_wasm::firestore::{FirestoreError, FirestoreErrorKind};
use firebase_wasm::transaction::{TransactionBridge, TransactionError};
use firebase_wasm::FirebaseError;

fn aborted() -> FirestoreError {
    FirestoreError::from_firebase(FirebaseError {
        code: "aborted".to_string(),
        message: "too much contention".to_string(),
    })
}

#[test]
fn committed_value_is_returned() {
    let mut b: TransactionBridge<u32, String> = TransactionBridge::new();
    assert!(b.record(Ok(5)));
    assert_eq!(b.finish(None).unwrap(), 5);
}

#[test]
fn user_abort_is_a_user_error() {
    let mut b: TransactionBridge<u32, String> = TransactionBridge::new();
    assert!(!b.record(Err("balance too low".to_string())));
    let e = b.finish(None).unwrap_err();
    assert!(e.is_user_err());
    assert!(!e.is_firestore_err());
    assert_eq!(e.user_err(), Some("balance too low".to_string()));
}

#[test]
fn last_attempt_decides() {
    let mut b: TransactionBridge<u32, String> = TransactionBridge::new();
    assert!(!b.record(Err("first".to_string())));
    assert!(b.record(Ok(2)));
    assert_eq!(b.finish(None).unwrap(), 2);
    let mut c: TransactionBridge<u32, String> = TransactionBridge::new();
    assert!(c.record(Ok(1)));
    assert!(!c.record(Err("second".to_string())));
    assert_eq!(c.finish(None).unwrap_err().user_err(), Some("second".to_string()));
}

#[test]
fn backend_failure_takes_precedence() {
    let mut b: TransactionBridge<u32, String> = TransactionBridge::new();
    assert!(b.record(Ok(9)));
    let e = b.finish(Some(aborted())).unwrap_err();
    assert!(e.is_firestore_err());
    assert!(!e.is_user_err());
    let fe = e.firestore_err().unwrap();
    assert!(matches!(fe.kind, FirestoreErrorKind::Aborted));
    let never: TransactionBridge<u32, String> = TransactionBridge::new();
    let e2 = never.finish(Some(aborted())).unwrap_err();
    assert!(e2.clone().user_err().is_none());
    assert!(matches!(e2, TransactionError::Firestore(_)));
}
