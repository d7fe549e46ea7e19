use chain_core::error::{Error, ErrorKind};
use chain_core::handlers::{chain_error_status, http_status, ApiError};

#[test]
fn bad_data_split() {
    // Data the peer is punished for.
    assert!(Error::new(ErrorKind::DifficultyTooLow).is_bad_data());
    assert!(Error::new(ErrorKind::InvalidPow).is_bad_data());
    assert!(Error::new(ErrorKind::OldBlock).is_bad_data());
    assert!(Error::new(ErrorKind::InvalidRoot("output".to_string())).is_bad_data());
    assert!(Error::new(ErrorKind::DuplicateOutputId(chain_core::hash::Hash::zero())).is_bad_data());
    assert!(Error::new(ErrorKind::AlreadySpent(chain_core::hash::Hash::zero())).is_bad_data());
    assert!(Error::new(ErrorKind::NRDRelativeHeight).is_bad_data());
    assert!(Error::new(ErrorKind::TxLockHeight).is_bad_data());
    assert!(Error::new(ErrorKind::InvalidBlockVersion(9)).is_bad_data());
    // Orphans and infrastructural failures are nobody's fault.
    assert!(!Error::new(ErrorKind::Unfit("duplicate".to_string())).is_bad_data());
    assert!(!Error::new(ErrorKind::Orphan("parent unknown".to_string())).is_bad_data());
    assert!(!Error::new(ErrorKind::StoreErr("lmdb".to_string(), "get".to_string())).is_bad_data());
    assert!(!Error::new(ErrorKind::FileReadErr("pmmr".to_string())).is_bad_data());
    assert!(!Error::new(ErrorKind::SerErr("eof".to_string())).is_bad_data());
    assert!(!Error::new(ErrorKind::TxHashSetErr("rewind".to_string())).is_bad_data());
    assert!(!Error::new(ErrorKind::GenesisBlockRequired).is_bad_data());
    assert!(!Error::new(ErrorKind::Other("misc".to_string())).is_bad_data());
    assert!(!Error::new(ErrorKind::Stopped).is_bad_data());
    assert!(!Error::new(ErrorKind::Bitmap).is_bad_data());
    assert!(!Error::new(ErrorKind::SyncError("timeout".to_string())).is_bad_data());
}

#[test]
fn error_accessors() {
    let e = Error::new(ErrorKind::InvalidMMRSize);
    assert!(matches!(e.kind(), ErrorKind::InvalidMMRSize));
    assert!(e.cause().is_none());
    assert!(e.backtrace().is_none());
    let e2 = Error::with_source(
        ErrorKind::TxHashSetErr("rewind failed".to_string()),
        "file truncated".to_string(),
        "txhashset apply".to_string(),
    );
    assert!(matches!(e2.kind(), ErrorKind::TxHashSetErr(_)));
    assert_eq!(e2.cause().unwrap(), "file truncated");
    assert_eq!(e2.backtrace().unwrap(), "txhashset apply");
    let e3 = Error::from(ErrorKind::Stopped);
    assert!(matches!(e3.kind(), ErrorKind::Stopped));
}

#[test]
fn display_strings() {
    let e = Error::new(ErrorKind::Unfit("already known".to_string()));
    assert_eq!(
        e.display_string(),
        "Block is unfit: already known \n Cause: Unknown \n Backtrace: Unknown"
    );
    let e2 = Error::with_source(
        ErrorKind::StoreErr("lmdb".to_string(), "header get".to_string()),
        "not found".to_string(),
        "store".to_string(),
    );
    assert_eq!(
        e2.display_string(),
        "Chain Store Error: header get, reason: lmdb \n Cause: not found \n Backtrace: store"
    );
    let e3 = Error::new(ErrorKind::DuplicateOutputId(chain_core::hash::Hash::from_vec(&vec![0xaa; 32])));
    assert_eq!(
        e3.kind().text(),
        format!("Duplicate Output ID: {}", "aa".repeat(32))
    );
    assert_eq!(
        Error::new(ErrorKind::InvalidBlockVersion(12)).kind().text(),
        "Invalid Block Version: 12"
    );
}

#[test]
fn http_status_mapping() {
    assert_eq!(http_status(&ApiError::Argument("bad".to_string())), 400);
    assert_eq!(http_status(&ApiError::NotFound("gone".to_string())), 404);
    assert_eq!(http_status(&ApiError::Internal("broken".to_string())), 500);
    assert_eq!(chain_error_status(&Error::new(ErrorKind::Stopped)), 503);
    assert_eq!(
        chain_error_status(&Error::new(ErrorKind::OutputNotFound("c".to_string()))),
        404
    );
    assert_eq!(chain_error_status(&Error::new(ErrorKind::InvalidPow)), 400);
    assert_eq!(
        chain_error_status(&Error::new(ErrorKind::StoreErr("e".to_string(), "r".to_string()))),
        500
    );
}
