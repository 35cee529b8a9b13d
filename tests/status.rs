use wups::error::{menu_result, storage_result, MenuError, StorageError};

#[test]
fn storage_status_codes() {
    assert_eq!(StorageError::from_status(0), Ok(StorageError::UnknownError(0)));
    assert_eq!(StorageError::from_status(5), Ok(StorageError::UnknownError(5)));
    let cases = [
        (-0x01, StorageError::InvalidArgs),
        (-0x02, StorageError::MallocFailed),
        (-0x03, StorageError::UnexpectedDataType),
        (-0x04, StorageError::BufferTooSmall),
        (-0x05, StorageError::AlreadyExists),
        (-0x06, StorageError::IoError),
        (-0x10, StorageError::NotFound),
        (-0xF0, StorageError::InternalNotInitialized),
        (-0xF1, StorageError::InternalInvalidVersion),
        (-0x100, StorageError::UnknownError(-0x100)),
        (-77, StorageError::UnknownError(-77)),
    ];
    for (code, e) in cases {
        assert_eq!(StorageError::from_status(code), Err(e));
        assert_eq!(storage_result(code), Err(e));
    }
    assert_eq!(storage_result(3), Ok(()));
}

#[test]
fn menu_status_codes() {
    assert_eq!(MenuError::from_status(0), Ok(MenuError::Unknown(0)));
    let cases = [
        (-0x01, MenuError::InvalidArgument),
        (-0x03, MenuError::OutOfMemory),
        (-0x06, MenuError::NotFound),
        (-0x70, MenuError::InvalidPluginIdentifier),
        (-0x71, MenuError::MissingCallback),
        (-0x80, MenuError::ModuleNotFound),
        (-0x81, MenuError::ModuleMissingExport),
        (-0x82, MenuError::UnsupportedVersion),
        (-0x83, MenuError::UnsupportedCommand),
        (-0x84, MenuError::LibUninitialized),
        (-0x100, MenuError::Unknown(-0x100)),
        (4, MenuError::Unknown(4)),
    ];
    for (code, e) in cases {
        assert_eq!(MenuError::from_status(code), Err(e));
        assert_eq!(menu_result(code), Err(e));
    }
    assert_eq!(menu_result(0), Ok(()));
    assert_eq!(MenuError::from(StorageError::IoError), MenuError::Storage(StorageError::IoError));
}
