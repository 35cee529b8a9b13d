//! Errors of the storage and configuration host protocols.
use vstd::prelude::*;

verus! {

/// Status codes of the storage host.
pub const STORAGE_SUCCESS: i32 = 0;
pub const STORAGE_INVALID_ARGS: i32 = -0x01;
pub const STORAGE_MALLOC_FAILED: i32 = -0x02;
pub const STORAGE_UNEXPECTED_DATA_TYPE: i32 = -0x03;
pub const STORAGE_BUFFER_TOO_SMALL: i32 = -0x04;
pub const STORAGE_ALREADY_EXISTS: i32 = -0x05;
pub const STORAGE_IO_ERROR: i32 = -0x06;
pub const STORAGE_NOT_FOUND: i32 = -0x10;
pub const STORAGE_INTERNAL_NOT_INITIALIZED: i32 = -0xF0;
pub const STORAGE_INTERNAL_INVALID_VERSION: i32 = -0xF1;

/// A failed storage operation.
#[derive(Clone, Copy, Debug, PartialEq, Eq, Structural)]
pub enum StorageError {
    InvalidArgs,
    MallocFailed,
    UnexpectedDataType,
    BufferTooSmall,
    AlreadyExists,
    IoError,
    NotFound,
    InternalNotInitialized,
    InternalInvalidVersion,
    /// A status code outside the known set; a non-negative one is a success code.
    UnknownError(i32),
    /// A key or a text value holds a 0 byte and cannot be passed as a C string.
    ContainsNullBytes,
}

/// How the storage host's status `code` reads: a non-negative code is a
/// success, carried as `UnknownError(code)`; a negative one is the error it names.
pub open spec fn spec_storage_status(code: i32) -> Result<StorageError, StorageError> {
    if code >= 0 {
        Ok(StorageError::UnknownError(code))
    } else if code == STORAGE_INVALID_ARGS {
        Err(StorageError::InvalidArgs)
    } else if code == STORAGE_MALLOC_FAILED {
        Err(StorageError::MallocFailed)
    } else if code == STORAGE_UNEXPECTED_DATA_TYPE {
        Err(StorageError::UnexpectedDataType)
    } else if code == STORAGE_BUFFER_TOO_SMALL {
        Err(StorageError::BufferTooSmall)
    } else if code == STORAGE_ALREADY_EXISTS {
        Err(StorageError::AlreadyExists)
    } else if code == STORAGE_IO_ERROR {
        Err(StorageError::IoError)
    } else if code == STORAGE_NOT_FOUND {
        Err(StorageError::NotFound)
    } else if code == STORAGE_INTERNAL_NOT_INITIALIZED {
        Err(StorageError::InternalNotInitialized)
    } else if code == STORAGE_INTERNAL_INVALID_VERSION {
        Err(StorageError::InternalInvalidVersion)
    } else {
        Err(StorageError::UnknownError(code))
    }
}

impl StorageError {
    /// Reads a status code of the storage host.
    pub fn from_status(code: i32) -> (r: Result<StorageError, StorageError>)
        ensures
            r == spec_storage_status(code),
    {
        if code >= 0 {
            Ok(StorageError::UnknownError(code))
        } else if code == STORAGE_INVALID_ARGS {
            Err(StorageError::InvalidArgs)
        } else if code == STORAGE_MALLOC_FAILED {
            Err(StorageError::MallocFailed)
        } else if code == STORAGE_UNEXPECTED_DATA_TYPE {
            Err(StorageError::UnexpectedDataType)
        } else if code == STORAGE_BUFFER_TOO_SMALL {
            Err(StorageError::BufferTooSmall)
        } else if code == STORAGE_ALREADY_EXISTS {
            Err(StorageError::AlreadyExists)
        } else if code == STORAGE_IO_ERROR {
            Err(StorageError::IoError)
        } else if code == STORAGE_NOT_FOUND {
            Err(StorageError::NotFound)
        } else if code == STORAGE_INTERNAL_NOT_INITIALIZED {
            Err(StorageError::InternalNotInitialized)
        } else if code == STORAGE_INTERNAL_INVALID_VERSION {
            Err(StorageError::InternalInvalidVersion)
        } else {
            Err(StorageError::UnknownError(code))
        }
    }
}

/// Turns a status code into `Ok(())` on success and the error it names otherwise.
pub fn storage_result(code: i32) -> (r: Result<(), StorageError>)
    ensures
        r == (if code >= 0 {
            Ok(())
        } else {
            Err(spec_storage_status(code)->Err_0)
        }),
{
    match StorageError::from_status(code) {
        Ok(_) => Ok(()),
        Err(e) => Err(e),
    }
}

/// Status codes of the configuration host.
pub const CONFIG_SUCCESS: i32 = 0;
pub const CONFIG_INVALID_ARGUMENT: i32 = -0x01;
pub const CONFIG_OUT_OF_MEMORY: i32 = -0x03;
pub const CONFIG_NOT_FOUND: i32 = -0x06;
pub const CONFIG_INVALID_PLUGIN_IDENTIFIER: i32 = -0x70;
pub const CONFIG_MISSING_CALLBACK: i32 = -0x71;
pub const CONFIG_MODULE_NOT_FOUND: i32 = -0x80;
pub const CONFIG_MODULE_MISSING_EXPORT: i32 = -0x81;
pub const CONFIG_UNSUPPORTED_VERSION: i32 = -0x82;
pub const CONFIG_UNSUPPORTED_COMMAND: i32 = -0x83;
pub const CONFIG_LIB_UNINITIALIZED: i32 = -0x84;

/// A failed configuration-menu operation.
#[derive(Clone, Copy, Debug, PartialEq, Eq, Structural)]
pub enum MenuError {
    /// A status code outside the known set; the success code is carried here too.
    Unknown(i32),
    /// A menu was already registered for this plugin.
    AlreadyInitialized,
    /// The base of a registered menu must be a category.
    MustContainRoot,
    InvalidArgument,
    OutOfMemory,
    NotFound,
    InvalidPluginIdentifier,
    MissingCallback,
    ModuleNotFound,
    ModuleMissingExport,
    UnsupportedVersion,
    UnsupportedCommand,
    LibUninitialized,
    /// The storage layer failed while an item was attached.
    Storage(StorageError),
    /// A text holds a 0 byte and cannot be passed as a C string.
    InternalNullByte,
}

/// How the configuration host's status `code` reads: success is `Ok(Unknown(0))`.
pub open spec fn spec_menu_status(code: i32) -> Result<MenuError, MenuError> {
    if code == CONFIG_SUCCESS {
        Ok(MenuError::Unknown(CONFIG_SUCCESS))
    } else if code == CONFIG_INVALID_ARGUMENT {
        Err(MenuError::InvalidArgument)
    } else if code == CONFIG_OUT_OF_MEMORY {
        Err(MenuError::OutOfMemory)
    } else if code == CONFIG_NOT_FOUND {
        Err(MenuError::NotFound)
    } else if code == CONFIG_INVALID_PLUGIN_IDENTIFIER {
        Err(MenuError::InvalidPluginIdentifier)
    } else if code == CONFIG_MISSING_CALLBACK {
        Err(MenuError::MissingCallback)
    } else if code == CONFIG_MODULE_NOT_FOUND {
        Err(MenuError::ModuleNotFound)
    } else if code == CONFIG_MODULE_MISSING_EXPORT {
        Err(MenuError::ModuleMissingExport)
    } else if code == CONFIG_UNSUPPORTED_VERSION {
        Err(MenuError::UnsupportedVersion)
    } else if code == CONFIG_UNSUPPORTED_COMMAND {
        Err(MenuError::UnsupportedCommand)
    } else if code == CONFIG_LIB_UNINITIALIZED {
        Err(MenuError::LibUninitialized)
    } else {
        Err(MenuError::Unknown(code))
    }
}

impl MenuError {
    /// Reads a status code of the configuration host.
    pub fn from_status(code: i32) -> (r: Result<MenuError, MenuError>)
        ensures
            r == spec_menu_status(code),
    {
        if code == CONFIG_SUCCESS {
            Ok(MenuError::Unknown(CONFIG_SUCCESS))
        } else if code == CONFIG_INVALID_ARGUMENT {
            Err(MenuError::InvalidArgument)
        } else if code == CONFIG_OUT_OF_MEMORY {
            Err(MenuError::OutOfMemory)
        } else if code == CONFIG_NOT_FOUND {
            Err(MenuError::NotFound)
        } else if code == CONFIG_INVALID_PLUGIN_IDENTIFIER {
            Err(MenuError::InvalidPluginIdentifier)
        } else if code == CONFIG_MISSING_CALLBACK {
            Err(MenuError::MissingCallback)
        } else if code == CONFIG_MODULE_NOT_FOUND {
            Err(MenuError::ModuleNotFound)
        } else if code == CONFIG_MODULE_MISSING_EXPORT {
            Err(MenuError::ModuleMissingExport)
        } else if code == CONFIG_UNSUPPORTED_VERSION {
            Err(MenuError::UnsupportedVersion)
        } else if code == CONFIG_UNSUPPORTED_COMMAND {
            Err(MenuError::UnsupportedCommand)
        } else if code == CONFIG_LIB_UNINITIALIZED {
            Err(MenuError::LibUninitialized)
        } else {
            Err(MenuError::Unknown(code))
        }
    }
}

/// Turns a configuration status code into `Ok(())` on success and the error it names otherwise.
pub fn menu_result(code: i32) -> (r: Result<(), MenuError>)
    ensures
        r == (if code == CONFIG_SUCCESS {
            Ok(())
        } else {
            Err(spec_menu_status(code)->Err_0)
        }),
{
    match MenuError::from_status(code) {
        Ok(_) => Ok(()),
        Err(e) => Err(e),
    }
}

impl From<StorageError> for MenuError {
    fn from(e: StorageError) -> (r: MenuError)
        ensures
            r == MenuError::Storage(e),
    {
        MenuError::Storage(e)
    }
}

impl vstd::std_specs::convert::FromSpecImpl<StorageError> for MenuError {
    open spec fn obeys_from_spec() -> bool {
        true
    }

    open spec fn from_spec(e: StorageError) -> MenuError {
        MenuError::Storage(e)
    }
}

} // verus!
