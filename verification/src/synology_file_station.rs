//! The first, synchronous client of the appliance: it knows the appliance's
//! address and its table of errors, and its login does nothing yet.

use vstd::prelude::*;

use crate::credential_manager::Credential;

verus! {

/// An error of the appliance, by the code it sends.
#[derive(Clone, Copy, Debug, PartialEq, Eq, Structural)]
pub enum SynologyError {
    UnknownError,
    NoParameterOfApiMethodOrVersion,
    RequestedApiDoesNotExist,
    RequestedMethodDoesNotExist,
    RequestedVersionDoesNotSupportFunctionality,
    LoggedInSessionDoesNotHavePermission,
    SessionTimeout,
    SessionInterruptedByDuplicateLogin,
    SidNotFound,
    InvalidParameterOfFileOperation,
    UnknownErrorOfFileOperation,
    SystemIsTooBusy,
    InvalidUserDoesThisFileOperation,
    InvalidGroupDoesThisFileOperation,
    InvalidUserAndGroupDoesThisFileOperation,
    CantGetUserGroupInformationFromTheAccountServer,
    OperationNotPermitted,
    NoSuchFileOrDirectory,
    NonSupportedFileSystem,
    FailedToConnectInternetBasedFileSystem,
    ReadOnlyFileSystem,
    FilenameTooLongInTheNonEncryptedFileSystem,
    FilenameTooLongInTheEncryptedFileSystem,
    FileAlreadyExists,
    DiskQuotaExceeded,
    NoSpaceLeftOnDevice,
    InputOutputError,
    IllegalNameOrPath,
    IllegalFileName,
    IllegalFileNameOnFatFileSystem,
    DeviceOrResourceBusy,
    NoSuchTaskOfTheFileOperation,
}

impl SynologyError {
    /// The number that the appliance sends for this error.
    pub open spec fn spec_code(self) -> u32 {
        match self {
            SynologyError::UnknownError => 100,
            SynologyError::NoParameterOfApiMethodOrVersion => 101,
            SynologyError::RequestedApiDoesNotExist => 102,
            SynologyError::RequestedMethodDoesNotExist => 103,
            SynologyError::RequestedVersionDoesNotSupportFunctionality => 104,
            SynologyError::LoggedInSessionDoesNotHavePermission => 105,
            SynologyError::SessionTimeout => 106,
            SynologyError::SessionInterruptedByDuplicateLogin => 107,
            SynologyError::SidNotFound => 119,
            SynologyError::InvalidParameterOfFileOperation => 400,
            SynologyError::UnknownErrorOfFileOperation => 401,
            SynologyError::SystemIsTooBusy => 402,
            SynologyError::InvalidUserDoesThisFileOperation => 403,
            SynologyError::InvalidGroupDoesThisFileOperation => 404,
            SynologyError::InvalidUserAndGroupDoesThisFileOperation => 405,
            SynologyError::CantGetUserGroupInformationFromTheAccountServer => 406,
            SynologyError::OperationNotPermitted => 407,
            SynologyError::NoSuchFileOrDirectory => 408,
            SynologyError::NonSupportedFileSystem => 409,
            SynologyError::FailedToConnectInternetBasedFileSystem => 410,
            SynologyError::ReadOnlyFileSystem => 411,
            SynologyError::FilenameTooLongInTheNonEncryptedFileSystem => 412,
            SynologyError::FilenameTooLongInTheEncryptedFileSystem => 413,
            SynologyError::FileAlreadyExists => 414,
            SynologyError::DiskQuotaExceeded => 415,
            SynologyError::NoSpaceLeftOnDevice => 416,
            SynologyError::InputOutputError => 417,
            SynologyError::IllegalNameOrPath => 418,
            SynologyError::IllegalFileName => 419,
            SynologyError::IllegalFileNameOnFatFileSystem => 420,
            SynologyError::DeviceOrResourceBusy => 421,
            SynologyError::NoSuchTaskOfTheFileOperation => 599,
        }
    }

    /// The number that the appliance sends for this error.
    pub fn code(&self) -> (r: u32)
        ensures
            r == self.spec_code(),
    {
        match self {
            SynologyError::UnknownError => 100,
            SynologyError::NoParameterOfApiMethodOrVersion => 101,
            SynologyError::RequestedApiDoesNotExist => 102,
            SynologyError::RequestedMethodDoesNotExist => 103,
            SynologyError::RequestedVersionDoesNotSupportFunctionality => 104,
            SynologyError::LoggedInSessionDoesNotHavePermission => 105,
            SynologyError::SessionTimeout => 106,
            SynologyError::SessionInterruptedByDuplicateLogin => 107,
            SynologyError::SidNotFound => 119,
            SynologyError::InvalidParameterOfFileOperation => 400,
            SynologyError::UnknownErrorOfFileOperation => 401,
            SynologyError::SystemIsTooBusy => 402,
            SynologyError::InvalidUserDoesThisFileOperation => 403,
            SynologyError::InvalidGroupDoesThisFileOperation => 404,
            SynologyError::InvalidUserAndGroupDoesThisFileOperation => 405,
            SynologyError::CantGetUserGroupInformationFromTheAccountServer => 406,
            SynologyError::OperationNotPermitted => 407,
            SynologyError::NoSuchFileOrDirectory => 408,
            SynologyError::NonSupportedFileSystem => 409,
            SynologyError::FailedToConnectInternetBasedFileSystem => 410,
            SynologyError::ReadOnlyFileSystem => 411,
            SynologyError::FilenameTooLongInTheNonEncryptedFileSystem => 412,
            SynologyError::FilenameTooLongInTheEncryptedFileSystem => 413,
            SynologyError::FileAlreadyExists => 414,
            SynologyError::DiskQuotaExceeded => 415,
            SynologyError::NoSpaceLeftOnDevice => 416,
            SynologyError::InputOutputError => 417,
            SynologyError::IllegalNameOrPath => 418,
            SynologyError::IllegalFileName => 419,
            SynologyError::IllegalFileNameOnFatFileSystem => 420,
            SynologyError::DeviceOrResourceBusy => 421,
            SynologyError::NoSuchTaskOfTheFileOperation => 599,
        }
    }
}

/// A client for one appliance.
pub struct SynologyFileStation {
    url: String,
}

impl View for SynologyFileStation {
    type V = Seq<char>;

    closed spec fn view(&self) -> Seq<char> {
        self.url@
    }
}

impl SynologyFileStation {
    /// A client for the appliance at `url`.
    pub fn new(url: &str) -> (r: SynologyFileStation)
        ensures
            r@ == url@,
    {
        SynologyFileStation { url: url.to_string() }
    }

    /// The address of the appliance.
    pub fn url(&self) -> (r: String)
        ensures
            r@ == self@,
    {
        self.url.clone()
    }

    /// Accepts every credential: this client sends nothing.
    pub fn login(&self, credential: &Credential) -> (r: Result<(), SynologyError>)
        ensures
            r is Ok,
    {
        Ok(())
    }
}

} // verus!
