//! The values that the appliance's API returns: the status codes of its error
//! envelope, the envelope itself, and the results of the endpoints in use.

use vstd::prelude::*;

use crate::text::str_eq;

verus! {

/// A status code of the appliance's error envelope.
#[derive(Clone, Copy, Debug, PartialEq, Eq, Structural)]
pub enum SynologyStatusCode {
    UnknownError,
    NoParameterOfApiMethodOrVersion,
    RequestedApiDoesNotExist,
    RequestedMethodDoesNotExist,
    RequestedVersionDoesNotSupportFunctionality,
    LoggedInSessionDoesNotHavePermission,
    SessionTimeout,
    SessionInterruptedByDuplicateLogin,
    SidNotFound,
    InvalidParameterOfFileOperation,
    UnknownErrorOfFileOperation,
    SystemIsTooBusy,
    InvalidUserDoesThisFileOperation,
    InvalidGroupDoesThisFileOperation,
    InvalidUserAndGroupDoesThisFileOperation,
    CantGetUserGroupInformationFromTheAccountServer,
    OperationNotPermitted,
    NoSuchFileOrDirectory,
    NonSupportedFileSystem,
    FailedToConnectInternetBasedFileSystem,
    ReadOnlyFileSystem,
    FilenameTooLongInTheNonEncryptedFileSystem,
    FilenameTooLongInTheEncryptedFileSystem,
    FileAlreadyExists,
    DiskQuotaExceeded,
    NoSpaceLeftOnDevice,
    InputOutputError,
    IllegalNameOrPath,
    IllegalFileName,
    IllegalFileNameOnFatFileSystem,
    DeviceOrResourceBusy,
    NoSuchTaskOfTheFileOperation,
}

impl SynologyStatusCode {
    /// The number that the appliance sends for this status.
    pub open spec fn spec_code(self) -> u32 {
        match self {
            SynologyStatusCode::UnknownError => 100,
            SynologyStatusCode::NoParameterOfApiMethodOrVersion => 101,
            SynologyStatusCode::RequestedApiDoesNotExist => 102,
            SynologyStatusCode::RequestedMethodDoesNotExist => 103,
            SynologyStatusCode::RequestedVersionDoesNotSupportFunctionality => 104,
            SynologyStatusCode::LoggedInSessionDoesNotHavePermission => 105,
            SynologyStatusCode::SessionTimeout => 106,
            SynologyStatusCode::SessionInterruptedByDuplicateLogin => 107,
            SynologyStatusCode::SidNotFound => 119,
            SynologyStatusCode::InvalidParameterOfFileOperation => 400,
            SynologyStatusCode::UnknownErrorOfFileOperation => 401,
            SynologyStatusCode::SystemIsTooBusy => 402,
            SynologyStatusCode::InvalidUserDoesThisFileOperation => 403,
            SynologyStatusCode::InvalidGroupDoesThisFileOperation => 404,
            SynologyStatusCode::InvalidUserAndGroupDoesThisFileOperation => 405,
            SynologyStatusCode::CantGetUserGroupInformationFromTheAccountServer => 406,
            SynologyStatusCode::OperationNotPermitted => 407,
            SynologyStatusCode::NoSuchFileOrDirectory => 408,
            SynologyStatusCode::NonSupportedFileSystem => 409,
            SynologyStatusCode::FailedToConnectInternetBasedFileSystem => 410,
            SynologyStatusCode::ReadOnlyFileSystem => 411,
            SynologyStatusCode::FilenameTooLongInTheNonEncryptedFileSystem => 412,
            SynologyStatusCode::FilenameTooLongInTheEncryptedFileSystem => 413,
            SynologyStatusCode::FileAlreadyExists => 414,
            SynologyStatusCode::DiskQuotaExceeded => 415,
            SynologyStatusCode::NoSpaceLeftOnDevice => 416,
            SynologyStatusCode::InputOutputError => 417,
            SynologyStatusCode::IllegalNameOrPath => 418,
            SynologyStatusCode::IllegalFileName => 419,
            SynologyStatusCode::IllegalFileNameOnFatFileSystem => 420,
            SynologyStatusCode::DeviceOrResourceBusy => 421,
            SynologyStatusCode::NoSuchTaskOfTheFileOperation => 599,
        }
    }

    /// The status that a number of the appliance stands for, if it stands for one.
    pub open spec fn spec_from_u32(code: u32) -> Option<SynologyStatusCode> {
        if code == 100 {
            Some(SynologyStatusCode::UnknownError)
        } else if code == 101 {
            Some(SynologyStatusCode::NoParameterOfApiMethodOrVersion)
        } else if code == 102 {
            Some(SynologyStatusCode::RequestedApiDoesNotExist)
        } else if code == 103 {
            Some(SynologyStatusCode::RequestedMethodDoesNotExist)
        } else if code == 104 {
            Some(SynologyStatusCode::RequestedVersionDoesNotSupportFunctionality)
        } else if code == 105 {
            Some(SynologyStatusCode::LoggedInSessionDoesNotHavePermission)
        } else if code == 106 {
            Some(SynologyStatusCode::SessionTimeout)
        } else if code == 107 {
            Some(SynologyStatusCode::SessionInterruptedByDuplicateLogin)
        } else if code == 119 {
            Some(SynologyStatusCode::SidNotFound)
        } else if code == 400 {
            Some(SynologyStatusCode::InvalidParameterOfFileOperation)
        } else if code == 401 {
            Some(SynologyStatusCode::UnknownErrorOfFileOperation)
        } else if code == 402 {
            Some(SynologyStatusCode::SystemIsTooBusy)
        } else if code == 403 {
            Some(SynologyStatusCode::InvalidUserDoesThisFileOperation)
        } else if code == 404 {
            Some(SynologyStatusCode::InvalidGroupDoesThisFileOperation)
        } else if code == 405 {
            Some(SynologyStatusCode::InvalidUserAndGroupDoesThisFileOperation)
        } else if code == 406 {
            Some(SynologyStatusCode::CantGetUserGroupInformationFromTheAccountServer)
        } else if code == 407 {
            Some(SynologyStatusCode::OperationNotPermitted)
        } else if code == 408 {
            Some(SynologyStatusCode::NoSuchFileOrDirectory)
        } else if code == 409 {
            Some(SynologyStatusCode::NonSupportedFileSystem)
        } else if code == 410 {
            Some(SynologyStatusCode::FailedToConnectInternetBasedFileSystem)
        } else if code == 411 {
            Some(SynologyStatusCode::ReadOnlyFileSystem)
        } else if code == 412 {
            Some(SynologyStatusCode::FilenameTooLongInTheNonEncryptedFileSystem)
        } else if code == 413 {
            Some(SynologyStatusCode::FilenameTooLongInTheEncryptedFileSystem)
        } else if code == 414 {
            Some(SynologyStatusCode::FileAlreadyExists)
        } else if code == 415 {
            Some(SynologyStatusCode::DiskQuotaExceeded)
        } else if code == 416 {
            Some(SynologyStatusCode::NoSpaceLeftOnDevice)
        } else if code == 417 {
            Some(SynologyStatusCode::InputOutputError)
        } else if code == 418 {
            Some(SynologyStatusCode::IllegalNameOrPath)
        } else if code == 419 {
            Some(SynologyStatusCode::IllegalFileName)
        } else if code == 420 {
            Some(SynologyStatusCode::IllegalFileNameOnFatFileSystem)
        } else if code == 421 {
            Some(SynologyStatusCode::DeviceOrResourceBusy)
        } else if code == 599 {
            Some(SynologyStatusCode::NoSuchTaskOfTheFileOperation)
        } else {
            None
        }
    }

    /// The text shown to the user for this status.
    pub open spec fn spec_message(self) -> Seq<char> {
        match self {
            SynologyStatusCode::UnknownError => "Unknown error"@,
            SynologyStatusCode::NoParameterOfApiMethodOrVersion =>
                "No parameter of API, method or version"@,
            SynologyStatusCode::RequestedApiDoesNotExist => "The requested API does not exist"@,
            SynologyStatusCode::RequestedMethodDoesNotExist =>
                "The requested method does not exist"@,
            SynologyStatusCode::RequestedVersionDoesNotSupportFunctionality =>
                "The requested version does not support the functionality"@,
            SynologyStatusCode::LoggedInSessionDoesNotHavePermission =>
                "The logged in session does not have permission"@,
            SynologyStatusCode::SessionTimeout => "Session timeout"@,
            SynologyStatusCode::SessionInterruptedByDuplicateLogin =>
                "Session interrupted by duplicate login"@,
            SynologyStatusCode::SidNotFound => "SID not found"@,
            SynologyStatusCode::InvalidParameterOfFileOperation =>
                "Invalid parameter of file operation"@,
            SynologyStatusCode::UnknownErrorOfFileOperation => "Unknown error of file operation"@,
            SynologyStatusCode::SystemIsTooBusy => "System is too busy"@,
            SynologyStatusCode::InvalidUserDoesThisFileOperation =>
                "Invalid user does this file operation"@,
            SynologyStatusCode::InvalidGroupDoesThisFileOperation =>
                "Invalid group does this file operation"@,
            SynologyStatusCode::InvalidUserAndGroupDoesThisFileOperation =>
                "Invalid user and group does this file operation"@,
            SynologyStatusCode::CantGetUserGroupInformationFromTheAccountServer =>
                "Can't get user/group information from the account server"@,
            SynologyStatusCode::OperationNotPermitted => "Operation not permitted"@,
            SynologyStatusCode::NoSuchFileOrDirectory => "No such file or directory"@,
            SynologyStatusCode::NonSupportedFileSystem => "Non-supported file system"@,
            SynologyStatusCode::FailedToConnectInternetBasedFileSystem =>
                "Failed to connect internet-based file system (e.g., CIFS)"@,
            SynologyStatusCode::ReadOnlyFileSystem => "Read-only file system"@,
            SynologyStatusCode::FilenameTooLongInTheNonEncryptedFileSystem =>
                "Filename too long in the non-encrypted file system"@,
            SynologyStatusCode::FilenameTooLongInTheEncryptedFileSystem =>
                "Filename too long in the encrypted file system"@,
            SynologyStatusCode::FileAlreadyExists => "File already exists"@,
            SynologyStatusCode::DiskQuotaExceeded => "Disk quota exceeded"@,
            SynologyStatusCode::NoSpaceLeftOnDevice => "No space left on device"@,
            SynologyStatusCode::InputOutputError => "Input/output error"@,
            SynologyStatusCode::IllegalNameOrPath => "Illegal name or path"@,
            SynologyStatusCode::IllegalFileName => "Illegal file name"@,
            SynologyStatusCode::IllegalFileNameOnFatFileSystem =>
                "Illegal file name on FAT file system"@,
            SynologyStatusCode::DeviceOrResourceBusy => "Device or resource busy"@,
            SynologyStatusCode::NoSuchTaskOfTheFileOperation =>
                "No such task of the file operation"@,
        }
    }

    /// The number that the appliance sends for this status.
    pub fn code(&self) -> (r: u32)
        ensures
            r == self.spec_code(),
    {
        match self {
            SynologyStatusCode::UnknownError => 100,
            SynologyStatusCode::NoParameterOfApiMethodOrVersion => 101,
            SynologyStatusCode::RequestedApiDoesNotExist => 102,
            SynologyStatusCode::RequestedMethodDoesNotExist => 103,
            SynologyStatusCode::RequestedVersionDoesNotSupportFunctionality => 104,
            SynologyStatusCode::LoggedInSessionDoesNotHavePermission => 105,
            SynologyStatusCode::SessionTimeout => 106,
            SynologyStatusCode::SessionInterruptedByDuplicateLogin => 107,
            SynologyStatusCode::SidNotFound => 119,
            SynologyStatusCode::InvalidParameterOfFileOperation => 400,
            SynologyStatusCode::UnknownErrorOfFileOperation => 401,
            SynologyStatusCode::SystemIsTooBusy => 402,
            SynologyStatusCode::InvalidUserDoesThisFileOperation => 403,
            SynologyStatusCode::InvalidGroupDoesThisFileOperation => 404,
            SynologyStatusCode::InvalidUserAndGroupDoesThisFileOperation => 405,
            SynologyStatusCode::CantGetUserGroupInformationFromTheAccountServer => 406,
            SynologyStatusCode::OperationNotPermitted => 407,
            SynologyStatusCode::NoSuchFileOrDirectory => 408,
            SynologyStatusCode::NonSupportedFileSystem => 409,
            SynologyStatusCode::FailedToConnectInternetBasedFileSystem => 410,
            SynologyStatusCode::ReadOnlyFileSystem => 411,
            SynologyStatusCode::FilenameTooLongInTheNonEncryptedFileSystem => 412,
            SynologyStatusCode::FilenameTooLongInTheEncryptedFileSystem => 413,
            SynologyStatusCode::FileAlreadyExists => 414,
            SynologyStatusCode::DiskQuotaExceeded => 415,
            SynologyStatusCode::NoSpaceLeftOnDevice => 416,
            SynologyStatusCode::InputOutputError => 417,
            SynologyStatusCode::IllegalNameOrPath => 418,
            SynologyStatusCode::IllegalFileName => 419,
            SynologyStatusCode::IllegalFileNameOnFatFileSystem => 420,
            SynologyStatusCode::DeviceOrResourceBusy => 421,
            SynologyStatusCode::NoSuchTaskOfTheFileOperation => 599,
        }
    }

    /// Decodes a number of the appliance; a number outside the table gives `None`.
    pub fn from_u32(code: u32) -> (r: Option<SynologyStatusCode>)
        ensures
            r == Self::spec_from_u32(code),
    {
        match code {
            100 => Some(SynologyStatusCode::UnknownError),
            101 => Some(SynologyStatusCode::NoParameterOfApiMethodOrVersion),
            102 => Some(SynologyStatusCode::RequestedApiDoesNotExist),
            103 => Some(SynologyStatusCode::RequestedMethodDoesNotExist),
            104 => Some(SynologyStatusCode::RequestedVersionDoesNotSupportFunctionality),
            105 => Some(SynologyStatusCode::LoggedInSessionDoesNotHavePermission),
            106 => Some(SynologyStatusCode::SessionTimeout),
            107 => Some(SynologyStatusCode::SessionInterruptedByDuplicateLogin),
            119 => Some(SynologyStatusCode::SidNotFound),
            400 => Some(SynologyStatusCode::InvalidParameterOfFileOperation),
            401 => Some(SynologyStatusCode::UnknownErrorOfFileOperation),
            402 => Some(SynologyStatusCode::SystemIsTooBusy),
            403 => Some(SynologyStatusCode::InvalidUserDoesThisFileOperation),
            404 => Some(SynologyStatusCode::InvalidGroupDoesThisFileOperation),
            405 => Some(SynologyStatusCode::InvalidUserAndGroupDoesThisFileOperation),
            406 => Some(SynologyStatusCode::CantGetUserGroupInformationFromTheAccountServer),
            407 => Some(SynologyStatusCode::OperationNotPermitted),
            408 => Some(SynologyStatusCode::NoSuchFileOrDirectory),
            409 => Some(SynologyStatusCode::NonSupportedFileSystem),
            410 => Some(SynologyStatusCode::FailedToConnectInternetBasedFileSystem),
            411 => Some(SynologyStatusCode::ReadOnlyFileSystem),
            412 => Some(SynologyStatusCode::FilenameTooLongInTheNonEncryptedFileSystem),
            413 => Some(SynologyStatusCode::FilenameTooLongInTheEncryptedFileSystem),
            414 => Some(SynologyStatusCode::FileAlreadyExists),
            415 => Some(SynologyStatusCode::DiskQuotaExceeded),
            416 => Some(SynologyStatusCode::NoSpaceLeftOnDevice),
            417 => Some(SynologyStatusCode::InputOutputError),
            418 => Some(SynologyStatusCode::IllegalNameOrPath),
            419 => Some(SynologyStatusCode::IllegalFileName),
            420 => Some(SynologyStatusCode::IllegalFileNameOnFatFileSystem),
            421 => Some(SynologyStatusCode::DeviceOrResourceBusy),
            599 => Some(SynologyStatusCode::NoSuchTaskOfTheFileOperation),
            _ => None,
        }
    }

    /// The text shown to the user for this status.
    pub fn message(&self) -> (r: &'static str)
        ensures
            r@ == self.spec_message(),
    {
        match self {
            SynologyStatusCode::UnknownError => "Unknown error",
            SynologyStatusCode::NoParameterOfApiMethodOrVersion =>
                "No parameter of API, method or version",
            SynologyStatusCode::RequestedApiDoesNotExist => "The requested API does not exist",
            SynologyStatusCode::RequestedMethodDoesNotExist =>
                "The requested method does not exist",
            SynologyStatusCode::RequestedVersionDoesNotSupportFunctionality =>
                "The requested version does not support the functionality",
            SynologyStatusCode::LoggedInSessionDoesNotHavePermission =>
                "The logged in session does not have permission",
            SynologyStatusCode::SessionTimeout => "Session timeout",
            SynologyStatusCode::SessionInterruptedByDuplicateLogin =>
                "Session interrupted by duplicate login",
            SynologyStatusCode::SidNotFound => "SID not found",
            SynologyStatusCode::InvalidParameterOfFileOperation =>
                "Invalid parameter of file operation",
            SynologyStatusCode::UnknownErrorOfFileOperation => "Unknown error of file operation",
            SynologyStatusCode::SystemIsTooBusy => "System is too busy",
            SynologyStatusCode::InvalidUserDoesThisFileOperation =>
                "Invalid user does this file operation",
            SynologyStatusCode::InvalidGroupDoesThisFileOperation =>
                "Invalid group does this file operation",
            SynologyStatusCode::InvalidUserAndGroupDoesThisFileOperation =>
                "Invalid user and group does this file operation",
            SynologyStatusCode::CantGetUserGroupInformationFromTheAccountServer =>
                "Can't get user/group information from the account server",
            SynologyStatusCode::OperationNotPermitted => "Operation not permitted",
            SynologyStatusCode::NoSuchFileOrDirectory => "No such file or directory",
            SynologyStatusCode::NonSupportedFileSystem => "Non-supported file system",
            SynologyStatusCode::FailedToConnectInternetBasedFileSystem =>
                "Failed to connect internet-based file system (e.g., CIFS)",
            SynologyStatusCode::ReadOnlyFileSystem => "Read-only file system",
            SynologyStatusCode::FilenameTooLongInTheNonEncryptedFileSystem =>
                "Filename too long in the non-encrypted file system",
            SynologyStatusCode::FilenameTooLongInTheEncryptedFileSystem =>
                "Filename too long in the encrypted file system",
            SynologyStatusCode::FileAlreadyExists => "File already exists",
            SynologyStatusCode::DiskQuotaExceeded => "Disk quota exceeded",
            SynologyStatusCode::NoSpaceLeftOnDevice => "No space left on device",
            SynologyStatusCode::InputOutputError => "Input/output error",
            SynologyStatusCode::IllegalNameOrPath => "Illegal name or path",
            SynologyStatusCode::IllegalFileName => "Illegal file name",
            SynologyStatusCode::IllegalFileNameOnFatFileSystem =>
                "Illegal file name on FAT file system",
            SynologyStatusCode::DeviceOrResourceBusy => "Device or resource busy",
            SynologyStatusCode::NoSuchTaskOfTheFileOperation =>
                "No such task of the file operation",
        }
    }

    /// Decoding the number of a status gives that status back.
    pub proof fn lemma_code_round_trip(self)
        ensures
            Self::spec_from_u32(self.spec_code()) == Some(self),
    {
    }

    /// A number decodes to a status only if it is that status's number.
    pub proof fn lemma_from_u32_sound(code: u32)
        ensures
            Self::spec_from_u32(code) matches Some(status) ==> status.spec_code() == code,
            Self::spec_from_u32(code) is Some <==> (100 <= code <= 107 || code == 119 || 400 <= code
                <= 421 || code == 599),
    {
    }
}

/// Why a call to the appliance failed.
#[derive(Clone, Copy, Debug, PartialEq, Eq, Structural)]
pub enum SynologyErrorStatus {
    /// The appliance answered with an error envelope whose code is in the table.
    ServerError(SynologyStatusCode),
    /// The appliance answered with an error envelope whose code is not in the table.
    UnknownServerError(u32),
    /// The HTTP status was outside the 2xx range.
    HttpError(u16),
    /// No response arrived, or its body could not be read.
    TransportError,
    /// The body was not the JSON envelope that was expected.
    DecodeError,
    /// The appliance asks for a one-time code and none was given.
    NoTotp,
    /// The call needs a session and there is none.
    NotLoggedIn,
    /// The envelope held neither a result nor an error.
    MalformedResponse,
    /// A name could not be formed from what was given.
    UnknownError,
}

impl SynologyErrorStatus {
    /// The text shown to the user for this failure.
    pub open spec fn spec_message(self) -> Seq<char> {
        match self {
            SynologyErrorStatus::ServerError(status) => status.spec_message(),
            SynologyErrorStatus::UnknownServerError(_) =>
                "The server reported an unknown error code."@,
            SynologyErrorStatus::HttpError(_) => "HTTP error occurred."@,
            SynologyErrorStatus::TransportError => "The request could not be completed."@,
            SynologyErrorStatus::DecodeError => "The response could not be decoded."@,
            SynologyErrorStatus::NoTotp => "TOTP required but not provided"@,
            SynologyErrorStatus::NotLoggedIn => "No user logged in"@,
            SynologyErrorStatus::MalformedResponse =>
                "The response held neither data nor an error."@,
            SynologyErrorStatus::UnknownError => "An unknown error occurred."@,
        }
    }

    /// The text shown to the user for this failure.
    pub fn message(&self) -> (r: &'static str)
        ensures
            r@ == self.spec_message(),
    {
        match self {
            SynologyErrorStatus::ServerError(status) => status.message(),
            SynologyErrorStatus::UnknownServerError(_) =>
                "The server reported an unknown error code.",
            SynologyErrorStatus::HttpError(_) => "HTTP error occurred.",
            SynologyErrorStatus::TransportError => "The request could not be completed.",
            SynologyErrorStatus::DecodeError => "The response could not be decoded.",
            SynologyErrorStatus::NoTotp => "TOTP required but not provided",
            SynologyErrorStatus::NotLoggedIn => "No user logged in",
            SynologyErrorStatus::MalformedResponse =>
                "The response held neither data nor an error.",
            SynologyErrorStatus::UnknownError => "An unknown error occurred.",
        }
    }

    /// The failure that an error code of the envelope stands for.
    pub open spec fn spec_from_code(code: u32) -> SynologyErrorStatus {
        match SynologyStatusCode::spec_from_u32(code) {
            Some(status) => SynologyErrorStatus::ServerError(status),
            None => SynologyErrorStatus::UnknownServerError(code),
        }
    }

    /// Maps an error code of the envelope through the table of status codes.
    pub fn from_code(code: u32) -> (r: SynologyErrorStatus)
        ensures
            r == Self::spec_from_code(code),
    {
        match SynologyStatusCode::from_u32(code) {
            Some(status) => SynologyErrorStatus::ServerError(status),
            None => SynologyErrorStatus::UnknownServerError(code),
        }
    }
}

/// The result of an endpoint that returns nothing.
#[derive(Clone, Debug)]
pub struct Empty {}

/// The envelope around every reply of the appliance.
#[derive(Clone, Debug)]
pub struct SynologyResult<TData, TErrors> {
    pub success: bool,
    pub data: Option<TData>,
    pub error: Option<SynologyError<TErrors>>,
}

/// The error part of the envelope.
#[derive(Clone, Debug)]
pub struct SynologyError<TErrors> {
    pub code: u32,
    pub errors: Option<TErrors>,
}

/// What a successful login returns: the session and, if one was issued, a device token.
#[derive(Clone, Debug)]
pub struct LoginResponse {
    pub sid: String,
    pub did: Option<String>,
}

/// The detail of a refused login. Each element of `types` is one object of
/// the reply, as its key and value pairs.
#[derive(Clone, Debug)]
pub struct LoginError {
    pub token: String,
    pub types: Vec<Vec<(String, String)>>,
}

/// What creating a folder returns.
#[derive(Clone, Debug)]
pub struct CreateFolderResponse {
    pub folders: Vec<FolderModel>,
}

/// One created folder.
#[derive(Clone, Debug)]
pub struct FolderModel {
    pub isdir: bool,
    pub name: String,
    pub path: String,
}

/// One page of a folder's listing.
#[derive(Debug)]
pub struct ListResponse {
    pub total: u64,
    pub offset: u64,
    pub files: Vec<File>,
}

/// One page of the listing of shares.
#[derive(Debug)]
pub struct ListShareResponse {
    pub total: u64,
    pub offset: u64,
    pub shares: Vec<File>,
}

/// One entry of a listing.
#[derive(Debug)]
pub struct File {
    pub path: String,
    pub name: String,
    pub isdir: bool,
    pub children: Option<FileChildren>,
}

/// The entries below a listed folder.
#[derive(Debug)]
pub struct FileChildren {
    pub total: u32,
    pub offset: i32,
    pub files: Vec<File>,
}

/// The optional detail of a listed entry.
#[derive(Clone, Debug)]
pub struct FileAdditional {
    pub real_path: Option<String>,
    pub size: Option<u64>,
    pub owner: Option<FileOwner>,
    pub time: Option<FileTime>,
    pub perm: Option<FilePerm>,
    pub mount_point_time: Option<String>,
    pub extension: Option<String>,
}

#[derive(Clone, Debug)]
pub struct FileOwner {
    pub user: String,
    pub group: String,
    pub uid: i32,
    pub gid: i32,
}

/// Times of a listed entry, in seconds since the epoch.
#[derive(Clone, Copy, Debug)]
pub struct FileTime {
    pub atime: u64,
    pub mtime: u64,
    pub ctime: u64,
    pub crtime: u64,
}

#[derive(Clone, Copy, Debug)]
pub struct FilePerm {
    pub posix: u32,
    pub is_acl_mode: bool,
    pub acl: FileAcl,
}

#[derive(Clone, Copy, Debug)]
pub struct FileAcl {
    pub append: bool,
    pub del: bool,
    pub execute: bool,
    pub read: bool,
    pub write: bool,
}

/// The names of the entries of a listing, in order.
pub open spec fn names_of(files: Seq<File>) -> Seq<Seq<char>> {
    Seq::new(files.len(), |i: int| files[i].name@)
}

/// Whether an entry of the listing has the given name.
pub fn listing_contains(files: &Vec<File>, name: &str) -> (r: bool)
    ensures
        r == names_of(files@).contains(name@),
{
    let mut i: usize = 0;
    while i < files.len()
        invariant
            i <= files.len(),
            forall|j: int| 0 <= j < i ==> files@[j].name@ != name@,
        decreases files.len() - i,
    {
        if str_eq(files[i].name.as_str(), name) {
            assert(names_of(files@)[i as int] == name@);
            return true;
        }
        i = i + 1;
    }
    false
}

} // verus!
