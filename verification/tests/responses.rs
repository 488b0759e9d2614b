use git_lfs_synology::synology_api::responses::{SynologyErrorStatus, SynologyStatusCode};
use git_lfs_synology::synology_file_station::{SynologyError, SynologyFileStation};
use git_lfs_synology::credential_manager::Credential;

#[test]
fn status_codes_decode() {
    assert_eq!(SynologyStatusCode::from_u32(100), Some(SynologyStatusCode::UnknownError));
    assert_eq!(SynologyStatusCode::from_u32(107), Some(SynologyStatusCode::SessionInterruptedByDuplicateLogin));
    assert_eq!(SynologyStatusCode::from_u32(119), Some(SynologyStatusCode::SidNotFound));
    assert_eq!(SynologyStatusCode::from_u32(400), Some(SynologyStatusCode::InvalidParameterOfFileOperation));
    assert_eq!(SynologyStatusCode::from_u32(403), Some(SynologyStatusCode::InvalidUserDoesThisFileOperation));
    assert_eq!(SynologyStatusCode::from_u32(414), Some(SynologyStatusCode::FileAlreadyExists));
    assert_eq!(SynologyStatusCode::from_u32(421), Some(SynologyStatusCode::DeviceOrResourceBusy));
    assert_eq!(SynologyStatusCode::from_u32(599), Some(SynologyStatusCode::NoSuchTaskOfTheFileOperation));
}

#[test]
fn numbers_outside_the_table_decode_to_nothing() {
    for code in [0u32, 1, 99, 108, 118, 120, 399, 422, 598, 600, u32::MAX] {
        assert_eq!(SynologyStatusCode::from_u32(code), None, "{}", code);
    }
}

#[test]
fn every_number_round_trips() {
    let mut known = 0;
    for code in 0u32..1000 {
        if let Some(status) = SynologyStatusCode::from_u32(code) {
            assert_eq!(status.code(), code);
            known += 1;
        }
    }
    assert_eq!(known, 32);
}

#[test]
fn status_messages() {
    assert_eq!(SynologyStatusCode::UnknownError.message(), "Unknown error");
    assert_eq!(SynologyStatusCode::FileAlreadyExists.message(), "File already exists");
    assert_eq!(
        SynologyStatusCode::FailedToConnectInternetBasedFileSystem.message(),
        "Failed to connect internet-based file system (e.g., CIFS)"
    );
    assert_eq!(
        SynologyStatusCode::CantGetUserGroupInformationFromTheAccountServer.message(),
        "Can't get user/group information from the account server"
    );
    assert_eq!(SynologyStatusCode::InputOutputError.message(), "Input/output error");
}

#[test]
fn error_status_from_code_and_messages() {
    assert_eq!(
        SynologyErrorStatus::from_code(403),
        SynologyErrorStatus::ServerError(SynologyStatusCode::InvalidUserDoesThisFileOperation)
    );
    assert_eq!(SynologyErrorStatus::from_code(42), SynologyErrorStatus::UnknownServerError(42));
    assert_eq!(SynologyErrorStatus::from_code(403).message(), "Invalid user does this file operation");
    assert_eq!(SynologyErrorStatus::NoTotp.message(), "TOTP required but not provided");
    assert_eq!(SynologyErrorStatus::NotLoggedIn.message(), "No user logged in");
    assert_eq!(SynologyErrorStatus::HttpError(500).message(), "HTTP error occurred.");
    assert_eq!(SynologyErrorStatus::UnknownError.message(), "An unknown error occurred.");
}

#[test]
fn first_client_accepts_every_login() {
    let station = SynologyFileStation::new("https://host");
    assert_eq!(station.url(), "https://host");
    let credential = Credential::new("alice".to_string(), "secret".to_string());
    assert_eq!(station.login(&credential), Ok(()));
    assert_eq!(SynologyError::FileAlreadyExists.code(), 414);
    assert_eq!(SynologyError::UnknownError.code(), 100);
    assert_eq!(SynologyError::NoSuchTaskOfTheFileOperation.code(), 599);
}
