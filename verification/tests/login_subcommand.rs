use git_lfs_synology::credential_manager::{Credential, CredentialManager, StoreAction};
use git_lfs_synology::configuration::{ConfigError, Configuration};
use git_lfs_synology::subcommands::login_subcommand::{LoginEvent, LoginState, LoginStep};
use git_lfs_synology::subcommands::{LoginSubcommand, LogoutSubcommand};
use git_lfs_synology::synology_api::file_station::{HttpBody, HttpOutcome, SynologyFileStation};
use git_lfs_synology::synology_api::responses::{
    LoginError, LoginResponse, SynologyError, SynologyErrorStatus, SynologyResult, SynologyStatusCode,
};

fn reply(sid: &str, did: Option<&str>) -> HttpOutcome<SynologyResult<LoginResponse, LoginError>> {
    HttpOutcome::Response {
        status: 200,
        body: HttpBody::Decoded(SynologyResult {
            success: true,
            data: Some(LoginResponse { sid: sid.to_string(), did: did.map(|d| d.to_string()) }),
            error: None,
        }),
    }
}

fn otp_wanted() -> HttpOutcome<SynologyResult<LoginResponse, LoginError>> {
    HttpOutcome::Response {
        status: 200,
        body: HttpBody::Decoded(SynologyResult {
            success: false,
            data: None,
            error: Some(SynologyError {
                code: 403,
                errors: Some(LoginError {
                    token: "T".to_string(),
                    types: vec![vec![("type".to_string(), "otp".to_string())]],
                }),
            }),
        }),
    }
}

#[test]
fn fresh_login_without_second_factor() {
    let command = LoginSubcommand {};
    let mut store = CredentialManager::new();
    let configuration = Configuration::load("filestation-secure://host/lfs").unwrap();
    let url = format!("{}{}", configuration.nas_url, configuration.path);
    assert_eq!(url, "https://host/lfs");

    let stored = store.get_credential(&url).unwrap();
    assert!(command.needs_password(&stored));
    let credential = command.credential("alice", stored, "secret".to_string());
    assert_eq!(credential.user, "alice");
    assert_eq!(credential.password, "secret");
    assert_eq!(credential.device_id, None);

    let mut station = SynologyFileStation::new(&url);
    let request = command.first_attempt(&station, &credential, "box");
    assert!(request.contains("&account=alice&passwd=secret&enable_device_token=false&"));
    assert!(!request.contains("otp_code"));
    let result = station.login_response(&credential, reply("S", None));
    let kept = match command.after_first_attempt(result) {
        LoginStep::Store(kept) => kept,
        _ => panic!("the login succeeded"),
    };
    store.take_journal();
    store.set_credential(&url, &kept).unwrap();

    let journal = store.take_journal();
    assert_eq!(journal.len(), 2);
    match &journal[0] {
        StoreAction::InsertRow(row) => {
            assert_eq!(row.url, "https://host/lfs");
            assert_eq!(row.user, "alice");
            assert_eq!(row.device_id_encrypted, None);
            assert_eq!(row.device_id_nonce, None);
        }
        _ => panic!("a row is written first"),
    }
    match &journal[1] {
        StoreAction::SetPassword(entry) => {
            assert_eq!(entry.service, "https://host/lfs");
            assert_eq!(entry.account, "alice");
            assert_eq!(entry.password, "secret");
        }
        _ => panic!("the password is written second"),
    }
}

#[test]
fn login_with_totp_keeps_the_device_token() {
    let command = LoginSubcommand {};
    let mut store = CredentialManager::new();
    let url = "https://host/lfs";
    let credential = command.credential("alice", None, "secret".to_string());
    let mut station = SynologyFileStation::new(url);

    let first = station.login_response(&credential, otp_wanted());
    assert!(matches!(command.after_first_attempt(first), LoginStep::PromptTotp));

    let request = command.second_attempt(&station, &credential, "123456".to_string(), "box");
    assert!(request.contains("&enable_device_token=true&"));
    assert!(request.ends_with("&otp_code=123456"));
    let second = station.login_response(&credential, reply("S", Some("D")));
    let kept = match command.after_second_attempt(second) {
        LoginStep::Store(kept) => kept,
        _ => panic!("the login succeeded"),
    };
    assert_eq!(kept.device_id, Some("D".to_string()));
    store.set_credential(url, &kept).unwrap();

    let row = store
        .take_journal()
        .into_iter()
        .find_map(|action| match action {
            StoreAction::InsertRow(row) => Some(row),
            _ => None,
        })
        .unwrap();
    assert_eq!(row.device_id_nonce.map(|n| n.len()), Some(12));
    assert!(row.device_id_encrypted.is_some());
    let read = store.get_credential(url).unwrap().unwrap();
    assert_eq!(read.device_id, Some("D".to_string()));
    assert_eq!(read.password, "secret");
}

#[test]
fn stored_credential_spares_the_prompt() {
    let command = LoginSubcommand {};
    let mut kept = Credential::new("old".to_string(), "stored".to_string());
    kept.device_id = Some("D".to_string());
    let stored = Some(kept);
    assert!(!command.needs_password(&stored));
    let credential = command.credential("alice", stored, "typed".to_string());
    assert_eq!(credential.user, "alice");
    assert_eq!(credential.password, "stored");
    assert_eq!(credential.device_id, Some("D".to_string()));
    assert_eq!(credential.totp, None);
}

#[test]
fn other_failures_end_the_command() {
    let command = LoginSubcommand {};
    let refused = SynologyErrorStatus::ServerError(SynologyStatusCode::InvalidUserDoesThisFileOperation);
    assert!(matches!(command.after_first_attempt(Err(refused)), LoginStep::Fail(e) if e == refused));
    assert!(matches!(
        command.after_first_attempt(Err(SynologyErrorStatus::TransportError)),
        LoginStep::Fail(SynologyErrorStatus::TransportError)
    ));
    // a second request for a code is a failure
    assert!(matches!(
        command.after_second_attempt(Err(SynologyErrorStatus::NoTotp)),
        LoginStep::Fail(SynologyErrorStatus::NoTotp)
    ));
}

#[test]
fn logout_forgets_the_credential() {
    let mut logout = LogoutSubcommand {};
    let mut store = CredentialManager::new();
    store
        .set_credential("https://host/lfs", &Credential::new("alice".to_string(), "secret".to_string()))
        .unwrap();
    logout.execute(&mut store, "https://host/lfs/").unwrap();
    assert!(!store.has_credential("https://host/lfs").unwrap());
    logout.execute(&mut store, "https://host/lfs").unwrap();
    logout.execute(&mut store, "https://elsewhere").unwrap();
}

#[test]
fn credential_is_kept_under_the_rewritten_url() {
    let login = LoginSubcommand {};
    let logout = LogoutSubcommand {};
    assert_eq!(login.appliance("filestation-secure://host/lfs"), Ok("https://host/lfs".to_string()));
    assert_eq!(login.appliance("filestation://host:5000"), Ok("http://host:5000".to_string()));
    assert_eq!(logout.appliance("filestation-secure://host/lfs"), Ok("https://host/lfs".to_string()));
    assert_eq!(login.appliance("https://host/lfs"), Err(ConfigError::UnknownScheme));
    assert_eq!(logout.appliance("host"), Err(ConfigError::UnknownScheme));

    let mut store = CredentialManager::new();
    let appliance = login.appliance("filestation-secure://host/lfs/").unwrap();
    store
        .set_credential(&appliance, &Credential::new("alice".to_string(), "secret".to_string()))
        .unwrap();
    let row = store
        .take_journal()
        .into_iter()
        .find_map(|action| match action {
            StoreAction::InsertRow(row) => Some(row),
            _ => None,
        })
        .unwrap();
    assert_eq!(row.url, "https://host/lfs");
    let mut command = logout;
    let key = command.appliance("filestation-secure://host/lfs").unwrap();
    command.execute(&mut store, &key).unwrap();
    assert!(!store.has_credential("https://host/lfs").unwrap());
}

fn send(step: &LoginStep) -> String {
    match step {
        LoginStep::Send(url) => url.clone(),
        _ => panic!("a login is to be sent"),
    }
}

#[test]
fn steps_of_a_login_that_is_accepted_at_once() {
    let command = LoginSubcommand {};
    let mut station = SynologyFileStation::new("https://host");
    let credential = command.credential("alice", None, "secret".to_string());
    let (state, step) = command.step(&station, &credential, "box", LoginState::Start, LoginEvent::Begin);
    assert_eq!(state, LoginState::FirstSent);
    assert_eq!(
        send(&step),
        "https://host/webapi/entry.cgi?api=SYNO.API.Auth&version=6&method=login&account=alice&passwd=secret\
         &enable_device_token=false&device_name=box::rust_synology_api&session=FileStation&format=sid"
    );
    let answer = station.login_response(&credential, reply("S", None));
    let (state, step) = command.step(&station, &credential, "box", state, LoginEvent::Answer(answer));
    assert_eq!(state, LoginState::Finished);
    match step {
        LoginStep::Store(kept) => {
            assert_eq!(kept.user, "alice");
            assert_eq!(kept.password, "secret");
            assert_eq!(kept.device_id, None);
        }
        _ => panic!("the credential is to be stored"),
    }
    assert_eq!(station.session_id(), Some("S".to_string()));
}

#[test]
fn steps_of_a_login_with_a_one_time_code() {
    let command = LoginSubcommand {};
    let mut station = SynologyFileStation::new("https://host");
    let credential = command.credential("alice", None, "secret".to_string());
    let mut sent = 0;

    let (state, step) = command.step(&station, &credential, "box", LoginState::Start, LoginEvent::Begin);
    assert!(send(&step).contains("&enable_device_token=false&"));
    sent += 1;
    let answer = station.login_response(&credential, otp_wanted());
    let (state, step) = command.step(&station, &credential, "box", state, LoginEvent::Answer(answer));
    assert_eq!(state, LoginState::Prompting);
    assert!(matches!(step, LoginStep::PromptTotp));
    assert!(!station.is_logged_in());

    let (state, step) =
        command.step(&station, &credential, "box", state, LoginEvent::Totp("123456".to_string()));
    assert_eq!(state, LoginState::SecondSent);
    assert_eq!(
        send(&step),
        "https://host/webapi/entry.cgi?api=SYNO.API.Auth&version=6&method=login&account=alice&passwd=secret\
         &enable_device_token=true&device_name=box::rust_synology_api&session=FileStation&format=sid\
         &otp_code=123456"
    );
    sent += 1;
    let answer = station.login_response(&credential, reply("S", Some("D")));
    let (state, step) = command.step(&station, &credential, "box", state, LoginEvent::Answer(answer));
    assert_eq!(state, LoginState::Finished);
    assert_eq!(sent, 2);
    match step {
        LoginStep::Store(kept) => assert_eq!(kept.device_id, Some("D".to_string())),
        _ => panic!("the credential is to be stored"),
    }
    assert_eq!(station.session_id(), Some("S".to_string()));
}

#[test]
fn a_second_request_for_a_code_ends_the_login() {
    let command = LoginSubcommand {};
    let mut station = SynologyFileStation::new("https://host");
    let credential = command.credential("alice", None, "secret".to_string());
    let answer = station.login_response(&credential, otp_wanted());
    let (state, step) =
        command.step(&station, &credential, "box", LoginState::SecondSent, LoginEvent::Answer(answer));
    assert_eq!(state, LoginState::Finished);
    assert!(matches!(step, LoginStep::Fail(SynologyErrorStatus::NoTotp)));
}

#[test]
fn steps_out_of_place_end_the_login() {
    let command = LoginSubcommand {};
    let station = SynologyFileStation::new("https://host");
    let credential = command.credential("alice", None, "secret".to_string());
    for (state, event) in [
        (LoginState::Start, LoginEvent::Totp("1".to_string())),
        (LoginState::FirstSent, LoginEvent::Begin),
        (LoginState::Prompting, LoginEvent::Begin),
        (LoginState::SecondSent, LoginEvent::Totp("1".to_string())),
        (LoginState::Finished, LoginEvent::Begin),
    ] {
        let (next, step) = command.step(&station, &credential, "box", state, event);
        assert_eq!(next, LoginState::Finished);
        assert!(matches!(step, LoginStep::Fail(SynologyErrorStatus::UnknownError)));
    }
}
