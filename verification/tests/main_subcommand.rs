use git_lfs_synology::configuration::Configuration;
use git_lfs_synology::credential_manager::Credential;
use git_lfs_synology::git_lfs::git_lfs_parser::{Event, EventType};
use git_lfs_synology::subcommands::main_subcommand::{
    compressed_temp_path, remote_name, target_directory, PipelineError, ProvisionAction,
    ProvisionEvent, ProvisionState, RemoteProbe, CREATE_TARGET_FOLDER_LOCK,
};
use git_lfs_synology::subcommands::MainSubcommand;
use git_lfs_synology::synology_api::file_station::{HttpBody, HttpOutcome, SynologyFileStation};
use git_lfs_synology::synology_api::responses::{File, LoginResponse, SynologyErrorStatus, SynologyResult};

fn agent() -> MainSubcommand {
    let mut station = SynologyFileStation::new("https://host");
    let credential = Credential::new("alice".to_string(), "secret".to_string());
    station
        .login_response(
            &credential,
            HttpOutcome::Response {
                status: 200,
                body: HttpBody::Decoded(SynologyResult {
                    success: true,
                    data: Some(LoginResponse { sid: "S".to_string(), did: None }),
                    error: None,
                }),
            },
        )
        .unwrap();
    let mut agent = MainSubcommand::new();
    agent.set_file_station(station);
    agent
}

fn configuration() -> Configuration {
    Configuration { nas_url: "https://host".to_string(), path: "/lfs/objects".to_string() }
}

fn event(kind: EventType, oid: Option<&str>, path: Option<&str>, size: Option<usize>) -> Event {
    Event { event: kind, oid: oid.map(|s| s.to_string()), path: path.map(|s| s.to_string()), size }
}

fn file(name: &str) -> File {
    File { path: format!("/lfs/objects/{}", name), name: name.to_string(), isdir: false, children: None }
}

const LIST: &str = "https://host/webapi/entry.cgi?api=SYNO.FileStation.List&version=2&method=list&_sid=S";

#[test]
fn root_is_the_empty_path_or_a_slash() {
    let agent = MainSubcommand::new();
    assert!(agent.is_path_root("/"));
    assert!(agent.is_path_root(""));
    assert!(!agent.is_path_root("//"));
    assert!(!agent.is_path_root("/lfs"));
    assert!(!agent.is_path_root(" "));
}

#[test]
fn name_is_the_last_segment() {
    let agent = MainSubcommand::new();
    assert_eq!(agent.get_name("/lfs/objects"), "objects");
    assert_eq!(agent.get_name("/lfs"), "lfs");
    assert_eq!(agent.get_name("/lfs/"), "");
    assert_eq!(agent.get_name("lfs"), "lfs");
    assert_eq!(agent.get_name("/"), "");
    assert_eq!(agent.get_name(""), "");
    assert_eq!(agent.get_name("/ä/ö"), "ö");
}

#[test]
fn parent_is_what_stands_before_the_last_slash() {
    let agent = MainSubcommand::new();
    assert_eq!(agent.get_parent_path("/lfs/objects"), Ok(Some("/lfs".to_string())));
    assert_eq!(agent.get_parent_path("/lfs"), Ok(Some("".to_string())));
    assert_eq!(agent.get_parent_path("/lfs/"), Ok(Some("/lfs".to_string())));
    assert_eq!(agent.get_parent_path("/ä/ö/ü"), Ok(Some("/ä/ö".to_string())));
    assert_eq!(agent.get_parent_path("/"), Ok(None));
    assert_eq!(agent.get_parent_path(""), Ok(None));
    assert_eq!(agent.get_parent_path("lfs"), Err(PipelineError::NotAbsolute));
}

#[test]
fn root_exists_without_asking() {
    // neither a session nor a request is needed
    let agent = MainSubcommand::new();
    assert!(matches!(agent.exists_on_remote("/"), Ok(RemoteProbe::Known(true))));
    assert!(matches!(agent.exists_on_remote(""), Ok(RemoteProbe::Known(true))));
    let probe = agent.exists_on_remote("/").unwrap();
    assert!(probe.answer(&vec![]));
}

#[test]
fn share_is_looked_for_among_the_shares() {
    let agent = agent();
    match agent.exists_on_remote("/lfs").unwrap() {
        RemoteProbe::ListShares { url, name } => {
            assert_eq!(
                url,
                "https://host/webapi/entry.cgi?api=SYNO.FileStation.List&version=2&method=list_share&_sid=S"
            );
            assert_eq!(name, "lfs");
        }
        other => panic!("{:?}", other),
    }
}

#[test]
fn folder_is_looked_for_in_its_parent() {
    let agent = agent();
    let probe = agent.exists_on_remote("/lfs/objects/abc").unwrap();
    match &probe {
        RemoteProbe::List { url, name } => {
            assert_eq!(url, &format!("{}&folder_path=%2Flfs%2Fobjects", LIST));
            assert_eq!(name, "abc");
        }
        other => panic!("{:?}", other),
    }
    assert!(probe.answer(&vec![file("x"), file("abc")]));
    assert!(!probe.answer(&vec![file("x"), file("abc.zstd")]));
    assert!(!probe.answer(&vec![]));
}

#[test]
fn probes_need_a_session_and_an_absolute_path() {
    let agent = MainSubcommand::new();
    assert!(!agent.has_file_station());
    assert!(matches!(agent.exists_on_remote("/lfs"), Err(PipelineError::NoSession)));
    assert!(matches!(agent.exists_on_remote("/lfs/objects"), Err(PipelineError::NoSession)));
    assert!(matches!(agent.exists_on_remote("lfs"), Err(PipelineError::NotAbsolute)));
    let mut logged_out = MainSubcommand::new();
    logged_out.set_file_station(SynologyFileStation::new("https://host"));
    assert!(logged_out.has_file_station());
    assert!(matches!(
        logged_out.exists_on_remote("/lfs"),
        Err(PipelineError::Station(SynologyErrorStatus::NotLoggedIn))
    ));
}

#[test]
fn object_is_probed_as_it_is_and_compressed() {
    let agent = agent();
    let plain = agent.exists_on_remote("/lfs/objects/abcdef").unwrap();
    assert!(matches!(&plain, RemoteProbe::List { name, .. } if name == "abcdef"));
    let listing = vec![file("abcdef.zstd")];
    assert!(!plain.answer(&listing));
    let compressed = agent
        .exists_on_remote_compressed_or_uncompressed("/lfs/objects/abcdef", false)
        .unwrap();
    match &compressed {
        RemoteProbe::List { url, name } => {
            assert_eq!(url, &format!("{}&folder_path=%2Flfs%2Fobjects", LIST));
            assert_eq!(name, "abcdef.zstd");
        }
        other => panic!("{:?}", other),
    }
    assert!(compressed.answer(&listing));
    assert!(!compressed.answer(&vec![file("abcdef")]));
}

#[test]
fn object_that_is_there_as_it_is_needs_no_second_question() {
    let agent = agent();
    let probe = agent
        .exists_on_remote_compressed_or_uncompressed("/lfs/objects/abcdef", true)
        .unwrap();
    assert!(matches!(probe, RemoteProbe::Known(true)));
    // not even a session is needed
    let probe = MainSubcommand::new()
        .exists_on_remote_compressed_or_uncompressed("/lfs/objects/abcdef", true)
        .unwrap();
    assert!(probe.answer(&vec![]));
    assert!(matches!(
        MainSubcommand::new().exists_on_remote_compressed_or_uncompressed("/lfs/objects/abcdef", false),
        Err(PipelineError::NoSession)
    ));
}

#[test]
fn upload_of_an_object_that_is_there_compressed_sends_nothing() {
    let agent = agent();
    let config = Configuration { nas_url: "https://host".to_string(), path: "/lfs/objects".to_string() };
    let oid = "abcdef0123456789";
    let upload = event(EventType::Upload, Some(oid), Some("/tmp/x"), Some(1024));
    let path = agent.object_path(&config, &upload).unwrap();
    assert_eq!(path, "/lfs/objects/abcdef0123456789");
    let remote = vec![file("abcdef0123456789.zstd")];
    let plain = agent.exists_on_remote(&path).unwrap().answer(&remote);
    assert!(!plain);
    let exists = agent
        .exists_on_remote_compressed_or_uncompressed(&path, plain)
        .unwrap()
        .answer(&remote);
    assert!(exists);
    let choice = agent.compress_file("/tmp/x", 1024, "/cache/x.zstd", 100);
    assert!(agent.upload(&config, &upload, &choice, exists).unwrap().is_none());
}

#[test]
fn object_paths_for_the_probes() {
    let agent = MainSubcommand::new();
    let config = configuration();
    let download = event(EventType::Download, Some("deadbeef"), None, Some(7));
    assert_eq!(agent.object_path(&config, &download), Ok("/lfs/objects/deadbeef".to_string()));
    assert_eq!(
        agent.compressed_object_path(&config, &download),
        Ok("/lfs/objects/deadbeef.zstd".to_string())
    );
    let root = Configuration { nas_url: "https://host".to_string(), path: "/".to_string() };
    assert_eq!(agent.object_path(&root, &download), Ok("/deadbeef".to_string()));
    let nameless = event(EventType::Download, None, None, Some(7));
    assert_eq!(agent.object_path(&config, &nameless), Err(PipelineError::MissingOid));
    assert_eq!(agent.compressed_object_path(&config, &nameless), Err(PipelineError::MissingOid));
}

#[test]
fn target_folder_that_exists_is_left_alone() {
    let agent = agent();
    assert_eq!(agent.create_target_folder("/lfs/objects", true), Ok(None));
    assert_eq!(MainSubcommand::new().create_target_folder("nonsense", true), Ok(None));
}

#[test]
fn target_folder_is_created_below_its_parent() {
    let agent = agent();
    assert_eq!(
        agent.create_target_folder("/lfs/objects", false),
        Ok(Some(
            "https://host/webapi/entry.cgi?api=SYNO.FileStation.CreateFolder&version=2&method=create&_sid=S\
             &folder_path=%2Flfs&name=objects&force_parent=true"
                .to_string()
        ))
    );
    assert_eq!(agent.create_target_folder("/", false), Err(PipelineError::NoParent));
    assert_eq!(agent.create_target_folder("lfs", false), Err(PipelineError::NotAbsolute));
    assert_eq!(MainSubcommand::new().create_target_folder("/lfs", false), Err(PipelineError::NoSession));
    assert_eq!(CREATE_TARGET_FOLDER_LOCK, "git-lfs-synology::MainSubcommand::create_target_folder");
}

#[test]
fn compressed_form_is_kept_only_where_strictly_smaller() {
    let agent = MainSubcommand::new();
    let smaller = agent.compress_file("/repo/abc", 1000, "/cache/abc.zstd", 999);
    assert!(smaller.compressed);
    assert_eq!(smaller.path, "/cache/abc.zstd");
    let equal = agent.compress_file("/repo/abc", 1000, "/cache/abc.zstd", 1000);
    assert!(!equal.compressed);
    assert_eq!(equal.path, "/repo/abc");
    let larger = agent.compress_file("/repo/abc", 1000, "/cache/abc.zstd", 1013);
    assert!(!larger.compressed);
    assert_eq!(larger.path, "/repo/abc");
    let empty = agent.compress_file("/repo/abc", 0, "/cache/abc.zstd", 9);
    assert!(!empty.compressed);
}

#[test]
fn remote_name_follows_the_form_sent() {
    assert_eq!(remote_name("abcdef", false), "abcdef");
    assert_eq!(remote_name("abcdef", true), "abcdef.zstd");
    assert_eq!(remote_name("", true), ".zstd");
}

#[test]
fn compressed_temp_stands_in_the_cache() {
    assert_eq!(
        compressed_temp_path("/home/u/.cache/git-lfs-synology", "/repo/.git/lfs/objects/ab/cd/abcdef"),
        Ok("/home/u/.cache/git-lfs-synology/abcdef.zstd".to_string())
    );
    assert_eq!(compressed_temp_path("/cache/", "abcdef"), Ok("/cache/abcdef.zstd".to_string()));
    assert_eq!(compressed_temp_path("/cache", "/repo/"), Err(PipelineError::NoFileName));
    assert_eq!(compressed_temp_path("/cache", "/repo/.."), Err(PipelineError::NoFileName));
}

#[test]
fn upload_sends_the_chosen_file_under_the_object_name() {
    let agent = agent();
    let upload = event(EventType::Upload, Some("abcdef"), Some("/repo/x"), Some(1024));
    let choice = agent.compress_file("/repo/x", 1024, "/cache/x.zstd", 100);
    let request = agent.upload(&configuration(), &upload, &choice, false).unwrap().unwrap();
    assert_eq!(
        request.url,
        "https://host/webapi/entry.cgi?api=SYNO.FileStation.Upload&version=2&method=upload&_sid=S"
    );
    assert_eq!(
        request.fields,
        vec![
            ("path".to_string(), "/lfs/objects".to_string()),
            ("create_parents".to_string(), "false".to_string()),
            ("overwrite".to_string(), "false".to_string()),
        ]
    );
    assert_eq!(request.file_name, "abcdef.zstd");
    assert_eq!(request.file_field, "files");
    assert_eq!(request.content_type, "application/octet-stream");

    let choice = agent.compress_file("/repo/x", 1024, "/cache/x.zstd", 2000);
    let request = agent.upload(&configuration(), &upload, &choice, false).unwrap().unwrap();
    assert_eq!(request.file_name, "abcdef");
}

#[test]
fn upload_needs_size_object_and_session() {
    let agent = agent();
    let choice = agent.compress_file("/repo/x", 1, "/cache/x.zstd", 1);
    let config = configuration();
    assert!(matches!(
        agent.upload(&config, &event(EventType::Upload, Some("a"), Some("/repo/x"), None), &choice, true),
        Err(PipelineError::MissingSize)
    ));
    assert!(matches!(
        agent.upload(&config, &event(EventType::Upload, None, Some("/repo/x"), Some(1)), &choice, true),
        Err(PipelineError::MissingOid)
    ));
    assert!(matches!(
        MainSubcommand::new().upload(&config, &event(EventType::Upload, Some("a"), None, Some(1)), &choice, false),
        Err(PipelineError::NoSession)
    ));
}

#[test]
fn upload_event_names_size_object_and_path() {
    let agent = MainSubcommand::new();
    assert_eq!(
        agent.upload_source(&event(EventType::Upload, Some("a"), Some("/repo/x"), Some(0))),
        Ok("/repo/x".to_string())
    );
    assert_eq!(
        agent.upload_source(&event(EventType::Upload, None, None, None)),
        Err(PipelineError::MissingSize)
    );
    assert_eq!(
        agent.upload_source(&event(EventType::Upload, None, None, Some(1))),
        Err(PipelineError::MissingOid)
    );
    assert_eq!(
        agent.upload_source(&event(EventType::Upload, Some("a"), None, Some(1))),
        Err(PipelineError::MissingPath)
    );
}

#[test]
fn target_directory_takes_the_first_four_characters() {
    assert_eq!(target_directory("deadbeef"), Ok("./.git/lfs/objects/de/ad".to_string()));
    assert_eq!(target_directory("dead"), Ok("./.git/lfs/objects/de/ad".to_string()));
    assert_eq!(target_directory("äöüß-rest"), Ok("./.git/lfs/objects/äö/üß".to_string()));
    assert_eq!(target_directory("dea"), Err(PipelineError::InvalidOid));
    assert_eq!(target_directory(""), Err(PipelineError::InvalidOid));
}

#[test]
fn download_of_a_compressed_object() {
    let agent = agent();
    let download = event(EventType::Download, Some("deadbeef"), None, Some(7));
    let plan = agent.download(&configuration(), &download, true).unwrap();
    assert_eq!(
        plan.request.url,
        "https://host/webapi/entry.cgi?api=SYNO.FileStation.Download&version=2&method=download&_sid=S\
         &path=%2Flfs%2Fobjects%2Fdeadbeef.zstd&mode=download"
    );
    assert_eq!(plan.request.target_file_path, "./.git/lfs/objects/de/ad/deadbeef.zstd");
    assert_eq!(plan.decompress_to, Some("./.git/lfs/objects/de/ad/deadbeef".to_string()));
}

#[test]
fn download_of_an_object_as_it_is() {
    let agent = agent();
    let download = event(EventType::Download, Some("deadbeef"), None, Some(7));
    let plan = agent.download(&configuration(), &download, false).unwrap();
    assert_eq!(
        plan.request.url,
        "https://host/webapi/entry.cgi?api=SYNO.FileStation.Download&version=2&method=download&_sid=S\
         &path=%2Flfs%2Fobjects%2Fdeadbeef&mode=download"
    );
    assert_eq!(plan.request.target_file_path, "./.git/lfs/objects/de/ad/deadbeef");
    assert_eq!(plan.decompress_to, None);
}

#[test]
fn download_needs_object_size_and_session() {
    let agent = agent();
    let config = configuration();
    assert!(matches!(
        agent.download(&config, &event(EventType::Download, None, None, Some(1)), false),
        Err(PipelineError::MissingOid)
    ));
    assert!(matches!(
        agent.download(&config, &event(EventType::Download, Some("deadbeef"), None, None), false),
        Err(PipelineError::MissingSize)
    ));
    assert!(matches!(
        agent.download(&config, &event(EventType::Download, Some("abc"), None, Some(1)), false),
        Err(PipelineError::InvalidOid)
    ));
    assert!(matches!(
        MainSubcommand::new().download(&config, &event(EventType::Download, Some("deadbeef"), None, Some(1)), true),
        Err(PipelineError::NoSession)
    ));
}

#[test]
fn uncompress_takes_the_suffix_off() {
    let agent = MainSubcommand::new();
    assert_eq!(agent.uncompress_file("a/b/deadbeef.zstd"), Some("a/b/deadbeef".to_string()));
    assert_eq!(agent.uncompress_file(".zstd"), Some("".to_string()));
    assert_eq!(agent.uncompress_file("deadbeef"), None);
    assert_eq!(agent.uncompress_file("deadbeef.zst"), None);
    assert_eq!(agent.uncompress_file("deadbeef.zstd.bak"), None);
    assert_eq!(agent.uncompress_file("zstd"), None);
}

#[test]
fn init_logs_in_with_the_stored_credential() {
    let agent = MainSubcommand::new();
    let mut credential = Credential::new("alice".to_string(), "secret".to_string());
    credential.device_id = Some("D".to_string());
    let (station, url) = agent.init(&configuration(), Some(&credential), "box").unwrap();
    assert!(!station.is_logged_in());
    assert_eq!(station.base_url(), "https://host");
    assert_eq!(
        url,
        "https://host/webapi/entry.cgi?api=SYNO.API.Auth&version=6&method=login&account=alice&passwd=secret\
         &enable_device_token=false&device_name=box::rust_synology_api&session=FileStation&format=sid&device_id=D"
    );
    assert!(matches!(agent.init(&configuration(), None, "box"), Err(PipelineError::CredentialMissing)));
}

#[test]
fn failures_are_reported_with_code_1() {
    let error = PipelineError::Station(SynologyErrorStatus::NotLoggedIn).to_agent_error();
    assert_eq!(error.code, 1);
    assert_eq!(error.message, "No user logged in");
    assert_eq!(PipelineError::MissingOid.message(), "OID should not be null");
    assert_eq!(PipelineError::MissingSize.message(), "Size should not be null");
    assert_eq!(PipelineError::MissingPath.message(), "Path should not be null.");
    assert_eq!(PipelineError::NoSession.message(), "File Station should not be null");
    assert_eq!(PipelineError::CredentialMissing.message(), "Credential should not be null");
}

#[test]
fn provisioning_of_a_folder_that_is_there() {
    let agent = agent();
    let (state, action) = agent
        .provision_target_folder("/lfs/objects", ProvisionState::Start, ProvisionEvent::Begin)
        .unwrap();
    assert_eq!(state, ProvisionState::FirstProbe);
    assert!(matches!(&action, ProvisionAction::Probe(RemoteProbe::List { name, .. }) if name == "objects"));
    let (state, action) =
        agent.provision_target_folder("/lfs/objects", state, ProvisionEvent::Exists(true)).unwrap();
    assert_eq!(state, ProvisionState::Finished);
    assert!(matches!(action, ProvisionAction::Done));
}

#[test]
fn provisioning_creates_the_folder_under_the_lock() {
    let agent = agent();
    let path = "/lfs/objects";
    let (state, _) = agent.provision_target_folder(path, ProvisionState::Start, ProvisionEvent::Begin).unwrap();
    let (state, action) = agent.provision_target_folder(path, state, ProvisionEvent::Exists(false)).unwrap();
    assert_eq!(state, ProvisionState::Locking);
    assert!(matches!(action, ProvisionAction::TakeLock));
    let (state, action) = agent.provision_target_folder(path, state, ProvisionEvent::LockHeld).unwrap();
    assert_eq!(state, ProvisionState::SecondProbe);
    assert!(matches!(&action, ProvisionAction::Probe(RemoteProbe::List { name, .. }) if name == "objects"));
    let (state, action) = agent.provision_target_folder(path, state, ProvisionEvent::Exists(false)).unwrap();
    assert_eq!(state, ProvisionState::Creating);
    match action {
        ProvisionAction::Create(url) => assert_eq!(
            url,
            "https://host/webapi/entry.cgi?api=SYNO.FileStation.CreateFolder&version=2&method=create&_sid=S\
             &folder_path=%2Flfs&name=objects&force_parent=true"
        ),
        other => panic!("{:?}", other),
    }
    let (state, action) = agent.provision_target_folder(path, state, ProvisionEvent::Created).unwrap();
    assert_eq!(state, ProvisionState::Finished);
    assert!(matches!(action, ProvisionAction::Done));
}

#[test]
fn an_agent_that_waited_for_the_lock_finds_the_folder_and_finishes() {
    let agent = agent();
    let path = "/lfs/objects";
    let (state, _) = agent.provision_target_folder(path, ProvisionState::Start, ProvisionEvent::Begin).unwrap();
    let (state, _) = agent.provision_target_folder(path, state, ProvisionEvent::Exists(false)).unwrap();
    let (state, _) = agent.provision_target_folder(path, state, ProvisionEvent::LockHeld).unwrap();
    // a sibling created the folder while this agent waited
    let (state, action) = agent.provision_target_folder(path, state, ProvisionEvent::Exists(true)).unwrap();
    assert_eq!(state, ProvisionState::Finished);
    assert!(matches!(action, ProvisionAction::Done));
}

#[test]
fn provisioning_refuses_steps_out_of_place() {
    let agent = agent();
    for (state, event) in [
        (ProvisionState::Start, ProvisionEvent::Exists(true)),
        (ProvisionState::Start, ProvisionEvent::Created),
        (ProvisionState::FirstProbe, ProvisionEvent::LockHeld),
        (ProvisionState::Locking, ProvisionEvent::Exists(false)),
        (ProvisionState::SecondProbe, ProvisionEvent::Begin),
        (ProvisionState::Creating, ProvisionEvent::Exists(true)),
        (ProvisionState::Finished, ProvisionEvent::Begin),
    ] {
        assert!(matches!(
            agent.provision_target_folder("/lfs/objects", state, event),
            Err(PipelineError::OutOfOrder)
        ));
    }
    assert_eq!(PipelineError::OutOfOrder.message(), "The step has no place here.");
    // the root exists without asking, so its provisioning ends after the first answer
    let (state, action) =
        MainSubcommand::new().provision_target_folder("/", ProvisionState::Start, ProvisionEvent::Begin).unwrap();
    assert_eq!(state, ProvisionState::FirstProbe);
    assert!(matches!(action, ProvisionAction::Probe(RemoteProbe::Known(true))));
    assert!(matches!(
        MainSubcommand::new().provision_target_folder("/lfs", ProvisionState::Start, ProvisionEvent::Begin),
        Err(PipelineError::NoSession)
    ));
}
