use git_lfs_synology::credential_manager::{
    clean, derive_key, Credential, CredentialManager, DatabaseCredential, KeyringEntry,
    StoreAction,
};
use git_lfs_synology::database::{CredentialError, Database, SchemaAction};

fn version_0_database() -> Database {
    Database {
        credentials: Some(vec![
            "id".to_string(),
            "url".to_string(),
            "user".to_string(),
            "totp_command_encrypted".to_string(),
            "totp_nonce".to_string(),
        ]),
        metadata: None,
    }
}

fn version_1_database() -> Database {
    Database {
        credentials: Some(vec![
            "id".to_string(),
            "url".to_string(),
            "user".to_string(),
            "device_id_encrypted".to_string(),
            "device_id_nonce".to_string(),
        ]),
        metadata: Some(vec![("version".to_string(), "1".to_string())]),
    }
}

fn new_credential(user: &str, password: &str, device_id: Option<&str>) -> Credential {
    let mut credential = Credential::new(user.to_string(), password.to_string());

    if let Some(device_id) = device_id {
        credential.device_id = Some(device_id.to_string());
    }

    credential
}

#[test]
fn create_credential_manager() {
    let _ = CredentialManager::new();
}

#[test]
fn empty_database_uninitialized() {
    let credential_manager = CredentialManager::new();

    let result = credential_manager.get_database_version();

    match result {
        Ok(_) => panic!(),
        Err(err) => match err {
            CredentialError::DatabaseNotInitialized => (),
            _ => panic!("{:?}", err),
        },
    }
}

#[test]
fn get_database_version_0() {
    let credential_manager = CredentialManager::open(version_0_database());

    let version = credential_manager.get_database_version().unwrap();

    assert_eq!(version, 0);
}

#[test]
fn get_database_version_1() {
    let credential_manager = CredentialManager::open(version_1_database());

    let version = credential_manager.get_database_version().unwrap();

    assert_eq!(version, 1);
}

#[test]
fn database_upgraded_from_0_to_1() {
    let mut credential_manager = CredentialManager::open(version_0_database());

    credential_manager.get_database().unwrap();
    let version = credential_manager.get_database_version().unwrap();

    assert_eq!(version, 1);
}

#[test]
fn set_get_credential_no_device_id() {
    let mut credential_manager = CredentialManager::new();

    credential_manager
        .set_credential("http://example.com", &new_credential("test_user", "test_password", None))
        .unwrap();

    let credential: Credential =
        credential_manager.get_credential("http://example.com").unwrap().expect("Credential expected");

    assert_eq!(credential.user, "test_user".to_string());
    assert_eq!(credential.password, "test_password".to_string());
    assert_eq!(credential.device_id, None);
}

#[test]
fn set_get_credential_no_device_id_with_slash() {
    let mut credential_manager = CredentialManager::new();

    credential_manager
        .set_credential("http://example.com/", &new_credential("test_user", "test_password", None))
        .unwrap();

    let credential: Credential =
        credential_manager.get_credential("http://example.com").unwrap().expect("Credential expected");

    assert_eq!(credential.user, "test_user".to_string());
    assert_eq!(credential.password, "test_password".to_string());
    assert_eq!(credential.device_id, None);
}

#[test]
fn set_get_credential_device_id() {
    let mut credential_manager = CredentialManager::new();

    credential_manager
        .set_credential(
            "http://example.com",
            &new_credential("test_user", "test_password", Some("12345")),
        )
        .unwrap();

    let credential: Credential =
        credential_manager.get_credential("http://example.com").unwrap().expect("Credential expected");

    assert_eq!(credential.user, "test_user".to_string());
    assert_eq!(credential.password, "test_password".to_string());
    assert_eq!(credential.device_id.expect("Should not be null"), "12345".to_string());
}

#[test]
fn has_credential() {
    let mut credential_manager = CredentialManager::new();

    credential_manager
        .set_credential(
            "http://example.com",
            &new_credential("test_user", "test_password", Some("echo 12345")),
        )
        .unwrap();

    assert!(credential_manager.has_credential("http://example.com").unwrap());
}

#[test]
fn can_update_credential_no_device_id() {
    let mut credential_manager = CredentialManager::new();

    credential_manager
        .set_credential(
            "http://example.com",
            &new_credential("test_user", "test_password", Some("echo 12345")),
        )
        .unwrap();

    credential_manager
        .set_credential("http://example.com", &new_credential("test_user", "test_password2", None))
        .unwrap();

    let credential: Credential =
        credential_manager.get_credential("http://example.com").unwrap().expect("Credential expected");

    assert_eq!(credential.user, "test_user".to_string());
    assert_eq!(credential.password, "test_password2".to_string());
    assert_eq!(credential.device_id, None);
}

#[test]
fn can_update_credential_device_id() {
    let mut credential_manager = CredentialManager::new();

    credential_manager
        .set_credential(
            "http://example.com",
            &new_credential("test_user", "test_password", Some("12345")),
        )
        .unwrap();

    credential_manager
        .set_credential(
            "http://example.com",
            &new_credential("test_user", "test_password2", Some("56789")),
        )
        .unwrap();

    let credential: Credential =
        credential_manager.get_credential("http://example.com").unwrap().expect("Credential expected");

    assert_eq!(credential.user, "test_user".to_string());
    assert_eq!(credential.password, "test_password2".to_string());
    assert_eq!(credential.device_id.expect("TOTP should of not null"), "56789".to_string());
}

#[test]
fn remove_credential() {
    let mut credential_manager = CredentialManager::new();

    credential_manager
        .set_credential(
            "http://example.com",
            &new_credential("test_user", "test_password", Some("echo 12345")),
        )
        .unwrap();
    credential_manager.remove_credential("http://example.com").unwrap();

    assert!(!credential_manager.has_credential("http://example.com").unwrap());
}

#[test]
fn clean_drops_exactly_one_trailing_slash() {
    assert_eq!(clean("http://example.com/"), "http://example.com");
    assert_eq!(clean("http://example.com"), "http://example.com");
    assert_eq!(clean("http://example.com//"), "http://example.com/");
    assert_eq!(clean("/"), "");
    assert_eq!(clean(""), "");
}

#[test]
fn key_is_password_padded_with_spaces() {
    let key = derive_key("secret").expect("a short password gives a key");
    assert_eq!(key.len(), 32);
    assert_eq!(&key[..6], b"secret");
    assert!(key[6..].iter().all(|b| *b == 0x20));

    let exact = "0123456789abcdef0123456789abcdef";
    assert_eq!(derive_key(exact).unwrap(), exact.as_bytes().to_vec());
    assert_eq!(derive_key("").unwrap(), vec![0x20u8; 32]);
}

#[test]
fn key_counts_bytes_not_characters() {
    // sixteen characters of two bytes each fill a key; one more byte is too many
    let sixteen = "éééééééééééééééé";
    assert_eq!(sixteen.len(), 32);
    assert_eq!(derive_key(sixteen).unwrap(), sixteen.as_bytes().to_vec());
    assert!(derive_key("éééééééééééééééé!").is_none());
}

#[test]
fn set_rejects_password_longer_than_a_key() {
    let mut credential_manager = CredentialManager::new();
    let long = "0123456789abcdef0123456789abcdef0";
    let result = credential_manager.set_credential("http://example.com", &new_credential("u", long, None));
    assert_eq!(result, Err(CredentialError::PasswordTooLong));
    assert!(!credential_manager.has_credential("http://example.com").unwrap());
}

#[test]
fn get_without_row_is_none() {
    let mut credential_manager = CredentialManager::new();
    assert!(credential_manager.get_credential("http://example.com").unwrap().is_none());
    assert!(!credential_manager.has_credential("http://example.com").unwrap());
}

#[test]
fn remove_without_row_changes_nothing() {
    let mut credential_manager = CredentialManager::open(version_1_database());
    credential_manager.remove_credential("http://example.com").unwrap();
    assert!(credential_manager.take_journal().is_empty());
}

#[test]
fn get_with_row_and_no_password_is_keyring_missing() {
    let mut credential_manager = CredentialManager::open(version_1_database());
    credential_manager.load_row(DatabaseCredential {
        url: "http://example.com".to_string(),
        user: "test_user".to_string(),
        device_id_encrypted: None,
        device_id_nonce: None,
    });
    let result = credential_manager.get_credential("http://example.com");
    assert!(matches!(result, Err(CredentialError::KeyringMissing)));
    assert!(credential_manager.has_credential("http://example.com").unwrap());
}

#[test]
fn get_with_other_password_is_decryption_failed() {
    let mut writer = CredentialManager::new();
    writer
        .set_credential("http://example.com", &new_credential("test_user", "secret", Some("D")))
        .unwrap();
    let journal = writer.take_journal();
    let row = journal
        .iter()
        .find_map(|action| match action {
            StoreAction::InsertRow(row) => Some(row.clone()),
            _ => None,
        })
        .expect("set writes a row");
    assert_eq!(row.device_id_nonce.as_ref().map(|n| n.len()), Some(12));
    // AES-GCM adds a tag of sixteen bytes to the one byte of the token
    assert_eq!(row.device_id_encrypted.as_ref().map(|c| c.len()), Some(17));
    assert_ne!(row.device_id_encrypted.as_ref().unwrap()[..1], b"D"[..]);

    let mut reader = CredentialManager::open(version_1_database());
    reader.load_row(row.clone());
    reader.load_password(KeyringEntry {
        service: "http://example.com".to_string(),
        account: "test_user".to_string(),
        password: "other".to_string(),
    });
    assert!(matches!(
        reader.get_credential("http://example.com"),
        Err(CredentialError::DecryptionFailed)
    ));

    let mut right = CredentialManager::open(version_1_database());
    right.load_row(row);
    right.load_password(KeyringEntry {
        service: "http://example.com".to_string(),
        account: "test_user".to_string(),
        password: "secret".to_string(),
    });
    let credential = right.get_credential("http://example.com").unwrap().unwrap();
    assert_eq!(credential.device_id, Some("D".to_string()));
}

#[test]
fn get_with_nonce_and_no_ciphertext_is_database_error() {
    let mut credential_manager = CredentialManager::open(version_1_database());
    credential_manager.load_row(DatabaseCredential {
        url: "http://example.com".to_string(),
        user: "test_user".to_string(),
        device_id_encrypted: None,
        device_id_nonce: Some(vec![0u8; 12]),
    });
    credential_manager.load_password(KeyringEntry {
        service: "http://example.com".to_string(),
        account: "test_user".to_string(),
        password: "secret".to_string(),
    });
    assert!(matches!(
        credential_manager.get_credential("http://example.com"),
        Err(CredentialError::DatabaseError)
    ));
}

#[test]
fn get_with_short_nonce_is_decryption_failed() {
    let mut credential_manager = CredentialManager::open(version_1_database());
    credential_manager.load_row(DatabaseCredential {
        url: "http://example.com".to_string(),
        user: "test_user".to_string(),
        device_id_encrypted: Some(vec![1u8; 20]),
        device_id_nonce: Some(vec![0u8; 11]),
    });
    credential_manager.load_password(KeyringEntry {
        service: "http://example.com".to_string(),
        account: "test_user".to_string(),
        password: "secret".to_string(),
    });
    assert!(matches!(
        credential_manager.get_credential("http://example.com"),
        Err(CredentialError::DecryptionFailed)
    ));
}

#[test]
fn two_sets_use_two_nonces() {
    let mut credential_manager = CredentialManager::new();
    let credential = new_credential("test_user", "secret", Some("D"));
    credential_manager.set_credential("http://a.example", &credential).unwrap();
    credential_manager.set_credential("http://b.example", &credential).unwrap();
    let nonces: Vec<Vec<u8>> = credential_manager
        .take_journal()
        .into_iter()
        .filter_map(|action| match action {
            StoreAction::InsertRow(row) => row.device_id_nonce,
            _ => None,
        })
        .collect();
    assert_eq!(nonces.len(), 2);
    assert_ne!(nonces[0], nonces[1]);
}

#[test]
fn journal_of_set_over_existing_removes_keyring_first() {
    let mut credential_manager = CredentialManager::new();
    credential_manager
        .set_credential("http://example.com/", &new_credential("old_user", "one", None))
        .unwrap();
    let first = credential_manager.take_journal();
    // the tables are created, then the row and the password are written
    assert_eq!(first.len(), 5);
    assert!(matches!(first[0], StoreAction::Schema(SchemaAction::CreateCredentialsTable)));
    assert!(matches!(first[1], StoreAction::Schema(SchemaAction::CreateMetadataTable)));
    assert!(matches!(
        &first[2],
        StoreAction::Schema(SchemaAction::InsertMetadata { key, value }) if key == "version" && value == "1"
    ));
    assert!(matches!(&first[3], StoreAction::InsertRow(row) if row.url == "http://example.com" && row.user == "old_user"));
    assert!(matches!(
        &first[4],
        StoreAction::SetPassword(entry)
            if entry.service == "http://example.com" && entry.account == "old_user" && entry.password == "one"
    ));

    credential_manager
        .set_credential("http://example.com", &new_credential("new_user", "two", None))
        .unwrap();
    let second = credential_manager.take_journal();
    assert_eq!(second.len(), 4);
    assert!(matches!(
        &second[0],
        StoreAction::DeleteKeyringEntry { service, account }
            if service == "http://example.com" && account == "old_user"
    ));
    assert!(matches!(&second[1], StoreAction::DeleteRows { url } if url == "http://example.com"));
    assert!(matches!(&second[2], StoreAction::InsertRow(row) if row.user == "new_user"));
    assert!(matches!(&second[3], StoreAction::SetPassword(entry) if entry.password == "two"));

    let credential = credential_manager.get_credential("http://example.com/").unwrap().unwrap();
    assert_eq!(credential.user, "new_user");
    assert_eq!(credential.password, "two");
}

#[test]
fn journal_of_remove_is_keyring_then_rows() {
    let mut credential_manager = CredentialManager::new();
    credential_manager
        .set_credential("http://example.com", &new_credential("test_user", "secret", None))
        .unwrap();
    credential_manager.take_journal();
    credential_manager.remove_credential("http://example.com/").unwrap();
    let journal = credential_manager.take_journal();
    assert_eq!(journal.len(), 2);
    assert!(matches!(&journal[0], StoreAction::DeleteKeyringEntry { .. }));
    assert!(matches!(&journal[1], StoreAction::DeleteRows { .. }));
    assert!(credential_manager.get_credential("http://example.com").unwrap().is_none());
}

#[test]
fn credentials_of_other_urls_stay() {
    let mut credential_manager = CredentialManager::new();
    credential_manager
        .set_credential("http://a.example", &new_credential("alice", "one", Some("A")))
        .unwrap();
    credential_manager
        .set_credential("http://b.example", &new_credential("bob", "two", None))
        .unwrap();
    credential_manager.remove_credential("http://b.example").unwrap();
    let kept = credential_manager.get_credential("http://a.example").unwrap().unwrap();
    assert_eq!(kept.user, "alice");
    assert_eq!(kept.password, "one");
    assert_eq!(kept.device_id, Some("A".to_string()));
    assert!(!credential_manager.has_credential("http://b.example").unwrap());
}

#[test]
fn totp_is_not_kept() {
    let mut credential_manager = CredentialManager::new();
    let credential =
        Credential::new_totp("test_user".to_string(), "secret".to_string(), Some("123456".to_string()));
    assert_eq!(credential.totp, Some("123456".to_string()));
    assert_eq!(credential.device_id, None);
    credential_manager.set_credential("http://example.com", &credential).unwrap();
    let read = credential_manager.get_credential("http://example.com").unwrap().unwrap();
    assert_eq!(read.totp, None);
}

#[test]
fn device_id_with_other_scripts_round_trips() {
    let mut credential_manager = CredentialManager::new();
    credential_manager
        .set_credential("http://example.com", &new_credential("ü", "pässword", Some("tökén-日本")))
        .unwrap();
    let read = credential_manager.get_credential("http://example.com").unwrap().unwrap();
    assert_eq!(read.user, "ü");
    assert_eq!(read.password, "pässword");
    assert_eq!(read.device_id, Some("tökén-日本".to_string()));
}
