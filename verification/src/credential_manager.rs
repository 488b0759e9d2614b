//! Credentials and the store that keeps them.

use vstd::prelude::*;
use vstd::slice::*;
use vstd::string::*;
use vstd::utf8::{decode_utf8, encode_utf8, valid_utf8};

pub use crate::database::CredentialError;
use crate::database::{
    actions_view, apply_actions, clone_action, lemma_bootstrap_reaches_current, spec_plan,
    spec_version, Database, SchemaAction, SchemaActionView, SchemaView,
    CURRENT_VERSION,
};
use crate::keyed::{
    lemma_lookup_prefix, lemma_lookup_push, lemma_lookup_without_other, lemma_lookup_without_same,
    lemma_absent_occurs_nowhere, lemma_occurrences_push, lemma_occurrences_without,
    lemma_without_absent, lemma_without_contained, lemma_without_push, lookup, occurrences,
    unique_keys, without,
};
use crate::sealing::{
    aes_gcm_decrypt, aes_gcm_encrypt, aes_gcm_opened, aes_gcm_sealed, fresh_nonce,
    string_from_utf8, KEY_LEN, MAX_PLAINTEXT_LEN, NONCE_LEN,
};
use crate::text::{has_suffix, opt_view, str_eq, strip_suffix, without_suffix};

verus! {

/// What a login needs: who, the secret, and what spares the second factor.
///
/// `totp` is a one-time code for the login at hand. `device_id` is the token
/// that the appliance issued at an earlier login.
pub struct Credential {
    pub user: String,
    pub password: String,
    pub totp: Option<String>,
    pub device_id: Option<String>,
}

/// A credential as the characters it holds.
pub struct CredentialView {
    pub user: Seq<char>,
    pub password: Seq<char>,
    pub totp: Option<Seq<char>>,
    pub device_id: Option<Seq<char>>,
}

impl View for Credential {
    type V = CredentialView;

    open spec fn view(&self) -> CredentialView {
        CredentialView {
            user: self.user@,
            password: self.password@,
            totp: opt_view(self.totp),
            device_id: opt_view(self.device_id),
        }
    }
}

impl Credential {
    /// A credential without one-time code and without device token.
    pub fn new(user: String, password: String) -> (r: Credential)
        ensures
            r@ == (CredentialView {
                user: user@,
                password: password@,
                totp: None,
                device_id: None,
            }),
    {
        Credential::new_totp(user, password, None)
    }

    /// A credential with the one-time code given, and without device token.
    pub fn new_totp(user: String, password: String, totp: Option<String>) -> (r: Credential)
        ensures
            r@ == (CredentialView {
                user: user@,
                password: password@,
                totp: opt_view(totp),
                device_id: None,
            }),
    {
        Credential { user, password, totp, device_id: None }
    }
}

/// One row of the table `Credentials`: who logs in at `url`, and the device
/// token, encrypted, with the nonce it was encrypted under.
#[derive(Clone, Debug)]
pub struct DatabaseCredential {
    pub url: String,
    pub user: String,
    pub device_id_encrypted: Option<Vec<u8>>,
    pub device_id_nonce: Option<Vec<u8>>,
}

/// What a row holds under its URL.
pub struct RowData {
    pub user: Seq<char>,
    pub device_id_encrypted: Option<Seq<u8>>,
    pub device_id_nonce: Option<Seq<u8>>,
}

/// One entry of the keyring: the password of `account` at `service`.
#[derive(Clone)]
pub struct KeyringEntry {
    pub service: String,
    pub account: String,
    pub password: String,
}

/// One change that the store has made to its own state and that is still to
/// be made to the database or to the keyring.
#[derive(Clone)]
pub enum StoreAction {
    /// A change to the schema of the database.
    Schema(SchemaAction),
    /// The password of `account` at `service` leaves the keyring.
    DeleteKeyringEntry { service: String, account: String },
    /// The rows under `url` leave the table.
    DeleteRows { url: String },
    /// A row enters the table.
    InsertRow(DatabaseCredential),
    /// A password enters the keyring.
    SetPassword(KeyringEntry),
}

/// A change as the values it holds.
pub enum StoreActionView {
    Schema(SchemaActionView),
    DeleteKeyringEntry { service: Seq<char>, account: Seq<char> },
    DeleteRows { url: Seq<char> },
    InsertRow { url: Seq<char>, row: RowData },
    SetPassword { service: Seq<char>, account: Seq<char>, password: Seq<char> },
}

/// Optional bytes as a sequence.
pub open spec fn opt_bytes(o: Option<Vec<u8>>) -> Option<Seq<u8>> {
    match o {
        Some(v) => Some(v@),
        None => None,
    }
}

impl View for DatabaseCredential {
    type V = (Seq<char>, RowData);

    open spec fn view(&self) -> (Seq<char>, RowData) {
        (
            self.url@,
            RowData {
                user: self.user@,
                device_id_encrypted: opt_bytes(self.device_id_encrypted),
                device_id_nonce: opt_bytes(self.device_id_nonce),
            },
        )
    }
}

impl View for KeyringEntry {
    type V = ((Seq<char>, Seq<char>), Seq<char>);

    open spec fn view(&self) -> ((Seq<char>, Seq<char>), Seq<char>) {
        ((self.service@, self.account@), self.password@)
    }
}

impl View for StoreAction {
    type V = StoreActionView;

    open spec fn view(&self) -> StoreActionView {
        match *self {
            StoreAction::Schema(action) => StoreActionView::Schema(action@),
            StoreAction::DeleteKeyringEntry { service, account } => StoreActionView::DeleteKeyringEntry {
                service: service@,
                account: account@,
            },
            StoreAction::DeleteRows { url } => StoreActionView::DeleteRows { url: url@ },
            StoreAction::InsertRow(row) => StoreActionView::InsertRow { url: row@.0, row: row@.1 },
            StoreAction::SetPassword(entry) => StoreActionView::SetPassword {
                service: entry.service@,
                account: entry.account@,
                password: entry.password@,
            },
        }
    }
}

/// The store as plain values: the schema of the database, the rows of
/// `Credentials` under their URLs, the keyring under service and account,
/// and the changes still to be made outside.
pub struct StoreView {
    pub schema: SchemaView,
    pub rows: Seq<(Seq<char>, RowData)>,
    pub keyring: Seq<((Seq<char>, Seq<char>), Seq<char>)>,
    pub journal: Seq<StoreActionView>,
}

/// Rows as plain values.
pub open spec fn rows_view(rows: Seq<DatabaseCredential>) -> Seq<(Seq<char>, RowData)> {
    Seq::new(rows.len(), |i: int| rows[i]@)
}

/// Keyring entries as plain values.
pub open spec fn keyring_view(entries: Seq<KeyringEntry>) -> Seq<((Seq<char>, Seq<char>), Seq<char>)> {
    Seq::new(entries.len(), |i: int| entries[i]@)
}

/// Changes as plain values.
pub open spec fn journal_view(actions: Seq<StoreAction>) -> Seq<StoreActionView> {
    Seq::new(actions.len(), |i: int| actions[i]@)
}

/// Changes to the schema as changes of the store.
pub open spec fn schema_entries(plan: Seq<SchemaActionView>) -> Seq<StoreActionView> {
    Seq::new(plan.len(), |i: int| StoreActionView::Schema(plan[i]))
}

/// A URL as the store keys it: without one `/` at its end.
pub open spec fn clean_url(url: Seq<char>) -> Seq<char> {
    match without_suffix(url, "/"@) {
        Some(cleaned) => cleaned,
        None => url,
    }
}

/// The key that a password gives: its UTF-8 bytes, filled up with spaces to
/// the length of a key. A password of more bytes gives none.
pub open spec fn key_of(password: Seq<char>) -> Option<Seq<u8>> {
    let bytes = encode_utf8(password);
    if bytes.len() <= KEY_LEN {
        Some(bytes + Seq::new((KEY_LEN - bytes.len()) as nat, |i: int| 0x20u8))
    } else {
        None
    }
}

/// The device token that a row holds, read with the password. A row without
/// nonce holds none. A row with a nonce holds the token that its ciphertext
/// decrypts to; where it does not decrypt to a text, the password is not the
/// one that the row was written with.
pub open spec fn device_id_of(row: RowData, password: Seq<char>) -> Result<
    Option<Seq<char>>,
    CredentialError,
> {
    match row.device_id_nonce {
        None => Ok(None),
        Some(nonce) => match row.device_id_encrypted {
            None => Err(CredentialError::DatabaseError),
            Some(sealed) => match key_of(password) {
                None => Err(CredentialError::DecryptionFailed),
                Some(key) => if nonce.len() != NONCE_LEN {
                    Err(CredentialError::DecryptionFailed)
                } else {
                    match aes_gcm_opened(key, nonce, sealed) {
                        None => Err(CredentialError::DecryptionFailed),
                        Some(plain) => if valid_utf8(plain) {
                            Ok(Some(decode_utf8(plain)))
                        } else {
                            Err(CredentialError::DecryptionFailed)
                        },
                    }
                },
            },
        },
    }
}

/// The store with its database brought to the current version, or why it
/// cannot be brought there.
pub open spec fn spec_bootstrapped(store: StoreView) -> Result<StoreView, CredentialError> {
    match spec_plan(store.schema) {
        Ok(plan) => Ok(
            StoreView {
                schema: apply_actions(store.schema, plan),
                journal: store.journal + schema_entries(plan),
                ..store
            },
        ),
        Err(e) => Err(e),
    }
}

/// Whether the database of the store is at the current version.
pub open spec fn is_current(store: StoreView) -> bool {
    spec_version(store.schema) == Ok::<u32, CredentialError>(CURRENT_VERSION)
}

/// Whether the store holds a credential for the URL.
pub open spec fn spec_has(store: StoreView, url: Seq<char>) -> bool {
    lookup(store.rows, clean_url(url)) is Some
}

/// The credential that the store holds for the URL.
pub open spec fn spec_get(store: StoreView, url: Seq<char>) -> Result<
    Option<CredentialView>,
    CredentialError,
> {
    let cleaned = clean_url(url);
    match lookup(store.rows, cleaned) {
        None => Ok(None),
        Some(row) => match lookup(store.keyring, (cleaned, row.user)) {
            None => Err(CredentialError::KeyringMissing),
            Some(password) => match device_id_of(row, password) {
                Ok(device_id) => Ok(
                    Some(CredentialView { user: row.user, password, totp: None, device_id }),
                ),
                Err(e) => Err(e),
            },
        },
    }
}

/// The store after the credential for the URL was removed: first the
/// password leaves the keyring, then the rows leave the table.
pub open spec fn spec_removed(store: StoreView, url: Seq<char>) -> StoreView {
    let cleaned = clean_url(url);
    match lookup(store.rows, cleaned) {
        None => store,
        Some(row) => StoreView {
            rows: without(store.rows, cleaned),
            keyring: without(store.keyring, (cleaned, row.user)),
            journal: store.journal.push(
                StoreActionView::DeleteKeyringEntry { service: cleaned, account: row.user },
            ).push(StoreActionView::DeleteRows { url: cleaned }),
            ..store
        },
    }
}

/// The row that stands for a credential.
pub open spec fn row_of(user: Seq<char>, sealed: Option<(Seq<u8>, Seq<u8>)>) -> RowData {
    RowData {
        user,
        device_id_encrypted: match sealed {
            Some((ciphertext, _)) => Some(ciphertext),
            None => None,
        },
        device_id_nonce: match sealed {
            Some((_, nonce)) => Some(nonce),
            None => None,
        },
    }
}

/// The store after a credential was written for the URL: what stood there
/// is removed, then the row enters the table, then the password enters the
/// keyring.
pub open spec fn spec_stored(
    store: StoreView,
    url: Seq<char>,
    user: Seq<char>,
    password: Seq<char>,
    sealed: Option<(Seq<u8>, Seq<u8>)>,
) -> StoreView {
    let cleaned = clean_url(url);
    let cleared = spec_removed(store, url);
    let row = row_of(user, sealed);
    StoreView {
        rows: cleared.rows.push((cleaned, row)),
        keyring: without(cleared.keyring, (cleaned, user)).push(((cleaned, user), password)),
        journal: cleared.journal.push(StoreActionView::InsertRow { url: cleaned, row }).push(
            StoreActionView::SetPassword { service: cleaned, account: user, password },
        ),
        ..cleared
    }
}

/// Whether `sealed` and `nonce` are a sealing of the plaintext under the key.
pub open spec fn is_sealing(key: Seq<u8>, nonce: Seq<u8>, plaintext: Seq<u8>, sealed: Seq<u8>) -> bool {
    &&& nonce.len() == NONCE_LEN
    &&& sealed == aes_gcm_sealed(key, nonce, plaintext)
    &&& aes_gcm_opened(key, nonce, sealed) == Some(plaintext)
}

/// What `set_credential` leaves where it succeeds: the database at the
/// current version and the credential written, its device token sealed
/// under the key of its password and some nonce.
pub open spec fn set_post(
    before: StoreView,
    url: Seq<char>,
    credential: CredentialView,
    after: StoreView,
) -> bool {
    &&& spec_bootstrapped(before) matches Ok(ready)
    &&& key_of(credential.password) matches Some(key)
    &&& match credential.device_id {
        None => after == spec_stored(ready, url, credential.user, credential.password, None),
        Some(device_id) => exists|sealed: Seq<u8>, nonce: Seq<u8>|
            #![trigger is_sealing(key, nonce, encode_utf8(device_id), sealed)]
            is_sealing(key, nonce, encode_utf8(device_id), sealed) && after == spec_stored(
                ready,
                url,
                credential.user,
                credential.password,
                Some((sealed, nonce)),
            ),
    }
}

/// A credential that was found, as plain values.
pub open spec fn found_view(found: Result<Option<Credential>, CredentialError>) -> Result<
    Option<CredentialView>,
    CredentialError,
> {
    match found {
        Ok(Some(credential)) => Ok(Some(credential@)),
        Ok(None) => Ok(None),
        Err(e) => Err(e),
    }
}

/// A device token sealed: the ciphertext and the nonce it was made under.
pub struct SealedDeviceId {
    pub ciphertext: Vec<u8>,
    pub nonce: Vec<u8>,
}

/// A sealed device token, if there is one, as bytes.
pub open spec fn sealed_view(sealed: Option<SealedDeviceId>) -> Option<(Seq<u8>, Seq<u8>)> {
    match sealed {
        Some(s) => Some((s.ciphertext@, s.nonce@)),
        None => None,
    }
}

/// The credential store. It holds what it knows of the database and of
/// the keyring, works on that, and keeps a journal of the changes that are
/// to be made to the two.
pub struct CredentialManager {
    database: Database,
    rows: Vec<DatabaseCredential>,
    keyring: Vec<KeyringEntry>,
    journal: Vec<StoreAction>,
}

impl View for CredentialManager {
    type V = StoreView;

    closed spec fn view(&self) -> StoreView {
        StoreView {
            schema: self.database@,
            rows: rows_view(self.rows@),
            keyring: keyring_view(self.keyring@),
            journal: journal_view(self.journal@),
        }
    }
}

fn clone_bytes(bytes: &Vec<u8>) -> (r: Vec<u8>)
    ensures
        r@ == bytes@,
{
    let mut out: Vec<u8> = Vec::new();
    let mut i: usize = 0;
    while i < bytes.len()
        invariant
            i <= bytes.len(),
            out@ == bytes@.take(i as int),
        decreases bytes.len() - i,
    {
        out.push(bytes[i]);
        assert(out@ =~= bytes@.take(i + 1));
        i = i + 1;
    }
    assert(bytes@.take(i as int) =~= bytes@);
    out
}

fn clone_opt_bytes(bytes: &Option<Vec<u8>>) -> (r: Option<Vec<u8>>)
    ensures
        opt_bytes(r) == opt_bytes(*bytes),
{
    match bytes {
        Some(b) => Some(clone_bytes(b)),
        None => None,
    }
}

fn clone_row(row: &DatabaseCredential) -> (r: DatabaseCredential)
    ensures
        r@ == row@,
{
    DatabaseCredential {
        url: row.url.clone(),
        user: row.user.clone(),
        device_id_encrypted: clone_opt_bytes(&row.device_id_encrypted),
        device_id_nonce: clone_opt_bytes(&row.device_id_nonce),
    }
}

fn clone_entry(entry: &KeyringEntry) -> (r: KeyringEntry)
    ensures
        r@ == entry@,
{
    KeyringEntry {
        service: entry.service.clone(),
        account: entry.account.clone(),
        password: entry.password.clone(),
    }
}

/// Cleans a URL: one `/` at its end is dropped.
pub fn clean(url: &str) -> (r: String)
    ensures
        r@ == clean_url(url@),
{
    match strip_suffix(url, "/") {
        Some(cleaned) => cleaned,
        None => url.to_string(),
    }
}

/// The key that a password gives.
pub fn derive_key(password: &str) -> (r: Option<Vec<u8>>)
    ensures
        opt_bytes(r) == key_of(password@),
{
    let bytes = password.as_bytes();
    if bytes.len() > KEY_LEN {
        return None;
    }
    let mut key: Vec<u8> = Vec::new();
    let mut i: usize = 0;
    while i < bytes.len()
        invariant
            i <= bytes.len(),
            key@ == bytes@.take(i as int),
        decreases bytes.len() - i,
    {
        key.push(bytes[i]);
        assert(key@ =~= bytes@.take(i + 1));
        i = i + 1;
    }
    assert(bytes@.take(i as int) =~= bytes@);
    while key.len() < KEY_LEN
        invariant
            bytes@.len() <= key.len() <= KEY_LEN,
            key@ == bytes@ + Seq::new((key.len() - bytes@.len()) as nat, |i: int| 0x20u8),
        decreases KEY_LEN - key.len(),
    {
        let ghost before = key@;
        key.push(0x20u8);
        assert(key@ =~= bytes@ + Seq::new((key.len() - bytes@.len()) as nat, |i: int| 0x20u8));
    }
    Some(key)
}

impl CredentialManager {
    /// A store over a database without tables and an empty keyring.
    pub fn new() -> (r: CredentialManager)
        ensures
            r@ == (StoreView {
                schema: SchemaView { credentials: None, metadata: None },
                rows: Seq::empty(),
                keyring: Seq::empty(),
                journal: Seq::empty(),
            }),
            rows_wf(r@.rows),
    {
        let r = CredentialManager {
            database: Database::new(),
            rows: Vec::new(),
            keyring: Vec::new(),
            journal: Vec::new(),
        };
        assert(r@.rows =~= Seq::empty());
        assert(r@.keyring =~= Seq::empty());
        assert(r@.journal =~= Seq::empty());
        r
    }

    /// A store over a database with the schema given, that knows no row and
    /// no password yet.
    pub fn open(database: Database) -> (r: CredentialManager)
        ensures
            r@ == (StoreView {
                schema: database@,
                rows: Seq::empty(),
                keyring: Seq::empty(),
                journal: Seq::empty(),
            }),
            rows_wf(r@.rows),
    {
        let r = CredentialManager {
            database,
            rows: Vec::new(),
            keyring: Vec::new(),
            journal: Vec::new(),
        };
        assert(r@.rows =~= Seq::empty());
        assert(r@.keyring =~= Seq::empty());
        assert(r@.journal =~= Seq::empty());
        r
    }

    /// Tells the store of a row that the table holds.
    pub fn load_row(&mut self, row: DatabaseCredential)
        ensures
            final(self)@ == (StoreView { rows: old(self)@.rows.push(row@), ..old(self)@ }),
    {
        self.rows.push(row);
        assert(self@.rows =~= old(self)@.rows.push(row@));
    }

    /// Tells the store of a password that the keyring holds.
    pub fn load_password(&mut self, entry: KeyringEntry)
        ensures
            final(self)@ == (StoreView { keyring: old(self)@.keyring.push(entry@), ..old(self)@ }),
    {
        self.keyring.push(entry);
        assert(self@.keyring =~= old(self)@.keyring.push(entry@));
    }

    /// Hands out the changes that are still to be made to the database and
    /// to the keyring, oldest first, and forgets them.
    pub fn take_journal(&mut self) -> (r: Vec<StoreAction>)
        ensures
            journal_view(r@) == old(self)@.journal,
            final(self)@ == (StoreView { journal: Seq::empty(), ..old(self)@ }),
    {
        let mut taken: Vec<StoreAction> = Vec::new();
        std::mem::swap(&mut taken, &mut self.journal);
        assert(self@.journal =~= Seq::empty());
        taken
    }

    /// The version that the database is at.
    pub fn get_database_version(&self) -> (r: Result<u32, CredentialError>)
        ensures
            r == spec_version(self@.schema),
    {
        self.database.get_database_version()
    }

    /// Brings the database to the current version: creates the tables where
    /// there are none, migrates a database at version 0, leaves one at the
    /// current version alone. Any other version is refused and nothing changes.
    pub fn get_database(&mut self) -> (r: Result<(), CredentialError>)
        ensures
            match spec_bootstrapped(old(self)@) {
                Ok(ready) => r is Ok && final(self)@ == ready,
                Err(e) => r == Err::<(), CredentialError>(e) && final(self)@ == old(self)@,
            },
            r is Ok ==> is_current(final(self)@),
    {
        proof {
            if spec_bootstrapped(self@) is Ok {
                lemma_bootstrap_reaches_current(self@.schema);
            }
        }
        let actions = match self.database.plan() {
            Ok(actions) => actions,
            Err(e) => {
                return Err(e);
            },
        };
        let ghost before = self@;
        let ghost planned = actions_view(actions@);
        let mut i: usize = 0;
        proof {
            assert(planned.take(0) =~= Seq::empty());
            assert(self@.journal =~= before.journal + schema_entries(planned.take(0)));
        }
        while i < actions.len()
            invariant
                i <= actions.len(),
                planned == actions_view(actions@),
                self@.schema == apply_actions(before.schema, planned.take(i as int)),
                self@.journal == before.journal + schema_entries(planned.take(i as int)),
                self@.rows == before.rows,
                self@.keyring == before.keyring,
            decreases actions.len() - i,
        {
            proof {
                assert(planned.take(i + 1).drop_last() =~= planned.take(i as int));
                assert(planned.take(i + 1).last() == actions@[i as int]@);
            }
            self.database.apply(&actions[i]);
            let ghost journal_before = self@.journal;
            self.journal.push(StoreAction::Schema(clone_action(&actions[i])));
            proof {
                assert(self@.journal =~= journal_before.push(
                    StoreActionView::Schema(actions@[i as int]@),
                ));
                assert(self@.journal =~= before.journal + schema_entries(planned.take(i + 1)));
            }
            i = i + 1;
        }
        proof {
            assert(planned.take(i as int) =~= planned);
        }
        Ok(())
    }

    fn find_row(&self, cleaned: &str) -> (r: Option<usize>)
        ensures
            match r {
                Some(i) => i < self.rows@.len() && self.rows@[i as int].url@ == cleaned@ && lookup(
                    self@.rows,
                    cleaned@,
                ) == Some(self.rows@[i as int]@.1),
                None => lookup(self@.rows, cleaned@) is None,
            },
    {
        let ghost all = rows_view(self.rows@);
        let mut i: usize = 0;
        assert(all.take(0).len() == 0);
        while i < self.rows.len()
            invariant
                i <= self.rows.len(),
                all == rows_view(self.rows@),
                all == self@.rows,
                lookup(all.take(i as int), cleaned@) is None,
            decreases self.rows.len() - i,
        {
            proof {
                assert(all.take(i + 1).drop_last() =~= all.take(i as int));
                assert(all.take(i + 1).last() == self.rows@[i as int]@);
            }
            if str_eq(self.rows[i].url.as_str(), cleaned) {
                proof {
                    assert(lookup(all.take(i + 1), cleaned@) == Some(self.rows@[i as int]@.1));
                    lemma_lookup_prefix(all, i + 1, cleaned@);
                }
                return Some(i);
            }
            i = i + 1;
        }
        assert(all.take(i as int) =~= all);
        None
    }

    fn find_password(&self, service: &str, account: &str) -> (r: Option<usize>)
        ensures
            match r {
                Some(i) => i < self.keyring@.len() && lookup(self@.keyring, (service@, account@))
                    == Some(self.keyring@[i as int].password@),
                None => lookup(self@.keyring, (service@, account@)) is None,
            },
    {
        let ghost all = keyring_view(self.keyring@);
        let ghost key = (service@, account@);
        let mut i: usize = 0;
        assert(all.take(0).len() == 0);
        while i < self.keyring.len()
            invariant
                i <= self.keyring.len(),
                all == keyring_view(self.keyring@),
                all == self@.keyring,
                key == (service@, account@),
                lookup(all.take(i as int), key) is None,
            decreases self.keyring.len() - i,
        {
            proof {
                assert(all.take(i + 1).drop_last() =~= all.take(i as int));
                assert(all.take(i + 1).last() == self.keyring@[i as int]@);
            }
            if str_eq(self.keyring[i].service.as_str(), service) && str_eq(
                self.keyring[i].account.as_str(),
                account,
            ) {
                proof {
                    assert(lookup(all.take(i + 1), key) == Some(self.keyring@[i as int].password@));
                    lemma_lookup_prefix(all, i + 1, key);
                }
                return Some(i);
            }
            i = i + 1;
        }
        assert(all.take(i as int) =~= all);
        None
    }

    fn drop_rows(&mut self, cleaned: &str)
        ensures
            final(self)@ == (StoreView { rows: without(old(self)@.rows, cleaned@), ..old(self)@ }),
    {
        let ghost all = rows_view(self.rows@);
        let mut kept: Vec<DatabaseCredential> = Vec::new();
        let mut i: usize = 0;
        assert(all.take(0).len() == 0);
        assert(rows_view(kept@) =~= without(all.take(0), cleaned@));
        while i < self.rows.len()
            invariant
                i <= self.rows.len(),
                all == rows_view(self.rows@),
                *self == *old(self),
                rows_view(kept@) == without(all.take(i as int), cleaned@),
            decreases self.rows.len() - i,
        {
            proof {
                assert(all.take(i + 1).drop_last() =~= all.take(i as int));
                assert(all.take(i + 1).last() == self.rows@[i as int]@);
            }
            if !str_eq(self.rows[i].url.as_str(), cleaned) {
                let ghost before = rows_view(kept@);
                kept.push(clone_row(&self.rows[i]));
                assert(rows_view(kept@) =~= before.push(self.rows@[i as int]@));
            }
            i = i + 1;
        }
        assert(all.take(i as int) =~= all);
        self.rows = kept;
    }

    fn drop_passwords(&mut self, service: &str, account: &str)
        ensures
            final(self)@ == (StoreView {
                keyring: without(old(self)@.keyring, (service@, account@)),
                ..old(self)@
            }),
    {
        let ghost all = keyring_view(self.keyring@);
        let ghost key = (service@, account@);
        let mut kept: Vec<KeyringEntry> = Vec::new();
        let mut i: usize = 0;
        assert(all.take(0).len() == 0);
        assert(keyring_view(kept@) =~= without(all.take(0), key));
        while i < self.keyring.len()
            invariant
                i <= self.keyring.len(),
                all == keyring_view(self.keyring@),
                key == (service@, account@),
                *self == *old(self),
                keyring_view(kept@) == without(all.take(i as int), key),
            decreases self.keyring.len() - i,
        {
            proof {
                assert(all.take(i + 1).drop_last() =~= all.take(i as int));
                assert(all.take(i + 1).last() == self.keyring@[i as int]@);
            }
            if !(str_eq(self.keyring[i].service.as_str(), service) && str_eq(
                self.keyring[i].account.as_str(),
                account,
            )) {
                let ghost before = keyring_view(kept@);
                kept.push(clone_entry(&self.keyring[i]));
                assert(keyring_view(kept@) =~= before.push(self.keyring@[i as int]@));
            }
            i = i + 1;
        }
        assert(all.take(i as int) =~= all);
        self.keyring = kept;
    }

    fn record(&mut self, action: StoreAction)
        ensures
            final(self)@ == (StoreView { journal: old(self)@.journal.push(action@), ..old(self)@ }),
    {
        self.journal.push(action);
        assert(self@.journal =~= old(self)@.journal.push(action@));
    }
}

/// What an operation of the store gives where the database cannot be
/// brought to the current version: the reason, and the store as it was.
pub open spec fn refused<T>(
    before: StoreView,
    after: StoreView,
    r: Result<T, CredentialError>,
    e: CredentialError,
) -> bool {
    r matches Err(failure) && failure == e && after == before
}

/// Whether a device token is there and is longer than the cipher takes.
pub open spec fn too_long_to_seal(device_id: Option<Seq<char>>) -> bool {
    device_id matches Some(text) && encode_utf8(text).len() > MAX_PLAINTEXT_LEN
}

fn read_device_id(row: &DatabaseCredential, password: &str) -> (r: Result<
    Option<String>,
    CredentialError,
>)
    ensures
        match device_id_of(row@.1, password@) {
            Ok(device_id) => r matches Ok(found) && opt_view(found) == device_id,
            Err(e) => r matches Err(failure) && failure == e,
        },
{
    let nonce = match &row.device_id_nonce {
        None => {
            return Ok(None);
        },
        Some(nonce) => nonce,
    };
    let sealed = match &row.device_id_encrypted {
        None => {
            return Err(CredentialError::DatabaseError);
        },
        Some(sealed) => sealed,
    };
    let key = match derive_key(password) {
        None => {
            return Err(CredentialError::DecryptionFailed);
        },
        Some(key) => key,
    };
    if nonce.len() != NONCE_LEN {
        return Err(CredentialError::DecryptionFailed);
    }
    match aes_gcm_decrypt(key.as_slice(), nonce.as_slice(), sealed.as_slice()) {
        Err(_) => Err(CredentialError::DecryptionFailed),
        Ok(plain) => match string_from_utf8(plain) {
            Some(text) => Ok(Some(text)),
            None => Err(CredentialError::DecryptionFailed),
        },
    }
}

impl CredentialManager {
    /// Whether the store holds a credential for the URL.
    pub fn has_credential(&mut self, url: &str) -> (r: Result<bool, CredentialError>)
        ensures
            match spec_bootstrapped(old(self)@) {
                Ok(ready) => final(self)@ == ready && r == Ok::<bool, CredentialError>(
                    spec_has(ready, url@),
                ),
                Err(e) => refused(old(self)@, final(self)@, r, e),
            },
            r is Ok ==> is_current(final(self)@),
            final(self)@.rows == old(self)@.rows,
    {
        match self.get_database() {
            Ok(_) => {},
            Err(e) => {
                return Err(e);
            },
        }
        let cleaned = clean(url);
        Ok(self.find_row(cleaned.as_str()).is_some())
    }

    /// The credential that the store holds for the URL: the user of its
    /// row, the password that the keyring holds for that user, and the
    /// device token of the row, decrypted with the password. Without a row
    /// there is none. A row without password in the keyring, and a device
    /// token that the password does not open, are failures.
    pub fn get_credential(&mut self, url: &str) -> (r: Result<Option<Credential>, CredentialError>)
        ensures
            match spec_bootstrapped(old(self)@) {
                Ok(ready) => final(self)@ == ready && found_view(r) == spec_get(ready, url@),
                Err(e) => refused(old(self)@, final(self)@, r, e),
            },
            spec_bootstrapped(old(self)@) is Ok ==> is_current(final(self)@),
            final(self)@.rows == old(self)@.rows,
    {
        match self.get_database() {
            Ok(_) => {},
            Err(e) => {
                return Err(e);
            },
        }
        let cleaned = clean(url);
        let i = match self.find_row(cleaned.as_str()) {
            None => {
                return Ok(None);
            },
            Some(i) => i,
        };
        let j = match self.find_password(cleaned.as_str(), self.rows[i].user.as_str()) {
            None => {
                return Err(CredentialError::KeyringMissing);
            },
            Some(j) => j,
        };
        let password = self.keyring[j].password.clone();
        match read_device_id(&self.rows[i], password.as_str()) {
            Ok(device_id) => Ok(
                Some(Credential { user: self.rows[i].user.clone(), password, totp: None, device_id }),
            ),
            Err(e) => Err(e),
        }
    }

    /// Removes the credential for the URL, if there is one: first the
    /// password from the keyring, then the rows from the table.
    pub fn remove_credential(&mut self, url: &str) -> (r: Result<(), CredentialError>)
        ensures
            match spec_bootstrapped(old(self)@) {
                Ok(ready) => r is Ok && final(self)@ == spec_removed(ready, url@),
                Err(e) => refused(old(self)@, final(self)@, r, e),
            },
            r is Ok ==> is_current(final(self)@),
            rows_wf(old(self)@.rows) ==> rows_wf(final(self)@.rows),
    {
        proof {
            if spec_bootstrapped(self@) is Ok && rows_wf(self@.rows) {
                lemma_removed_rows_wf(spec_bootstrapped(self@)->Ok_0, url@);
            }
        }
        match self.get_database() {
            Ok(_) => {},
            Err(e) => {
                return Err(e);
            },
        }
        self.remove_row(url);
        Ok(())
    }

    fn remove_row(&mut self, url: &str)
        ensures
            final(self)@ == spec_removed(old(self)@, url@),
    {
        let cleaned = clean(url);
        match self.find_row(cleaned.as_str()) {
            None => {},
            Some(i) => {
                let user = self.rows[i].user.clone();
                self.drop_passwords(cleaned.as_str(), user.as_str());
                self.drop_rows(cleaned.as_str());
                self.record(
                    StoreAction::DeleteKeyringEntry { service: cleaned.clone(), account: user },
                );
                self.record(StoreAction::DeleteRows { url: cleaned });
            },
        }
    }

    /// Writes the credential for the URL, with its device token as it was
    /// sealed. What the store held for the URL is removed first; then the
    /// row enters the table and the password the keyring.
    pub fn store_credential(&mut self, url: &str, credential: &Credential, sealed: Option<SealedDeviceId>)
        ensures
            final(self)@ == spec_stored(
                old(self)@,
                url@,
                credential@.user,
                credential@.password,
                sealed_view(sealed),
            ),
            rows_wf(old(self)@.rows) ==> rows_wf(final(self)@.rows),
    {
        proof {
            if rows_wf(self@.rows) {
                lemma_stored_rows_wf(
                    self@,
                    url@,
                    credential@.user,
                    credential@.password,
                    sealed_view(sealed),
                );
            }
        }
        self.remove_row(url);
        let cleaned = clean(url);
        let (device_id_encrypted, device_id_nonce) = match sealed {
            Some(s) => (Some(s.ciphertext), Some(s.nonce)),
            None => (None, None),
        };
        let row = DatabaseCredential {
            url: cleaned.clone(),
            user: credential.user.clone(),
            device_id_encrypted,
            device_id_nonce,
        };
        let entry = KeyringEntry {
            service: cleaned.clone(),
            account: credential.user.clone(),
            password: credential.password.clone(),
        };
        assert(row@.1 == row_of(credential@.user, sealed_view(sealed)));
        self.load_row(clone_row(&row));
        self.drop_passwords(cleaned.as_str(), credential.user.as_str());
        self.load_password(clone_entry(&entry));
        self.record(StoreAction::InsertRow(row));
        self.record(StoreAction::SetPassword(entry));
    }

    /// Seals the device token of a credential under the key of its
    /// password and a fresh nonce. A credential without device token gives
    /// nothing to seal.
    pub fn seal_device_id(credential: &Credential) -> (r: Result<
        Option<SealedDeviceId>,
        CredentialError,
    >)
        ensures
            match key_of(credential@.password) {
                None => r matches Err(e) && e == CredentialError::PasswordTooLong,
                Some(key) => match credential@.device_id {
                    None => r matches Ok(sealed) && sealed is None,
                    Some(device_id) => match r {
                        Ok(sealed) => sealed matches Some(s) && is_sealing(
                            key,
                            s.nonce@,
                            encode_utf8(device_id),
                            s.ciphertext@,
                        ),
                        Err(e) => e == CredentialError::EncryptionFailed && too_long_to_seal(
                            credential@.device_id,
                        ),
                    },
                },
            },
    {
        let key = match derive_key(credential.password.as_str()) {
            None => {
                return Err(CredentialError::PasswordTooLong);
            },
            Some(key) => key,
        };
        match &credential.device_id {
            None => Ok(None),
            Some(device_id) => {
                let nonce = fresh_nonce();
                match aes_gcm_encrypt(key.as_slice(), nonce.as_slice(), device_id.as_str().as_bytes()) {
                    Ok(ciphertext) => Ok(Some(SealedDeviceId { ciphertext, nonce })),
                    Err(_) => Err(CredentialError::EncryptionFailed),
                }
            },
        }
    }

    /// Writes the credential for the URL. A password longer than a key is
    /// refused. The device token, if there is one, is sealed under the key
    /// of the password and a fresh nonce; what the store held for the URL is
    /// replaced.
    pub fn set_credential(&mut self, url: &str, credential: &Credential) -> (r: Result<
        (),
        CredentialError,
    >)
        ensures
            match spec_bootstrapped(old(self)@) {
                Err(e) => refused(old(self)@, final(self)@, r, e),
                Ok(ready) => match r {
                    Ok(_) => set_post(old(self)@, url@, credential@, final(self)@),
                    Err(e) => final(self)@ == ready && match key_of(credential@.password) {
                        None => e == CredentialError::PasswordTooLong,
                        Some(_) => e == CredentialError::EncryptionFailed && too_long_to_seal(
                            credential@.device_id,
                        ),
                    },
                },
            },
            spec_bootstrapped(old(self)@) is Ok ==> is_current(final(self)@),
            rows_wf(old(self)@.rows) ==> rows_wf(final(self)@.rows),
            key_of(credential@.password) is None ==> r is Err,
            spec_bootstrapped(old(self)@) is Ok && key_of(credential@.password) is Some
                && !too_long_to_seal(credential@.device_id) ==> r is Ok,
    {
        match self.get_database() {
            Ok(_) => {},
            Err(e) => {
                return Err(e);
            },
        }
        let sealed = match Self::seal_device_id(credential) {
            Ok(sealed) => sealed,
            Err(e) => {
                return Err(e);
            },
        };
        proof {
            let key = key_of(credential@.password)->0;
            if sealed is Some {
                assert(is_sealing(
                    key,
                    sealed->0.nonce@,
                    encode_utf8(credential@.device_id->0),
                    sealed->0.ciphertext@,
                ));
            }
        }
        self.store_credential(url, credential, sealed);
        Ok(())
    }
}

/// What `get_credential` gives on a store, the database brought to the
/// current version first.
pub open spec fn full_get(store: StoreView, url: Seq<char>) -> Result<
    Option<CredentialView>,
    CredentialError,
> {
    match spec_bootstrapped(store) {
        Ok(ready) => spec_get(ready, url),
        Err(e) => Err(e),
    }
}

/// What `has_credential` gives on a store, the database brought to the
/// current version first.
pub open spec fn full_has(store: StoreView, url: Seq<char>) -> Result<bool, CredentialError> {
    match spec_bootstrapped(store) {
        Ok(ready) => Ok(spec_has(ready, url)),
        Err(e) => Err(e),
    }
}

/// What `remove_credential` leaves of a store.
pub open spec fn full_removed(store: StoreView, url: Seq<char>) -> Result<StoreView, CredentialError> {
    match spec_bootstrapped(store) {
        Ok(ready) => Ok(spec_removed(ready, url)),
        Err(e) => Err(e),
    }
}

/// A credential as the store gives it back: without one-time code.
pub open spec fn kept(credential: CredentialView) -> CredentialView {
    CredentialView { totp: None, ..credential }
}

/// A store whose database is at the current version needs no change to
/// be used.
pub proof fn lemma_current_is_ready(store: StoreView)
    requires
        is_current(store),
    ensures
        spec_bootstrapped(store) == Ok::<StoreView, CredentialError>(store),
{
    assert(apply_actions(store.schema, Seq::empty()) == store.schema);
    assert(store.journal + schema_entries(Seq::empty()) =~= store.journal);
}

/// A store whose database was brought to the current version needs nothing
/// more: bringing it there again changes nothing.
pub proof fn lemma_bootstrap_once(store: StoreView)
    requires
        spec_bootstrapped(store) is Ok,
    ensures
        spec_bootstrapped(spec_bootstrapped(store)->Ok_0) == spec_bootstrapped(store),
{
    lemma_bootstrap_reaches_current(store.schema);
    let ready = spec_bootstrapped(store)->Ok_0;
    assert(ready.journal + schema_entries(Seq::empty()) =~= ready.journal);
}

/// After the credential for a URL was removed, nothing is found for it.
pub proof fn lemma_removed_is_absent(store: StoreView, url: Seq<char>)
    ensures
        !spec_has(spec_removed(store, url), url),
{
    lemma_lookup_without_same(store.rows, clean_url(url));
}

/// Reading back what `set_credential` wrote gives the user, the password
/// and the device token that were written.
pub proof fn lemma_set_then_get(
    before: StoreView,
    url: Seq<char>,
    credential: CredentialView,
    after: StoreView,
)
    requires
        set_post(before, url, credential, after),
    ensures
        full_get(after, url) == Ok::<Option<CredentialView>, CredentialError>(
            Some(kept(credential)),
        ),
{
    let ready = spec_bootstrapped(before)->Ok_0;
    let cleaned = clean_url(url);
    let key = key_of(credential.password)->0;
    let user = credential.user;
    let password = credential.password;
    lemma_bootstrap_once(before);
    lemma_removed_is_absent(ready, url);
    let cleared = spec_removed(ready, url);
    assert(cleared.schema == ready.schema);
    assert forall|sealed: Option<(Seq<u8>, Seq<u8>)>|
        after == #[trigger] spec_stored(ready, url, user, password, sealed) implies {
        &&& spec_bootstrapped(after) == Ok::<StoreView, CredentialError>(after)
        &&& lookup(after.rows, cleaned) == Some(row_of(user, sealed))
        &&& lookup(after.keyring, (cleaned, user)) == Some(password)
    } by {
        let row = row_of(user, sealed);
        lemma_lookup_push(cleared.rows, (cleaned, row), cleaned);
        let keyring = without(cleared.keyring, (cleaned, user));
        lemma_lookup_without_same(cleared.keyring, (cleaned, user));
        lemma_lookup_push(keyring, ((cleaned, user), password), (cleaned, user));
        lemma_bootstrap_reaches_current(before.schema);
        assert(after.schema == ready.schema);
        assert(after.journal + schema_entries(Seq::empty()) =~= after.journal);
    }
    match credential.device_id {
        None => {
            assert(after == spec_stored(ready, url, user, password, None));
        },
        Some(device_id) => {
            let (sealed, nonce) = choose|sealed: Seq<u8>, nonce: Seq<u8>|
                #![trigger is_sealing(key, nonce, encode_utf8(device_id), sealed)]
                is_sealing(key, nonce, encode_utf8(device_id), sealed) && after == spec_stored(
                    ready,
                    url,
                    user,
                    password,
                    Some((sealed, nonce)),
                );
            assert(after == spec_stored(ready, url, user, password, Some((sealed, nonce))));
            vstd::utf8::encode_utf8_valid_utf8(device_id);
            vstd::utf8::encode_utf8_decode_utf8(device_id);
        },
    }
}

/// After `set_credential` and then `remove_credential` for a URL, the
/// store holds no credential for it.
pub proof fn lemma_set_remove_has(
    before: StoreView,
    url: Seq<char>,
    credential: CredentialView,
    written: StoreView,
    after: StoreView,
)
    requires
        set_post(before, url, credential, written),
        full_removed(written, url) == Ok::<StoreView, CredentialError>(after),
    ensures
        full_has(after, url) == Ok::<bool, CredentialError>(false),
{
    let ready = spec_bootstrapped(written)->Ok_0;
    lemma_removed_is_absent(ready, url);
    lemma_bootstrap_once(written);
    assert(after.schema == ready.schema);
    lemma_bootstrap_reaches_current(written.schema);
    assert(after.journal + schema_entries(Seq::empty()) =~= after.journal);
}

/// A URL that does not end with `/` is the key of itself and of itself
/// with one `/` behind it.
pub proof fn lemma_clean_url_slash(url: Seq<char>)
    requires
        !has_suffix(url, "/"@),
    ensures
        clean_url(url) == url,
        clean_url(url + "/"@) == url,
{
    reveal_strlit("/");
    let with_slash = url + "/"@;
    assert("/"@.len() == 1);
    assert(with_slash.subrange(with_slash.len() - 1, with_slash.len() as int) =~= "/"@);
    assert(with_slash.subrange(0, with_slash.len() - 1) =~= url);
}

/// A credential written under a URL with a `/` at its end is read under
/// the URL without it.
pub proof fn lemma_set_with_slash_get_without(
    before: StoreView,
    url: Seq<char>,
    credential: CredentialView,
    after: StoreView,
)
    requires
        !has_suffix(url, "/"@),
        set_post(before, url + "/"@, credential, after),
    ensures
        full_get(after, url) == Ok::<Option<CredentialView>, CredentialError>(
            Some(kept(credential)),
        ),
{
    lemma_clean_url_slash(url);
    lemma_set_then_get(before, url + "/"@, credential, after);
}

/// Removing the credential of one URL leaves what the store holds for
/// every URL with another key.
pub proof fn lemma_remove_keeps_others(store: StoreView, url: Seq<char>, other: Seq<char>)
    requires
        clean_url(other) != clean_url(url),
    ensures
        spec_has(spec_removed(store, url), other) == spec_has(store, other),
        spec_get(spec_removed(store, url), other) == spec_get(store, other),
{
    let cleaned = clean_url(url);
    let key = clean_url(other);
    lemma_lookup_without_other(store.rows, cleaned, key);
    match lookup(store.rows, cleaned) {
        Some(row) => {
            match lookup(store.rows, key) {
                Some(kept_row) => {
                    lemma_lookup_without_other(
                        store.keyring,
                        (cleaned, row.user),
                        (key, kept_row.user),
                    );
                },
                None => {},
            }
        },
        None => {},
    }
}

/// Writing the credential of one URL leaves what the store holds for
/// every URL with another key.
pub proof fn lemma_store_keeps_others(
    store: StoreView,
    url: Seq<char>,
    user: Seq<char>,
    password: Seq<char>,
    sealed: Option<(Seq<u8>, Seq<u8>)>,
    other: Seq<char>,
)
    requires
        clean_url(other) != clean_url(url),
    ensures
        spec_has(spec_stored(store, url, user, password, sealed), other) == spec_has(store, other),
        spec_get(spec_stored(store, url, user, password, sealed), other) == spec_get(store, other),
{
    let cleaned = clean_url(url);
    let key = clean_url(other);
    let cleared = spec_removed(store, url);
    lemma_remove_keeps_others(store, url, other);
    lemma_lookup_push(cleared.rows, (cleaned, row_of(user, sealed)), key);
    match lookup(cleared.rows, key) {
        Some(kept_row) => {
            lemma_lookup_without_other(cleared.keyring, (cleaned, user), (key, kept_row.user));
            lemma_lookup_push(
                without(cleared.keyring, (cleaned, user)),
                ((cleaned, user), password),
                (key, kept_row.user),
            );
        },
        None => {},
    }
}

/// Whether a row is well formed: it holds a ciphertext exactly where it
/// holds a nonce.
pub open spec fn row_wf(row: RowData) -> bool {
    row.device_id_encrypted is Some <==> row.device_id_nonce is Some
}

/// Whether the table is well formed: every row is, and no two rows stand
/// under one URL.
pub open spec fn rows_wf(rows: Seq<(Seq<char>, RowData)>) -> bool {
    &&& unique_keys(rows)
    &&& forall|i: int| 0 <= i < rows.len() ==> row_wf(#[trigger] rows[i].1)
}

/// Removing a credential leaves a well-formed table well formed.
pub proof fn lemma_removed_rows_wf(store: StoreView, url: Seq<char>)
    requires
        rows_wf(store.rows),
    ensures
        rows_wf(spec_removed(store, url).rows),
{
    let cleaned = clean_url(url);
    let left = without(store.rows, cleaned);
    lemma_without_contained(store.rows, cleaned);
    assert forall|i: int| 0 <= i < left.len() implies row_wf(#[trigger] left[i].1) by {
        assert(store.rows.contains(left[i]));
        let j = choose|j: int| 0 <= j < store.rows.len() && store.rows[j] == left[i];
        assert(row_wf(store.rows[j].1));
    }
    assert forall|key: Seq<char>| #[trigger] occurrences(left, key) <= 1 by {
        lemma_occurrences_without(store.rows, cleaned, key);
        assert(occurrences(store.rows, key) <= 1);
    }
}

/// Writing a credential leaves a well-formed table well formed, with
/// exactly one row under the URL of the credential.
pub proof fn lemma_stored_rows_wf(
    store: StoreView,
    url: Seq<char>,
    user: Seq<char>,
    password: Seq<char>,
    sealed: Option<(Seq<u8>, Seq<u8>)>,
)
    requires
        rows_wf(store.rows),
    ensures
        rows_wf(spec_stored(store, url, user, password, sealed).rows),
        occurrences(spec_stored(store, url, user, password, sealed).rows, clean_url(url)) == 1,
{
    let cleaned = clean_url(url);
    let cleared = spec_removed(store, url);
    let row = row_of(user, sealed);
    let written = cleared.rows.push((cleaned, row));
    lemma_removed_rows_wf(store, url);
    assert(occurrences(cleared.rows, cleaned) == 0) by {
        lemma_occurrences_without(store.rows, cleaned, cleaned);
        if lookup(store.rows, cleaned) is None {
            lemma_absent_occurs_nowhere(store.rows, cleaned);
        }
    }
    assert forall|key: Seq<char>| #[trigger] occurrences(written, key) <= 1 by {
        lemma_occurrences_push(cleared.rows, (cleaned, row), key);
        assert(occurrences(cleared.rows, key) <= 1);
    }
    lemma_occurrences_push(cleared.rows, (cleaned, row), cleaned);
    assert forall|i: int| 0 <= i < written.len() implies row_wf(#[trigger] written[i].1) by {
        if i < cleared.rows.len() {
            assert(row_wf(cleared.rows[i].1));
        }
    }
}

/// Writing a credential is an upsert: writing it again, with whatever
/// sealing of its device token, leaves the table and the keyring as the
/// second writing alone would have left them.
pub proof fn lemma_store_twice(
    store: StoreView,
    url: Seq<char>,
    user: Seq<char>,
    password: Seq<char>,
    first: Option<(Seq<u8>, Seq<u8>)>,
    second: Option<(Seq<u8>, Seq<u8>)>,
)
    ensures
        spec_stored(spec_stored(store, url, user, password, first), url, user, password, second).rows
            == spec_stored(store, url, user, password, second).rows,
        spec_stored(
            spec_stored(store, url, user, password, first),
            url,
            user,
            password,
            second,
        ).keyring == spec_stored(store, url, user, password, second).keyring,
{
    let cleaned = clean_url(url);
    let key = (cleaned, user);
    let cleared = spec_removed(store, url);
    let once = spec_stored(store, url, user, password, first);
    lemma_removed_is_absent(store, url);
    lemma_lookup_push(cleared.rows, (cleaned, row_of(user, first)), cleaned);
    lemma_without_push(cleared.rows, (cleaned, row_of(user, first)), cleaned);
    lemma_without_absent(cleared.rows, cleaned);
    let keyring = without(cleared.keyring, key);
    lemma_lookup_without_same(cleared.keyring, key);
    lemma_without_push(keyring, (key, password), key);
    lemma_without_absent(keyring, key);
}

} // verus!
