//! The schema of the credential database: which version a database is at
//! and what brings it to the current one.

use vstd::prelude::*;
use vstd::string::*;

use crate::text::{chars_of, str_eq};

verus! {

/// The version of the schema that this library reads and writes.
pub const CURRENT_VERSION: u32 = 1;

/// Why the credential store could not do what was asked.
#[derive(Clone, Copy, Debug, PartialEq, Eq, Structural)]
pub enum CredentialError {
    /// The database holds none of the store's tables.
    DatabaseNotInitialized,
    /// The database is at a version that this library does not know.
    UnsupportedSchemaVersion,
    /// The database does not hold what its schema promises.
    DatabaseError,
    /// A row is there and the keyring has no password for it.
    KeyringMissing,
    /// The device token could not be decrypted with the password.
    DecryptionFailed,
    /// The device token could not be encrypted.
    EncryptionFailed,
    /// The password is longer than a key.
    PasswordTooLong,
}

/// One change to the schema.
#[derive(Clone, Debug)]
pub enum SchemaAction {
    /// Creates the table `Credentials` with the current columns, unless it is there.
    CreateCredentialsTable,
    /// Creates the empty table `Metadata`, unless it is there.
    CreateMetadataTable,
    /// Adds a row to `Metadata`.
    InsertMetadata { key: String, value: String },
    /// Drops a column of `Credentials`.
    DropColumn { name: String },
    /// Adds a column to `Credentials`.
    AddColumn { name: String },
}

/// A change to the schema as the characters it holds.
pub enum SchemaActionView {
    CreateCredentialsTable,
    CreateMetadataTable,
    InsertMetadata { key: Seq<char>, value: Seq<char> },
    DropColumn { name: Seq<char> },
    AddColumn { name: Seq<char> },
}

impl View for SchemaAction {
    type V = SchemaActionView;

    open spec fn view(&self) -> SchemaActionView {
        match *self {
            SchemaAction::CreateCredentialsTable => SchemaActionView::CreateCredentialsTable,
            SchemaAction::CreateMetadataTable => SchemaActionView::CreateMetadataTable,
            SchemaAction::InsertMetadata { key, value } => SchemaActionView::InsertMetadata {
                key: key@,
                value: value@,
            },
            SchemaAction::DropColumn { name } => SchemaActionView::DropColumn { name: name@ },
            SchemaAction::AddColumn { name } => SchemaActionView::AddColumn { name: name@ },
        }
    }
}

/// The schema of a database as far as the store looks at it: the columns of
/// `Credentials` and the rows of `Metadata`, each where the table is there.
#[derive(Clone, Debug)]
pub struct Database {
    pub credentials: Option<Vec<String>>,
    pub metadata: Option<Vec<(String, String)>>,
}

/// A schema as the characters it holds.
pub struct SchemaView {
    pub credentials: Option<Seq<Seq<char>>>,
    pub metadata: Option<Seq<(Seq<char>, Seq<char>)>>,
}

/// Names as characters.
pub open spec fn names_view(names: Seq<String>) -> Seq<Seq<char>> {
    Seq::new(names.len(), |i: int| names[i]@)
}

/// Rows of `Metadata` as characters.
pub open spec fn metadata_view(rows: Seq<(String, String)>) -> Seq<(Seq<char>, Seq<char>)> {
    Seq::new(rows.len(), |i: int| (rows[i].0@, rows[i].1@))
}

impl View for Database {
    type V = SchemaView;

    open spec fn view(&self) -> SchemaView {
        SchemaView {
            credentials: match self.credentials {
                Some(columns) => Some(names_view(columns@)),
                None => None,
            },
            metadata: match self.metadata {
                Some(rows) => Some(metadata_view(rows@)),
                None => None,
            },
        }
    }
}

/// The value of a decimal digit.
pub open spec fn digit_value(c: char) -> Option<nat> {
    if '0' <= c <= '9' {
        Some((c as nat - '0' as nat) as nat)
    } else {
        None
    }
}

/// The number that a text of decimal digits stands for. A text that is
/// empty or holds anything but digits stands for none.
pub open spec fn numeral_value(text: Seq<char>) -> Option<nat>
    decreases text.len(),
{
    if text.len() == 0 {
        None
    } else if text.len() == 1 {
        digit_value(text[0])
    } else {
        match (numeral_value(text.drop_last()), digit_value(text.last())) {
            (Some(head), Some(d)) => Some(head * 10 + d),
            _ => None,
        }
    }
}

/// The version that a text stands for.
pub open spec fn spec_parse_version(text: Seq<char>) -> Option<u32> {
    match numeral_value(text) {
        Some(v) => if v <= u32::MAX {
            Some(v as u32)
        } else {
            None
        },
        None => None,
    }
}

/// The version that the rows of `Metadata` tell: that of the first row
/// under `version` whose value is a number.
pub open spec fn first_version(rows: Seq<(Seq<char>, Seq<char>)>) -> Option<u32>
    decreases rows.len(),
{
    if rows.len() == 0 {
        None
    } else {
        match first_version(rows.drop_last()) {
            Some(v) => Some(v),
            None => if rows.last().0 == "version"@ {
                spec_parse_version(rows.last().1)
            } else {
                None
            },
        }
    }
}

/// The version that a database is at. A database with neither table is not
/// initialized; one with `Credentials` alone is at version 0; one with both
/// tables is at the version that `Metadata` tells.
pub open spec fn spec_version(schema: SchemaView) -> Result<u32, CredentialError> {
    match (schema.credentials, schema.metadata) {
        (None, None) => Err(CredentialError::DatabaseNotInitialized),
        (Some(_), None) => Ok(0),
        (None, Some(_)) => Err(CredentialError::DatabaseError),
        (Some(_), Some(rows)) => match first_version(rows) {
            Some(v) => Ok(v),
            None => Err(CredentialError::DatabaseError),
        },
    }
}

/// The columns of `Credentials` at the current version.
pub open spec fn current_columns() -> Seq<Seq<char>> {
    seq!["id"@, "url"@, "user"@, "device_id_encrypted"@, "device_id_nonce"@]
}

/// The columns without the one named.
pub open spec fn columns_without(columns: Seq<Seq<char>>, name: Seq<char>) -> Seq<Seq<char>>
    decreases columns.len(),
{
    if columns.len() == 0 {
        columns
    } else if columns.last() == name {
        columns_without(columns.drop_last(), name)
    } else {
        columns_without(columns.drop_last(), name).push(columns.last())
    }
}

/// The schema after one change.
pub open spec fn apply_action(schema: SchemaView, action: SchemaActionView) -> SchemaView {
    match action {
        SchemaActionView::CreateCredentialsTable => SchemaView {
            credentials: match schema.credentials {
                Some(columns) => Some(columns),
                None => Some(current_columns()),
            },
            ..schema
        },
        SchemaActionView::CreateMetadataTable => SchemaView {
            metadata: match schema.metadata {
                Some(rows) => Some(rows),
                None => Some(Seq::empty()),
            },
            ..schema
        },
        SchemaActionView::InsertMetadata { key, value } => SchemaView {
            metadata: match schema.metadata {
                Some(rows) => Some(rows.push((key, value))),
                None => None,
            },
            ..schema
        },
        SchemaActionView::DropColumn { name } => SchemaView {
            credentials: match schema.credentials {
                Some(columns) => Some(columns_without(columns, name)),
                None => None,
            },
            ..schema
        },
        SchemaActionView::AddColumn { name } => SchemaView {
            credentials: match schema.credentials {
                Some(columns) => Some(columns.push(name)),
                None => None,
            },
            ..schema
        },
    }
}

/// The schema after the changes, one after the other.
pub open spec fn apply_actions(schema: SchemaView, actions: Seq<SchemaActionView>) -> SchemaView
    decreases actions.len(),
{
    if actions.len() == 0 {
        schema
    } else {
        apply_action(apply_actions(schema, actions.drop_last()), actions.last())
    }
}

/// What creates the tables of the current version in a database that has none.
pub open spec fn create_plan() -> Seq<SchemaActionView> {
    seq![
        SchemaActionView::CreateCredentialsTable,
        SchemaActionView::CreateMetadataTable,
        SchemaActionView::InsertMetadata { key: "version"@, value: "1"@ },
    ]
}

/// What brings a database from version 0 to the current version: the two
/// columns of the one-time-code command go, the two of the device token
/// come, and `Metadata` is created with the version in it.
pub open spec fn migration_plan() -> Seq<SchemaActionView> {
    seq![
        SchemaActionView::DropColumn { name: "totp_command_encrypted"@ },
        SchemaActionView::DropColumn { name: "totp_nonce"@ },
        SchemaActionView::AddColumn { name: "device_id_encrypted"@ },
        SchemaActionView::AddColumn { name: "device_id_nonce"@ },
    ] + create_plan()
}

/// The changes that bring a database to the current version, or why there
/// are none. A database without tables gets them; one with `Credentials`
/// alone is migrated; one with `Metadata` must tell the current version.
pub open spec fn spec_plan(schema: SchemaView) -> Result<Seq<SchemaActionView>, CredentialError> {
    match (schema.credentials, schema.metadata) {
        (None, None) => Ok(create_plan()),
        (Some(_), None) => Ok(migration_plan()),
        _ => match spec_version(schema) {
            Ok(v) => if v == CURRENT_VERSION {
                Ok(Seq::empty())
            } else {
                Err(CredentialError::UnsupportedSchemaVersion)
            },
            Err(e) => Err(e),
        },
    }
}

/// Changes as the characters they hold.
pub open spec fn actions_view(actions: Seq<SchemaAction>) -> Seq<SchemaActionView> {
    Seq::new(actions.len(), |i: int| actions[i]@)
}

/// Reads a version. The text must be decimal digits and the number must fit.
pub fn parse_version(text: &str) -> (r: Option<u32>)
    ensures
        r == spec_parse_version(text@),
{
    let chars = chars_of(text);
    if chars.len() == 0 {
        return None;
    }
    let limit: u64 = 0x1_0000_0000;
    let mut value: u64 = 0;
    let mut i: usize = 0;
    while i < chars.len()
        invariant
            i <= chars.len(),
            chars.len() > 0,
            chars@ == text@,
            limit == 0x1_0000_0000,
            value <= limit,
            i > 0 ==> (numeral_value(chars@.take(i as int)) matches Some(v) && value == if v
                <= limit {
                v
            } else {
                limit as nat
            }),
            i == 0 ==> value == 0,
        decreases chars.len() - i,
    {
        let c = chars[i];
        proof {
            assert(chars@.take(i + 1).drop_last() =~= chars@.take(i as int));
            assert(chars@.take(i + 1).last() == c);
        }
        if c < '0' || c > '9' {
            proof {
                let prefix = chars@.take(i + 1);
                assert(digit_value(c) is None);
                assert(prefix.len() == i + 1);
                assert(prefix[i as int] == c);
                assert(numeral_value(prefix) is None);
                lemma_numeral_prefix(chars@, i + 1);
            }
            return None;
        }
        let d: u64 = (c as u64) - ('0' as u64);
        let next: u64 = value * 10 + d;
        value = if next > limit {
            limit
        } else {
            next
        };
        i = i + 1;
    }
    assert(chars@.take(i as int) =~= chars@);
    if value <= 0xffff_ffff {
        Some(value as u32)
    } else {
        None
    }
}

/// A text with a prefix that is no number is no number.
pub proof fn lemma_numeral_prefix(text: Seq<char>, n: int)
    requires
        0 < n <= text.len(),
        numeral_value(text.take(n)) is None,
    ensures
        numeral_value(text) is None,
    decreases text.len() - n,
{
    if n < text.len() {
        assert(text.take(n + 1).drop_last() =~= text.take(n));
        lemma_numeral_prefix(text, n + 1);
    } else {
        assert(text.take(n) =~= text);
    }
}

impl Database {
    /// A database without tables.
    pub fn new() -> (r: Database)
        ensures
            r@ == (SchemaView { credentials: None, metadata: None }),
    {
        Database { credentials: None, metadata: None }
    }

    /// The version that the database is at.
    pub fn get_database_version(&self) -> (r: Result<u32, CredentialError>)
        ensures
            r == spec_version(self@),
    {
        match &self.metadata {
            None => match &self.credentials {
                None => Err(CredentialError::DatabaseNotInitialized),
                Some(_) => Ok(0),
            },
            Some(rows) => match &self.credentials {
                None => Err(CredentialError::DatabaseError),
                Some(_) => {
                    let mut i: usize = 0;
                    assert(metadata_view(rows@).take(0).len() == 0);
                    while i < rows.len()
                        invariant
                            i <= rows.len(),
                            self@.credentials is Some,
                            self@.metadata == Some(metadata_view(rows@)),
                            first_version(metadata_view(rows@).take(i as int)) is None,
                        decreases rows.len() - i,
                    {
                        proof {
                            let all = metadata_view(rows@);
                            assert(all.take(i + 1).drop_last() =~= all.take(i as int));
                            assert(all.take(i + 1).last() == all[i as int]);
                        }
                        if str_eq(rows[i].0.as_str(), "version") {
                            match parse_version(rows[i].1.as_str()) {
                                Some(v) => {
                                    proof {
                                        let all = metadata_view(rows@);
                                        assert(all[i as int] == (rows@[i as int].0@, rows@[i as int].1@));
                                        assert(first_version(all.take(i + 1)) == Some(v));
                                        lemma_first_version_prefix(all, i + 1);
                                    }
                                    return Ok(v);
                                },
                                None => {},
                            }
                        }
                        i = i + 1;
                    }
                    assert(metadata_view(rows@).take(i as int) =~= metadata_view(rows@));
                    Err(CredentialError::DatabaseError)
                },
            },
        }
    }

    /// Makes one change to the schema.
    pub fn apply(&mut self, action: &SchemaAction)
        ensures
            final(self)@ == apply_action(old(self)@, action@),
    {
        match action {
            SchemaAction::CreateCredentialsTable => {
                if self.credentials.is_none() {
                    let mut columns: Vec<String> = Vec::new();
                    columns.push("id".to_string());
                    columns.push("url".to_string());
                    columns.push("user".to_string());
                    columns.push("device_id_encrypted".to_string());
                    columns.push("device_id_nonce".to_string());
                    assert(names_view(columns@) =~= current_columns());
                    self.credentials = Some(columns);
                }
            },
            SchemaAction::CreateMetadataTable => {
                if self.metadata.is_none() {
                    let rows: Vec<(String, String)> = Vec::new();
                    assert(metadata_view(rows@) =~= Seq::empty());
                    self.metadata = Some(rows);
                }
            },
            SchemaAction::InsertMetadata { key, value } => {
                let taken = self.metadata.take();
                match taken {
                    Some(mut rows) => {
                        let ghost before = metadata_view(rows@);
                        rows.push((key.clone(), value.clone()));
                        assert(metadata_view(rows@) =~= before.push((key@, value@)));
                        self.metadata = Some(rows);
                    },
                    None => {},
                }
            },
            SchemaAction::DropColumn { name } => {
                let taken = self.credentials.take();
                match taken {
                    Some(columns) => {
                        let mut kept: Vec<String> = Vec::new();
                        let mut i: usize = 0;
                        assert(names_view(columns@).take(0).len() == 0);
                        assert(names_view(kept@) =~= columns_without(
                            names_view(columns@).take(0),
                            name@,
                        ));
                        while i < columns.len()
                            invariant
                                i <= columns.len(),
                                names_view(kept@) == columns_without(
                                    names_view(columns@).take(i as int),
                                    name@,
                                ),
                            decreases columns.len() - i,
                        {
                            proof {
                                let all = names_view(columns@);
                                assert(all.take(i + 1).drop_last() =~= all.take(i as int));
                                assert(all.take(i + 1).last() == all[i as int]);
                            }
                            if !str_eq(columns[i].as_str(), name.as_str()) {
                                let ghost before = names_view(kept@);
                                kept.push(columns[i].clone());
                                assert(names_view(kept@) =~= before.push(columns@[i as int]@));
                            }
                            i = i + 1;
                        }
                        assert(names_view(columns@).take(i as int) =~= names_view(columns@));
                        self.credentials = Some(kept);
                    },
                    None => {},
                }
            },
            SchemaAction::AddColumn { name } => {
                let taken = self.credentials.take();
                match taken {
                    Some(mut columns) => {
                        let ghost before = names_view(columns@);
                        columns.push(name.clone());
                        assert(names_view(columns@) =~= before.push(name@));
                        self.credentials = Some(columns);
                    },
                    None => {},
                }
            },
        }
    }

    /// The changes that bring the database to the current version. A
    /// database that is not initialized gets its tables; one at version 0 is
    /// migrated; one at the current version is left alone; any other version
    /// is refused.
    pub fn plan(&self) -> (r: Result<Vec<SchemaAction>, CredentialError>)
        ensures
            match spec_plan(self@) {
                Ok(actions) => r matches Ok(planned) && actions_view(planned@) == actions,
                Err(e) => r matches Err(failure) && failure == e,
            },
    {
        let mut actions: Vec<SchemaAction> = Vec::new();
        assert(actions_view(actions@) =~= Seq::empty());
        if self.metadata.is_none() {
            if self.credentials.is_some() {
                actions.push(SchemaAction::DropColumn { name: "totp_command_encrypted".to_string() });
                actions.push(SchemaAction::DropColumn { name: "totp_nonce".to_string() });
                actions.push(SchemaAction::AddColumn { name: "device_id_encrypted".to_string() });
                actions.push(SchemaAction::AddColumn { name: "device_id_nonce".to_string() });
                push_create_plan(&mut actions);
                assert(actions_view(actions@) =~= migration_plan());
            } else {
                push_create_plan(&mut actions);
                assert(actions_view(actions@) =~= create_plan());
            }
            return Ok(actions);
        }
        match self.get_database_version() {
            Ok(v) => if v == CURRENT_VERSION {
                Ok(actions)
            } else {
                Err(CredentialError::UnsupportedSchemaVersion)
            },
            Err(e) => Err(e),
        }
    }
}

/// A version found among the first rows is the version of all the rows.
pub proof fn lemma_first_version_prefix(rows: Seq<(Seq<char>, Seq<char>)>, n: int)
    requires
        0 <= n <= rows.len(),
        first_version(rows.take(n)) is Some,
    ensures
        first_version(rows) == first_version(rows.take(n)),
    decreases rows.len() - n,
{
    if n < rows.len() {
        assert(rows.take(n + 1).drop_last() =~= rows.take(n));
        lemma_first_version_prefix(rows, n + 1);
    } else {
        assert(rows.take(n) =~= rows);
    }
}

/// Copies a change to the schema.
pub fn clone_action(action: &SchemaAction) -> (r: SchemaAction)
    ensures
        r@ == action@,
{
    match action {
        SchemaAction::CreateCredentialsTable => SchemaAction::CreateCredentialsTable,
        SchemaAction::CreateMetadataTable => SchemaAction::CreateMetadataTable,
        SchemaAction::InsertMetadata { key, value } => SchemaAction::InsertMetadata {
            key: key.clone(),
            value: value.clone(),
        },
        SchemaAction::DropColumn { name } => SchemaAction::DropColumn { name: name.clone() },
        SchemaAction::AddColumn { name } => SchemaAction::AddColumn { name: name.clone() },
    }
}

fn push_create_plan(plan: &mut Vec<SchemaAction>)
    ensures
        actions_view(final(plan)@) == actions_view(old(plan)@) + create_plan(),
{
    plan.push(SchemaAction::CreateCredentialsTable);
    plan.push(SchemaAction::CreateMetadataTable);
    plan.push(SchemaAction::InsertMetadata { key: "version".to_string(), value: "1".to_string() });
    assert(actions_view(plan@) =~= actions_view(old(plan)@) + create_plan());
}

/// The schema after one more change at the end of a list of changes.
pub proof fn lemma_apply_push(schema: SchemaView, actions: Seq<SchemaActionView>, action: SchemaActionView)
    ensures
        apply_actions(schema, actions.push(action)) == apply_action(
            apply_actions(schema, actions),
            action,
        ),
{
    assert(actions.push(action).drop_last() =~= actions);
}

/// Creating the tables in a database that has no `Metadata` yet leaves it
/// with both tables and at the current version.
pub proof fn lemma_create_reaches_current(schema: SchemaView)
    requires
        schema.metadata is None,
    ensures
        spec_version(apply_actions(schema, create_plan())) == Ok::<u32, CredentialError>(
            CURRENT_VERSION,
        ),
        apply_actions(schema, create_plan()).credentials == match schema.credentials {
            Some(columns) => Some(columns),
            None => Some(current_columns()),
        },
{
    let a1 = SchemaActionView::CreateCredentialsTable;
    let a2 = SchemaActionView::CreateMetadataTable;
    let a3 = SchemaActionView::InsertMetadata { key: "version"@, value: "1"@ };
    let nothing = Seq::<SchemaActionView>::empty();
    assert(apply_actions(schema, nothing) == schema);
    lemma_apply_push(schema, nothing, a1);
    lemma_apply_push(schema, nothing.push(a1), a2);
    lemma_apply_push(schema, nothing.push(a1).push(a2), a3);
    assert(create_plan() =~= nothing.push(a1).push(a2).push(a3));
    let done = apply_actions(schema, create_plan());
    let rows = seq![("version"@, "1"@)];
    assert(done.metadata == Some(Seq::<(Seq<char>, Seq<char>)>::empty().push(("version"@, "1"@))));
    assert(done.metadata->0 =~= rows);
    reveal_strlit("1");
    assert("1"@ =~= seq!['1']);
    assert(numeral_value("1"@) == Some(1nat));
    assert(spec_parse_version("1"@) == Some(1u32));
    assert(rows.drop_last() =~= Seq::<(Seq<char>, Seq<char>)>::empty());
    assert(first_version(rows.drop_last()) is None);
    assert(rows.last() == ("version"@, "1"@));
    assert(first_version(rows) == Some(1u32));
}

/// Migrating a database at version 0, one with `Credentials` alone,
/// leaves it at the current version, with the two columns of the
/// one-time-code command gone and the two of the device token added after
/// the columns that stay.
pub proof fn lemma_migration_reaches_current(schema: SchemaView)
    requires
        schema.credentials is Some,
        schema.metadata is None,
    ensures
        spec_version(schema) == Ok::<u32, CredentialError>(0),
        spec_plan(schema) == Ok::<Seq<SchemaActionView>, CredentialError>(migration_plan()),
        spec_version(apply_actions(schema, migration_plan())) == Ok::<u32, CredentialError>(
            CURRENT_VERSION,
        ),
        apply_actions(schema, migration_plan()).credentials == Some(
            columns_without(
                columns_without(schema.credentials->0, "totp_command_encrypted"@),
                "totp_nonce"@,
            ).push("device_id_encrypted"@).push("device_id_nonce"@),
        ),
{
    let a1 = SchemaActionView::DropColumn { name: "totp_command_encrypted"@ };
    let a2 = SchemaActionView::DropColumn { name: "totp_nonce"@ };
    let a3 = SchemaActionView::AddColumn { name: "device_id_encrypted"@ };
    let a4 = SchemaActionView::AddColumn { name: "device_id_nonce"@ };
    let nothing = Seq::<SchemaActionView>::empty();
    let head = nothing.push(a1).push(a2).push(a3).push(a4);
    assert(apply_actions(schema, nothing) == schema);
    lemma_apply_push(schema, nothing, a1);
    lemma_apply_push(schema, nothing.push(a1), a2);
    lemma_apply_push(schema, nothing.push(a1).push(a2), a3);
    lemma_apply_push(schema, nothing.push(a1).push(a2).push(a3), a4);
    let middle = apply_actions(schema, head);
    lemma_apply_concat(schema, head, create_plan());
    assert(migration_plan() =~= head + create_plan());
    lemma_create_reaches_current(middle);
}

/// Making two lists of changes one after the other is making their concatenation.
pub proof fn lemma_apply_concat(
    schema: SchemaView,
    first: Seq<SchemaActionView>,
    second: Seq<SchemaActionView>,
)
    ensures
        apply_actions(schema, first + second) == apply_actions(apply_actions(schema, first), second),
    decreases second.len(),
{
    if second.len() == 0 {
        assert(first + second =~= first);
    } else {
        lemma_apply_concat(schema, first, second.drop_last());
        assert((first + second).drop_last() =~= first + second.drop_last());
        assert((first + second).last() == second.last());
    }
}

/// Whatever version a database is at, once it was brought to the current
/// version it is at the current version, and there is nothing left to do.
pub proof fn lemma_bootstrap_reaches_current(schema: SchemaView)
    requires
        spec_plan(schema) is Ok,
    ensures
        spec_version(apply_actions(schema, spec_plan(schema)->Ok_0)) == Ok::<u32, CredentialError>(
            CURRENT_VERSION,
        ),
        spec_plan(apply_actions(schema, spec_plan(schema)->Ok_0)) == Ok::<
            Seq<SchemaActionView>,
            CredentialError,
        >(Seq::empty()),
{
    if schema.metadata is None {
        if schema.credentials is Some {
            lemma_migration_reaches_current(schema);
        } else {
            lemma_create_reaches_current(schema);
        }
        let done = apply_actions(schema, spec_plan(schema)->Ok_0);
        assert(done.metadata is Some) by {
            if schema.credentials is Some {
                lemma_migration_keeps_tables(schema);
            } else {
                lemma_create_keeps_tables(schema);
            }
        }
    } else {
        assert(apply_actions(schema, Seq::empty()) == schema);
    }
}

/// Creating the tables leaves both tables there.
pub proof fn lemma_create_keeps_tables(schema: SchemaView)
    ensures
        apply_actions(schema, create_plan()).metadata is Some,
        apply_actions(schema, create_plan()).credentials is Some,
{
    let a1 = SchemaActionView::CreateCredentialsTable;
    let a2 = SchemaActionView::CreateMetadataTable;
    let a3 = SchemaActionView::InsertMetadata { key: "version"@, value: "1"@ };
    let nothing = Seq::<SchemaActionView>::empty();
    assert(apply_actions(schema, nothing) == schema);
    lemma_apply_push(schema, nothing, a1);
    lemma_apply_push(schema, nothing.push(a1), a2);
    lemma_apply_push(schema, nothing.push(a1).push(a2), a3);
    assert(create_plan() =~= nothing.push(a1).push(a2).push(a3));
}

/// Migrating leaves both tables there.
pub proof fn lemma_migration_keeps_tables(schema: SchemaView)
    ensures
        apply_actions(schema, migration_plan()).metadata is Some,
        apply_actions(schema, migration_plan()).credentials is Some,
{
    let head = migration_plan().subrange(0, 4);
    assert(migration_plan() =~= head + create_plan());
    lemma_apply_concat(schema, head, create_plan());
    lemma_create_keeps_tables(apply_actions(schema, head));
}

} // verus!
