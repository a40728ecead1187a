//! The notification store: how the database is set up, what is written to it, and what
//! comes out of it.

use vstd::prelude::*;
use vstd::string::*;

use crate::action::parsed_actions;
use crate::json::{all_basic, keeps_entries, none_read, object_read, values_json};
use crate::lists::lemma_filter_step;
use crate::notification::Notification;
use crate::persistence::{
    drop_image_data, hints_among, hints_are_kept, hints_are_plain, keeps_hints, kept,
    law_image_path_keeps_hints_the_same, law_stored_hints_come_back, law_stored_source_comes_back,
    restored, row_of, same_hints, same_source, source_is_simple, source_survives, stored_of,
    with_image_path, without_image_data,
};
use crate::persistence::{NotificationRow, RowView, StoredNotification, StoredView};
use crate::text::{decimal, join_two, list_has, write_decimal};
use crate::time::{
    can_expire, expiry_nanos, expiry_of, stays_in_range, Timestamp, MAX_MILLIS, MIN_MILLIS,
    NANOS_PER_MILLI,
};
use crate::value::VariantView;

verus! {

/// An error of the notification service.
pub enum Error {
    /// The database could not be used.
    DatabaseError(String),
}

/// What an [`Error`] denotes.
pub enum ErrorView {
    /// The database could not be used.
    DatabaseError(Seq<char>),
}

impl View for Error {
    type V = ErrorView;

    open spec fn view(&self) -> ErrorView {
        match self {
            Error::DatabaseError(message) => ErrorView::DatabaseError(message@),
        }
    }
}

/// A step of the store that can fail.
#[derive(Debug, Clone, Copy, PartialEq, Eq, Structural)]
pub enum StoreOperation {
    /// Creating the data directory.
    CreateDirectory,
    /// Opening the database.
    Open,
    /// Creating the notifications table.
    CreateTable,
    /// Asking for the columns of the notifications table.
    InspectSchema,
    /// Reading the columns of the notifications table.
    ReadSchema,
    /// Adding the `owner` column.
    AddOwnerColumn,
    /// Adding the `source` column.
    AddSourceColumn,
    /// Creating the metadata table.
    CreateMetadata,
    /// Creating the textual metadata table.
    CreateMetadataText,
    /// Setting the pragmas.
    SetPragmas,
    /// Reading the highest id.
    ReadHighWater,
    /// Recording the highest id.
    RecordHighWater,
    /// Reading the bus GUID.
    ReadBusGuid,
    /// Recording the bus GUID.
    RecordBusGuid,
    /// Writing the actions as JSON.
    SerializeActions,
    /// Writing the hints as JSON.
    SerializeHints,
    /// Storing a notification.
    Store,
    /// Removing a notification.
    Remove,
    /// Removing several notifications.
    RemoveMany,
    /// Preparing to load the notifications.
    PrepareLoad,
    /// Asking for the notifications.
    QueryLoad,
    /// Reading the notifications.
    ParseLoad,
}

impl StoreOperation {
    /// What is said when the step fails.
    pub open spec fn spec_message(self) -> Seq<char> {
        match self {
            StoreOperation::CreateDirectory => "cannot create data directory"@,
            StoreOperation::Open => "cannot open database"@,
            StoreOperation::CreateTable => "cannot create table"@,
            StoreOperation::InspectSchema => "cannot inspect schema"@,
            StoreOperation::ReadSchema => "cannot read schema"@,
            StoreOperation::AddOwnerColumn => "cannot add owner column"@,
            StoreOperation::AddSourceColumn => "cannot add source column"@,
            StoreOperation::CreateMetadata => "cannot create metadata table"@,
            StoreOperation::CreateMetadataText => "cannot create metadata_text table"@,
            StoreOperation::SetPragmas => "cannot set pragmas"@,
            StoreOperation::ReadHighWater => "cannot read id high-water"@,
            StoreOperation::RecordHighWater => "cannot record id high-water"@,
            StoreOperation::ReadBusGuid => "cannot read bus guid"@,
            StoreOperation::RecordBusGuid => "cannot record bus guid"@,
            StoreOperation::SerializeActions => "cannot serialize actions"@,
            StoreOperation::SerializeHints => "cannot serialize hints"@,
            StoreOperation::Store => "cannot store notification"@,
            StoreOperation::Remove => "cannot remove notification"@,
            StoreOperation::RemoveMany => "cannot remove notifications"@,
            StoreOperation::PrepareLoad => "cannot prepare query"@,
            StoreOperation::QueryLoad => "cannot query notifications"@,
            StoreOperation::ParseLoad => "cannot parse notifications"@,
        }
    }

    /// What is said when the step fails.
    pub fn message(self) -> (message: &'static str)
        ensures
            message@ == self.spec_message(),
    {
        match self {
            StoreOperation::CreateDirectory => "cannot create data directory",
            StoreOperation::Open => "cannot open database",
            StoreOperation::CreateTable => "cannot create table",
            StoreOperation::InspectSchema => "cannot inspect schema",
            StoreOperation::ReadSchema => "cannot read schema",
            StoreOperation::AddOwnerColumn => "cannot add owner column",
            StoreOperation::AddSourceColumn => "cannot add source column",
            StoreOperation::CreateMetadata => "cannot create metadata table",
            StoreOperation::CreateMetadataText => "cannot create metadata_text table",
            StoreOperation::SetPragmas => "cannot set pragmas",
            StoreOperation::ReadHighWater => "cannot read id high-water",
            StoreOperation::RecordHighWater => "cannot record id high-water",
            StoreOperation::ReadBusGuid => "cannot read bus guid",
            StoreOperation::RecordBusGuid => "cannot record bus guid",
            StoreOperation::SerializeActions => "cannot serialize actions",
            StoreOperation::SerializeHints => "cannot serialize hints",
            StoreOperation::Store => "cannot store notification",
            StoreOperation::Remove => "cannot remove notification",
            StoreOperation::RemoveMany => "cannot remove notifications",
            StoreOperation::PrepareLoad => "cannot prepare query",
            StoreOperation::QueryLoad => "cannot query notifications",
            StoreOperation::ParseLoad => "cannot parse notifications",
        }
    }
}

/// The error of a step that failed: what is said of the step, a colon, and the detail.
pub open spec fn failure(operation: StoreOperation, detail: Seq<char>) -> ErrorView {
    ErrorView::DatabaseError(operation.spec_message() + ": "@ + detail)
}

/// The error of a step that failed.
pub fn database_error(operation: StoreOperation, detail: &str) -> (error: Error)
    ensures
        error@ == failure(operation, detail@),
{
    let mut message = join_two(operation.message(), ": ");
    message.append(detail);
    Error::DatabaseError(message)
}

/// The error of a lock that cannot be had.
pub fn lock_error() -> (error: Error)
    ensures
        error@ == ErrorView::DatabaseError("cannot acquire lock on database"@),
{
    Error::DatabaseError("cannot acquire lock on database".to_owned())
}

/// Whether the outcome of executing a statement is reported as it is.
pub open spec fn reports(
    operation: StoreOperation,
    reply: Result<(), String>,
    outcome: Result<(), Error>,
) -> bool {
    match reply {
        Ok(()) => outcome is Ok,
        Err(detail) => outcome matches Err(error) && error@ == failure(operation, detail@),
    }
}

/// Reports what came of executing a statement.
pub fn report(operation: StoreOperation, reply: Result<(), String>) -> (outcome: Result<(), Error>)
    ensures
        reports(operation, reply, outcome),
{
    match reply {
        Ok(()) => Ok(()),
        Err(detail) => Err(database_error(operation, detail.as_str())),
    }
}

/// Creates the notifications table.
pub const CREATE_NOTIFICATIONS: &'static str = "CREATE TABLE IF NOT EXISTS notifications (
    id INTEGER PRIMARY KEY,
    app_name TEXT,
    replaces_id INTEGER,
    app_icon TEXT,
    summary TEXT NOT NULL,
    body TEXT,
    actions TEXT NOT NULL,
    hints TEXT NOT NULL,
    expire_timeout INTEGER,
    timestamp INTEGER NOT NULL,
    image_path TEXT,
    owner TEXT,
    source TEXT
)";

/// Lists the columns of the notifications table.
pub const LIST_COLUMNS: &'static str = "PRAGMA table_info(notifications)";

/// Adds the `owner` column.
pub const ADD_OWNER: &'static str = "ALTER TABLE notifications ADD COLUMN owner TEXT";

/// Adds the `source` column.
pub const ADD_SOURCE: &'static str = "ALTER TABLE notifications ADD COLUMN source TEXT";

/// Creates the metadata table.
pub const CREATE_METADATA: &'static str = "CREATE TABLE IF NOT EXISTS metadata (
    key TEXT PRIMARY KEY,
    value INTEGER NOT NULL
)";

/// Creates the textual metadata table.
pub const CREATE_METADATA_TEXT: &'static str = "CREATE TABLE IF NOT EXISTS metadata_text (
    key TEXT PRIMARY KEY,
    value TEXT NOT NULL
)";

/// Sets the pragmas.
pub const PRAGMAS: &'static str = "PRAGMA journal_mode = WAL;
PRAGMA synchronous = NORMAL;";

/// Reads the highest id.
pub const READ_HIGH_WATER: &'static str = "SELECT value FROM metadata WHERE key = 'id_high_water'";

/// Records the highest id.
pub const RECORD_HIGH_WATER: &'static str = "INSERT INTO metadata (key, value) VALUES ('id_high_water', ?1)
 ON CONFLICT(key) DO UPDATE SET value = MAX(value, excluded.value)";

/// Reads the bus GUID.
pub const READ_BUS_GUID: &'static str = "SELECT value FROM metadata_text WHERE key = 'bus_guid'";

/// Records the bus GUID.
pub const RECORD_BUS_GUID: &'static str = "INSERT INTO metadata_text (key, value) VALUES ('bus_guid', ?1)
 ON CONFLICT(key) DO UPDATE SET value = excluded.value";

/// Stores a notification, in place of any of the same id.
pub const STORE_NOTIFICATION: &'static str = "INSERT OR REPLACE INTO notifications
 (id, app_name, replaces_id, app_icon, summary, body, actions, hints,
 expire_timeout, timestamp, image_path, owner, source)
 VALUES (?1, ?2, ?3, ?4, ?5, ?6, ?7, ?8, ?9, ?10, ?11, ?12, ?13)";

/// Removes a notification.
pub const REMOVE_NOTIFICATION: &'static str = "DELETE FROM notifications WHERE id = ?1";

/// Loads the notifications, newest first.
pub const LOAD_NOTIFICATIONS: &'static str = "SELECT id, app_name, replaces_id, app_icon, summary, body,
 actions, hints, expire_timeout, timestamp, image_path, owner, source
 FROM notifications
 ORDER BY timestamp DESC";

/// A value bound to a statement.
#[derive(Debug)]
pub enum SqlValue {
    /// A number.
    Number(u32),
    /// A text.
    Text(String),
}

/// What a [`SqlValue`] denotes.
pub enum SqlValueView {
    /// A number.
    Number(u32),
    /// A text.
    Text(Seq<char>),
}

impl View for SqlValue {
    type V = SqlValueView;

    open spec fn view(&self) -> SqlValueView {
        match self {
            SqlValue::Number(number) => SqlValueView::Number(*number),
            SqlValue::Text(text) => SqlValueView::Text(text@),
        }
    }
}

impl DeepView for SqlValue {
    type V = SqlValueView;

    open spec fn deep_view(&self) -> SqlValueView {
        self@
    }
}

/// A statement to be executed.
#[derive(Debug)]
pub struct Statement {
    /// The text of the statement.
    pub sql: String,
    /// The values bound to it, in their order.
    pub params: Vec<SqlValue>,
}

/// What a [`Statement`] denotes.
pub struct StatementView {
    /// The text of the statement.
    pub sql: Seq<char>,
    /// The values bound to it.
    pub params: Seq<SqlValueView>,
}

impl View for Statement {
    type V = StatementView;

    open spec fn view(&self) -> StatementView {
        StatementView { sql: self.sql@, params: self.params.deep_view() }
    }
}

impl DeepView for Statement {
    type V = StatementView;

    open spec fn deep_view(&self) -> StatementView {
        self@
    }
}

fn bind(sql: &str, value: SqlValue) -> (statement: Statement)
    ensures
        statement@ == (StatementView { sql: sql@, params: seq![value@] }),
{
    let mut params: Vec<SqlValue> = Vec::new();
    let ghost bound = value@;
    params.push(value);
    assert(params.deep_view() =~= seq![bound]);
    Statement { sql: sql.to_owned(), params }
}

/// Where the setup of the database stands: the step that comes next.
#[derive(Debug, Clone, Copy, PartialEq, Eq, Structural)]
pub enum SetupStage {
    /// Create the data directory.
    CreateDirectory,
    /// Open the database.
    Open,
    /// Create the notifications table.
    CreateTable,
    /// Look for the `owner` column.
    LookForOwner,
    /// Add the `owner` column.
    AddOwner,
    /// Look for the `source` column.
    LookForSource,
    /// Add the `source` column.
    AddSource,
    /// Create the metadata table.
    CreateMetadata,
    /// Create the textual metadata table.
    CreateMetadataText,
    /// Set the pragmas.
    SetPragmas,
    /// The database can be used.
    Ready,
}

/// What is to be done next to set the database up.
#[derive(Debug)]
pub enum SetupAction {
    /// Create a directory, with its parents.
    CreateDirectory(String),
    /// Open the database in a file.
    Open(String),
    /// Execute a statement.
    Execute(&'static str),
    /// Execute several statements.
    ExecuteBatch(&'static str),
    /// List the columns that a query gives.
    ListColumns(&'static str),
    /// Nothing: the database can be used.
    Nothing,
}

/// What a [`SetupAction`] denotes.
pub enum SetupActionView {
    /// Create a directory, with its parents.
    CreateDirectory(Seq<char>),
    /// Open the database in a file.
    Open(Seq<char>),
    /// Execute a statement.
    Execute(Seq<char>),
    /// Execute several statements.
    ExecuteBatch(Seq<char>),
    /// List the columns that a query gives.
    ListColumns(Seq<char>),
    /// Nothing: the database can be used.
    Nothing,
}

impl View for SetupAction {
    type V = SetupActionView;

    open spec fn view(&self) -> SetupActionView {
        match self {
            SetupAction::CreateDirectory(dir) => SetupActionView::CreateDirectory(dir@),
            SetupAction::Open(path) => SetupActionView::Open(path@),
            SetupAction::Execute(sql) => SetupActionView::Execute(sql@),
            SetupAction::ExecuteBatch(sql) => SetupActionView::ExecuteBatch(sql@),
            SetupAction::ListColumns(sql) => SetupActionView::ListColumns(sql@),
            SetupAction::Nothing => SetupActionView::Nothing,
        }
    }
}

/// What came of a step of the setup.
pub enum SetupReply {
    /// It was done.
    Done,
    /// It was done, and these are the columns.
    Columns(Vec<String>),
    /// It failed.
    Failed(String),
    /// The columns could be asked for but not be read.
    ReadFailed(String),
}

/// Whether a reply has a column.
pub open spec fn lists_column(reply: SetupReply, name: Seq<char>) -> bool {
    reply matches SetupReply::Columns(columns) && columns.deep_view().contains(name)
}

/// The step after a step that was done: a column is added only when the table lacks it.
pub open spec fn next_stage(stage: SetupStage, has_owner: bool, has_source: bool) -> SetupStage {
    match stage {
        SetupStage::CreateDirectory => SetupStage::Open,
        SetupStage::Open => SetupStage::CreateTable,
        SetupStage::CreateTable => SetupStage::LookForOwner,
        SetupStage::LookForOwner => if has_owner {
            SetupStage::LookForSource
        } else {
            SetupStage::AddOwner
        },
        SetupStage::AddOwner => SetupStage::LookForSource,
        SetupStage::LookForSource => if has_source {
            SetupStage::CreateMetadata
        } else {
            SetupStage::AddSource
        },
        SetupStage::AddSource => SetupStage::CreateMetadata,
        SetupStage::CreateMetadata => SetupStage::CreateMetadataText,
        SetupStage::CreateMetadataText => SetupStage::SetPragmas,
        SetupStage::SetPragmas => SetupStage::Ready,
        SetupStage::Ready => SetupStage::Ready,
    }
}

/// The operation that a failed step is reported as.
pub open spec fn operation_of(stage: SetupStage) -> StoreOperation {
    match stage {
        SetupStage::CreateDirectory => StoreOperation::CreateDirectory,
        SetupStage::Open => StoreOperation::Open,
        SetupStage::CreateTable => StoreOperation::CreateTable,
        SetupStage::LookForOwner => StoreOperation::InspectSchema,
        SetupStage::AddOwner => StoreOperation::AddOwnerColumn,
        SetupStage::LookForSource => StoreOperation::InspectSchema,
        SetupStage::AddSource => StoreOperation::AddSourceColumn,
        SetupStage::CreateMetadata => StoreOperation::CreateMetadata,
        SetupStage::CreateMetadataText => StoreOperation::CreateMetadataText,
        SetupStage::SetPragmas => StoreOperation::SetPragmas,
        SetupStage::Ready => StoreOperation::SetPragmas,
    }
}

/// The notification store.
pub struct NotificationStore {
    /// The data directory.
    pub data_dir: String,
    /// The path of the database.
    pub db_path: String,
    /// Where the setup of the database stands.
    pub stage: SetupStage,
}

/// What a [`NotificationStore`] denotes.
pub struct StoreView {
    /// The data directory.
    pub data_dir: Seq<char>,
    /// The path of the database.
    pub db_path: Seq<char>,
    /// Where the setup of the database stands.
    pub stage: SetupStage,
}

impl View for NotificationStore {
    type V = StoreView;

    open spec fn view(&self) -> StoreView {
        StoreView { data_dir: self.data_dir@, db_path: self.db_path@, stage: self.stage }
    }
}

/// The store below a home directory, not yet set up.
pub open spec fn store_in(home: Seq<char>) -> StoreView {
    StoreView {
        data_dir: home + "/.local/share/wayle"@,
        db_path: home + "/.local/share/wayle"@ + "/notifications.db"@,
        stage: SetupStage::CreateDirectory,
    }
}

/// What is to be done next to set a store up.
pub open spec fn action_of(store: StoreView) -> SetupActionView {
    match store.stage {
        SetupStage::CreateDirectory => SetupActionView::CreateDirectory(store.data_dir),
        SetupStage::Open => SetupActionView::Open(store.db_path),
        SetupStage::CreateTable => SetupActionView::Execute(CREATE_NOTIFICATIONS@),
        SetupStage::LookForOwner => SetupActionView::ListColumns(LIST_COLUMNS@),
        SetupStage::AddOwner => SetupActionView::Execute(ADD_OWNER@),
        SetupStage::LookForSource => SetupActionView::ListColumns(LIST_COLUMNS@),
        SetupStage::AddSource => SetupActionView::Execute(ADD_SOURCE@),
        SetupStage::CreateMetadata => SetupActionView::Execute(CREATE_METADATA@),
        SetupStage::CreateMetadataText => SetupActionView::Execute(CREATE_METADATA_TEXT@),
        SetupStage::SetPragmas => SetupActionView::ExecuteBatch(PRAGMAS@),
        SetupStage::Ready => SetupActionView::Nothing,
    }
}

impl NotificationStore {
    /// The store below the home directory, by the value of `HOME`. It is not yet set up,
    /// see [`NotificationStore::next_action`].
    pub fn new(home: Option<String>) -> (store: Result<NotificationStore, Error>)
        ensures
            store is Ok == home is Some,
            store matches Ok(s) ==> s@ == store_in(home->0@),
            store matches Err(error) ==> error@ == ErrorView::DatabaseError(
                "HOME environment variable not set"@,
            ),
    {
        match home {
            Some(home) => {
                let data_dir = join_two(home.as_str(), "/.local/share/wayle");
                let db_path = join_two(data_dir.as_str(), "/notifications.db");
                Ok(NotificationStore { data_dir, db_path, stage: SetupStage::CreateDirectory })
            },
            None => Err(Error::DatabaseError("HOME environment variable not set".to_owned())),
        }
    }

    /// What is to be done next to set the database up.
    pub fn next_action(&self) -> (action: SetupAction)
        ensures
            action@ == action_of(self@),
    {
        match self.stage {
            SetupStage::CreateDirectory => SetupAction::CreateDirectory(self.data_dir.clone()),
            SetupStage::Open => SetupAction::Open(self.db_path.clone()),
            SetupStage::CreateTable => SetupAction::Execute(CREATE_NOTIFICATIONS),
            SetupStage::LookForOwner => SetupAction::ListColumns(LIST_COLUMNS),
            SetupStage::AddOwner => SetupAction::Execute(ADD_OWNER),
            SetupStage::LookForSource => SetupAction::ListColumns(LIST_COLUMNS),
            SetupStage::AddSource => SetupAction::Execute(ADD_SOURCE),
            SetupStage::CreateMetadata => SetupAction::Execute(CREATE_METADATA),
            SetupStage::CreateMetadataText => SetupAction::Execute(CREATE_METADATA_TEXT),
            SetupStage::SetPragmas => SetupAction::ExecuteBatch(PRAGMAS),
            SetupStage::Ready => SetupAction::Nothing,
        }
    }

    /// Takes note of what came of the step that was next. A database that lacks the `owner`
    /// or the `source` column gets it; a step that failed leaves the setup where it stands.
    pub fn proceed(&mut self, reply: SetupReply) -> (outcome: Result<(), Error>)
        ensures
            match reply {
                SetupReply::Failed(detail) => outcome matches Err(error) && error@ == failure(
                    operation_of(old(self).stage),
                    detail@,
                ) && final(self)@ == old(self)@,
                SetupReply::ReadFailed(detail) => outcome matches Err(error) && error@ == failure(
                    StoreOperation::ReadSchema,
                    detail@,
                ) && final(self)@ == old(self)@,
                _ => outcome is Ok && final(self)@ == (StoreView {
                    stage: next_stage(
                        old(self).stage,
                        lists_column(reply, "owner"@),
                        lists_column(reply, "source"@),
                    ),
                    ..old(self)@
                }),
            },
    {
        let columns = match reply {
            SetupReply::Done => Vec::new(),
            SetupReply::Columns(columns) => columns,
            SetupReply::Failed(detail) => {
                let operation = match self.stage {
                    SetupStage::CreateDirectory => StoreOperation::CreateDirectory,
                    SetupStage::Open => StoreOperation::Open,
                    SetupStage::CreateTable => StoreOperation::CreateTable,
                    SetupStage::LookForOwner => StoreOperation::InspectSchema,
                    SetupStage::AddOwner => StoreOperation::AddOwnerColumn,
                    SetupStage::LookForSource => StoreOperation::InspectSchema,
                    SetupStage::AddSource => StoreOperation::AddSourceColumn,
                    SetupStage::CreateMetadata => StoreOperation::CreateMetadata,
                    SetupStage::CreateMetadataText => StoreOperation::CreateMetadataText,
                    SetupStage::SetPragmas => StoreOperation::SetPragmas,
                    SetupStage::Ready => StoreOperation::SetPragmas,
                };
                return Err(database_error(operation, detail.as_str()));
            },
            SetupReply::ReadFailed(detail) => {
                return Err(database_error(StoreOperation::ReadSchema, detail.as_str()));
            },
        };
        let has_owner = list_has(columns.as_slice(), "owner");
        let has_source = list_has(columns.as_slice(), "source");
        self.stage = match self.stage {
            SetupStage::CreateDirectory => SetupStage::Open,
            SetupStage::Open => SetupStage::CreateTable,
            SetupStage::CreateTable => SetupStage::LookForOwner,
            SetupStage::LookForOwner => {
                if has_owner {
                    SetupStage::LookForSource
                } else {
                    SetupStage::AddOwner
                }
            },
            SetupStage::AddOwner => SetupStage::LookForSource,
            SetupStage::LookForSource => {
                if has_source {
                    SetupStage::CreateMetadata
                } else {
                    SetupStage::AddSource
                }
            },
            SetupStage::AddSource => SetupStage::CreateMetadata,
            SetupStage::CreateMetadata => SetupStage::CreateMetadataText,
            SetupStage::CreateMetadataText => SetupStage::SetPragmas,
            SetupStage::SetPragmas => SetupStage::Ready,
            SetupStage::Ready => SetupStage::Ready,
        };
        Ok(())
    }

    /// Highest notification id ever issued; zero when none was recorded.
    ///
    /// Persisted so the id counter can resume above it after a restart instead of
    /// rewinding to the max surviving notification: a rewind reuses ids that long-lived
    /// clients still hold.
    pub fn id_high_water(&self, reply: Result<Option<u32>, String>) -> (value: Result<u32, Error>)
        ensures
            match reply {
                Ok(recorded) => value == Ok::<u32, Error>(high_water(recorded)),
                Err(detail) => value matches Err(error) && error@ == failure(
                    StoreOperation::ReadHighWater,
                    detail@,
                ),
            },
    {
        match reply {
            Ok(Some(recorded)) => Ok(recorded),
            Ok(None) => Ok(0),
            Err(detail) => Err(database_error(StoreOperation::ReadHighWater, detail.as_str())),
        }
    }

    /// The statement that records `id` as issued, by what is recorded: the high-water mark
    /// advances if the id is higher, and never goes back.
    pub fn record_id_high_water(&self, recorded: Option<u32>, id: u32) -> (statement: Statement)
        ensures
            statement@ == (StatementView {
                sql: RECORD_HIGH_WATER@,
                params: seq![SqlValueView::Number(raised(recorded, id))],
            }),
    {
        let value: u32 = match recorded {
            Some(recorded) if recorded > id => recorded,
            _ => id,
        };
        bind(RECORD_HIGH_WATER, SqlValue::Number(value))
    }

    /// The session bus GUID recorded when notifications were last persisted, if any.
    ///
    /// Owner unique names are only meaningful within one session bus lifetime, so a
    /// mismatch means the persisted owners are stale and must not be directed to.
    pub fn bus_guid(&self, reply: Result<Option<String>, String>) -> (guid: Result<
        Option<String>,
        Error,
    >)
        ensures
            match reply {
                Ok(recorded) => guid == Ok::<Option<String>, Error>(recorded),
                Err(detail) => guid matches Err(error) && error@ == failure(
                    StoreOperation::ReadBusGuid,
                    detail@,
                ),
            },
    {
        match reply {
            Ok(recorded) => Ok(recorded),
            Err(detail) => Err(database_error(StoreOperation::ReadBusGuid, detail.as_str())),
        }
    }

    /// The statement that records the current session bus GUID.
    pub fn record_bus_guid(&self, guid: &str) -> (statement: Statement)
        ensures
            statement@ == (StatementView {
                sql: RECORD_BUS_GUID@,
                params: seq![SqlValueView::Text(guid@)],
            }),
    {
        bind(RECORD_BUS_GUID, SqlValue::Text(guid.to_owned()))
    }

    /// The row to be written for a notification, in place of any row of its id. Raw image
    /// data is left out of its hints.
    ///
    /// All that is persisted of the notification but its hints and its source is read back
    /// from the row as it was. The same source is read back if it survives being stored.
    /// Hints that are kept in an object are read back as the same values, unless the image
    /// file takes their place; if all hints are kept, the same hints are read back. This is
    /// so whenever the text of the hints can be read, as it can where no hint was itself
    /// read from a JSON text. A notification whose hints are plain texts and whose actions
    /// are simple is always stored, and all of it is read back as it was.
    pub fn add(&self, notification: &Notification) -> (row: Result<NotificationRow, Error>)
        ensures
            match values_json(without_image_data(stored_of(notification@).hints)) {
                Ok(hints) => row matches Ok(r) && r@ == row_of(stored_of(notification@), hints),
                Err(detail) => row matches Err(error) && error@ == failure(
                    StoreOperation::SerializeHints,
                    detail,
                ),
            },
            row matches Ok(r) ==> restored(r@) == (StoredView {
                hints: restored(r@).hints,
                source: restored(r@).source,
                ..stored_of(notification@)
            }),
            row matches Ok(r) ==> (same_source(restored(r@).source, notification@.source)
                <==> source_survives(notification@.source)),
            row matches Ok(r) ==> source_is_simple(notification@.source) ==> restored(r@).source
                == notification@.source,
            row matches Ok(r) ==> {
                let back = restored(r@);
                &&& back.id == notification@.id
                &&& back.app_name == notification@.app_name
                &&& back.replaces_id == notification@.replaces_id
                &&& back.app_icon == notification@.app_icon
                &&& back.summary == notification@.summary
                &&& back.body == notification@.body
                &&& back.image_path == notification@.image_path
                &&& back.expire_timeout == notification@.expire_timeout
                &&& back.owner == notification@.owner
                &&& parsed_actions(back.actions) == notification@.actions
                &&& back.timestamp * 1_000_000 <= notification@.timestamp < (back.timestamp + 1)
                    * 1_000_000
            },
            row matches Ok(r) ==> {
                &&& r.id == notification.id
                &&& r.app_name.deep_view() == notification.app_name.deep_view()
                &&& r.replaces_id == notification.replaces_id
                &&& r.app_icon.deep_view() == notification.app_icon.deep_view()
                &&& r.summary@ == notification.summary@
                &&& r.body.deep_view() == notification.body.deep_view()
                &&& r.image_path.deep_view() == notification.image_path.deep_view()
                &&& r.expire_timeout == notification.expire_timeout
                &&& r.owner.deep_view() == notification.owner.deep_view()
                &&& r.source is Some
            },
            all_basic(without_image_data(stored_of(notification@).hints)) ==> row is Ok,
            row matches Ok(r) ==> none_read(without_image_data(stored_of(notification@).hints))
                ==> object_read(r@.hints) is Some,
            row matches Ok(r) ==> object_read(r@.hints) is Some ==> hints_come_back(
                without_image_data(stored_of(notification@).hints),
                notification@.image_path,
                restored(r@).hints,
            ),
            hints_are_plain(without_image_data(stored_of(notification@).hints))
                && source_is_simple(notification@.source) ==> (row matches Ok(r) && restored(r@)
                == kept(stored_of(notification@))),
    {
        let mut stored = StoredNotification::from(notification);
        let actions = match crate::json::texts_to_json(&stored.actions) {
            Ok(actions) => actions,
            Err(detail) => {
                return Err(database_error(StoreOperation::SerializeActions, detail.as_str()));
            },
        };
        drop_image_data(&mut stored.hints);
        let hints = match crate::json::values_to_json(stored.hints.entries()) {
            Ok(hints) => hints,
            Err(detail) => {
                return Err(database_error(StoreOperation::SerializeHints, detail.as_str()));
            },
        };
        let source = crate::persistence::serialize_source(&stored.source);
        proof {
            law_stored_source_comes_back(notification@.source);
            let persisted = without_image_data(stored_of(notification@).hints);
            if object_read(hints@) is Some {
                lemma_hints_come_back(
                    persisted,
                    object_read(hints@)->0,
                    notification@.image_path,
                );
            }
        }
        Ok(
            NotificationRow {
                id: stored.id,
                app_name: stored.app_name,
                replaces_id: stored.replaces_id,
                app_icon: stored.app_icon,
                summary: stored.summary,
                body: stored.body,
                actions,
                hints,
                expire_timeout: stored.expire_timeout,
                timestamp: stored.timestamp,
                image_path: stored.image_path,
                owner: stored.owner,
                source: Some(source),
            },
        )
    }

    /// The statement that removes a notification.
    pub fn remove(&self, id: u32) -> (statement: Statement)
        ensures
            statement@ == (StatementView {
                sql: REMOVE_NOTIFICATION@,
                params: seq![SqlValueView::Number(id)],
            }),
    {
        bind(REMOVE_NOTIFICATION, SqlValue::Number(id))
    }

    /// The statement that removes several notifications in a single atomic `DELETE` rather
    /// than one statement per id; none when there is nothing to remove. The ids are
    /// numbers, so inlining them in the `IN` clause is injection-safe.
    pub fn remove_many(&self, ids: &[u32]) -> (statement: Option<Statement>)
        ensures
            statement.deep_view() == deletion(ids@),
    {
        if ids.len() == 0 {
            return None;
        }
        let mut sql = "DELETE FROM notifications WHERE id IN (".to_owned();
        let listed = list_ids(ids);
        sql.append(listed.as_str());
        sql.append(")");
        let params: Vec<SqlValue> = Vec::new();
        assert(params.deep_view() =~= seq![]);
        Some(Statement { sql, params })
    }
}

/// Whether hints come back, with the image file among them: those that are kept as the same
/// values, plain texts unchanged, and no others; the same hints if all are kept.
pub open spec fn hints_come_back(
    hints: Map<Seq<char>, VariantView>,
    image_path: Option<Seq<char>>,
    back: Map<Seq<char>, VariantView>,
) -> bool {
    &&& image_path is None ==> keeps_hints(hints, back)
    &&& image_path is Some ==> keeps_hints(hints.remove("image-path"@), back)
    &&& back.dom().subset_of(with_image_path(hints, image_path).dom())
    &&& hints_are_kept(hints) ==> same_hints(back, with_image_path(hints, image_path))
}

proof fn lemma_hints_come_back(
    hints: Map<Seq<char>, VariantView>,
    entries: Seq<(Seq<char>, Seq<char>)>,
    image_path: Option<Seq<char>>,
)
    requires
        keeps_entries(hints, entries),
    ensures
        hints_come_back(hints, image_path, with_image_path(hints_among(entries), image_path)),
        hints_are_plain(hints) ==> hints_among(entries) == hints,
{
    law_stored_hints_come_back(hints, entries);
    let read = hints_among(entries);
    let back = with_image_path(read, image_path);
    if image_path is Some {
        let rest = hints.remove("image-path"@);
        assert forall|key: Seq<char>| #[trigger] rest.contains_key(key) implies back[key]
            == read[key] && (back.contains_key(key) == read.contains_key(key)) && rest[key]
            == hints[key] && hints.contains_key(key) by {}
        assert(keeps_hints(rest, back));
    }
    if hints_are_kept(hints) {
        law_image_path_keeps_hints_the_same(read, hints, image_path);
    }
}

/// The highest id, by what was recorded.
pub open spec fn high_water(recorded: Option<u32>) -> u32 {
    match recorded {
        Some(recorded) => recorded,
        None => 0,
    }
}

/// What is recorded after an id was issued.
pub open spec fn raised(recorded: Option<u32>, id: u32) -> u32 {
    if high_water(recorded) > id {
        high_water(recorded)
    } else {
        id
    }
}

/// Numbers in decimal, separated by commas.
pub open spec fn listed_ids(ids: Seq<u32>) -> Seq<char>
    decreases ids.len(),
{
    if ids.len() == 0 {
        seq![]
    } else if ids.len() == 1 {
        decimal(ids[0] as nat)
    } else {
        listed_ids(ids.drop_last()) + ","@ + decimal(ids.last() as nat)
    }
}

/// The statement that removes some notifications.
pub open spec fn deletion(ids: Seq<u32>) -> Option<StatementView> {
    if ids.len() == 0 {
        None
    } else {
        Some(
            StatementView {
                sql: "DELETE FROM notifications WHERE id IN ("@ + listed_ids(ids) + ")"@,
                params: seq![],
            },
        )
    }
}

fn list_ids(ids: &[u32]) -> (text: String)
    requires
        ids@.len() > 0,
    ensures
        text@ == listed_ids(ids@),
{
    let mut text = write_decimal(ids[0] as u64);
    let mut i: usize = 1;
    assert(ids@.take(1) =~= seq![ids@[0]]);
    while i < ids.len()
        invariant
            1 <= i <= ids@.len(),
            text@ == listed_ids(ids@.take(i as int)),
        decreases ids@.len() - i,
    {
        let next = write_decimal(ids[i] as u64);
        text.append(",");
        text.append(next.as_str());
        proof {
            let more = ids@.take(i + 1);
            assert(more.drop_last() =~= ids@.take(i as int));
            assert(more.last() == ids@[i as int]);
        }
        i += 1;
    }
    assert(ids@.take(ids@.len() as int) =~= ids@);
    text
}

/// What is read back from some rows.
pub open spec fn restored_all(rows: Seq<RowView>) -> Seq<StoredView> {
    rows.map_values(|row: RowView| restored(row))
}

/// Whether the timeout of a stored notification, if it has one, begins at a date and ends
/// at one.
pub open spec fn can_judge(timeout: Option<u32>, timestamp: i64) -> bool {
    timeout is Some && MIN_MILLIS <= timestamp <= MAX_MILLIS ==> can_expire(
        timestamp * NANOS_PER_MILLI,
        timeout->0,
    )
}

/// Whether a stored notification has not expired: it has no timeout, or its timeout ends
/// later. One whose time is not a date has expired.
pub open spec fn is_current(stored: StoredView, now: int) -> bool {
    match stored.expire_timeout {
        Some(timeout) => MIN_MILLIS <= stored.timestamp <= MAX_MILLIS && expiry_of(
            stored.timestamp * NANOS_PER_MILLI,
            timeout,
        ) > now,
        None => true,
    }
}

/// The notifications that are loaded from some rows.
pub open spec fn loaded(rows: Seq<RowView>, remove_expired: bool, now: int) -> Seq<StoredView> {
    if remove_expired {
        restored_all(rows).filter(|stored: StoredView| is_current(stored, now))
    } else {
        restored_all(rows)
    }
}

/// What comes of loading the notifications.
pub open spec fn load_outcome(
    reply: Result<Vec<NotificationRow>, (StoreOperation, String)>,
    remove_expired: bool,
    now: int,
) -> Result<Seq<StoredView>, ErrorView> {
    match reply {
        Ok(rows) => Ok(loaded(rows.deep_view(), remove_expired, now)),
        Err((operation, detail)) => Err(failure(operation, detail@)),
    }
}

/// What a list of stored notifications, or an error, denotes.
pub open spec fn load_view(outcome: Result<Vec<StoredNotification>, Error>) -> Result<
    Seq<StoredView>,
    ErrorView,
> {
    match outcome {
        Ok(list) => Ok(list.deep_view()),
        Err(error) => Err(error@),
    }
}

/// Whether the timeouts of some rows can all be judged.
pub open spec fn rows_fit(
    reply: Result<Vec<NotificationRow>, (StoreOperation, String)>,
    remove_expired: bool,
) -> bool {
    remove_expired ==> (reply matches Ok(rows) ==> forall|i: int|
        0 <= i < rows@.len() ==> can_judge(
            (#[trigger] rows@[i]).expire_timeout,
            rows@[i].timestamp,
        ))
}

/// Whether the timeout of a row can be judged.
pub fn row_fits(row: &NotificationRow) -> (fits: bool)
    ensures
        fits == can_judge(row.expire_timeout, row.timestamp),
{
    match (row.expire_timeout, Timestamp::from_timestamp_millis(row.timestamp)) {
        (Some(timeout), Some(time)) => stays_in_range(time, timeout),
        _ => true,
    }
}

fn still_current(stored: &StoredNotification, now: Timestamp) -> (current: bool)
    requires
        can_judge(stored.expire_timeout, stored.timestamp),
    ensures
        current == is_current(stored@, now@),
{
    let timeout = match stored.expire_timeout {
        Some(timeout) => timeout,
        None => {
            return true;
        },
    };
    match Timestamp::from_timestamp_millis(stored.timestamp) {
        Some(time) => expiry_nanos(time, timeout) > now.nanos(),
        None => false,
    }
}

impl NotificationStore {
    /// The notifications in some rows, at a given time. Their order is kept.
    pub fn load_all_at(
        &self,
        reply: Result<Vec<NotificationRow>, (StoreOperation, String)>,
        remove_expired: bool,
        now: Timestamp,
    ) -> (outcome: Result<Vec<StoredNotification>, Error>)
        requires
            rows_fit(reply, remove_expired),
        ensures
            load_view(outcome) == load_outcome(reply, remove_expired, now@),
    {
        let rows = match reply {
            Ok(rows) => rows,
            Err((operation, detail)) => {
                return Err(database_error(operation, detail.as_str()));
            },
        };
        let ghost all = restored_all(rows.deep_view());
        let ghost pred = |stored: StoredView| is_current(stored, now@);
        let mut list: Vec<StoredNotification> = Vec::new();
        assert(list.deep_view() =~= all.take(0));
        assert(all.take(0).filter(pred) =~= seq![]) by {
            reveal(Seq::filter);
        }
        for row in it: rows.into_iter()
            invariant
                it.seq() == rows@,
                all == restored_all(rows.deep_view()),
                pred == (|stored: StoredView| is_current(stored, now@)),
                remove_expired ==> forall|i: int|
                    0 <= i < rows@.len() ==> can_judge(
                        (#[trigger] rows@[i]).expire_timeout,
                        rows@[i].timestamp,
                    ),
                list.deep_view() == (if remove_expired {
                    all.take(it.index()).filter(pred)
                } else {
                    all.take(it.index())
                }),
        {
            let ghost before = list.deep_view();
            proof {
                assert(row == rows@[it.index()]);
                assert(all[it.index()] == restored(row@));
                lemma_filter_step(all, it.index(), pred);
                assert(all.take(it.index() + 1) =~= all.take(it.index()).push(restored(row@)));
            }
            let stored = StoredNotification::from_row(row);
            let ghost kept = stored@;
            if !remove_expired || still_current(&stored, now) {
                list.push(stored);
                assert(list.deep_view() =~= before.push(kept));
            }
        }
        assert(all.take(all.len() as int) =~= all);
        Ok(list)
    }

    /// The notifications in some rows, at the current time.
    pub fn load_all(
        &self,
        reply: Result<Vec<NotificationRow>, (StoreOperation, String)>,
        remove_expired: bool,
    ) -> (outcome: Result<Vec<StoredNotification>, Error>)
        requires
            rows_fit(reply, remove_expired),
        ensures
            exists|now: int|
                #![trigger load_outcome(reply, remove_expired, now)]
                crate::time::is_time(now) && load_view(outcome) == load_outcome(
                    reply,
                    remove_expired,
                    now,
                ),
    {
        let now = Timestamp::now();
        self.load_all_at(reply, remove_expired, now)
    }
}

/// The recorded mark never goes back, covers every id that was issued, and does not depend
/// on the order in which ids are recorded.
pub proof fn law_high_water_never_rewinds(recorded: Option<u32>, first: u32, second: u32)
    ensures
        raised(recorded, first) >= high_water(recorded),
        raised(recorded, first) >= first,
        raised(recorded, first) == high_water(recorded) || raised(recorded, first) == first,
        raised(Some(raised(recorded, first)), second) == raised(
            Some(raised(recorded, second)),
            first,
        ),
        raised(Some(raised(recorded, first)), first) == raised(recorded, first),
{
}

/// What is recorded after some ids were issued, one after the other.
pub open spec fn recorded_after(recorded: Option<u32>, ids: Seq<u32>) -> Option<u32>
    decreases ids.len(),
{
    if ids.len() == 0 {
        recorded
    } else {
        Some(raised(recorded_after(recorded, ids.drop_last()), ids.last()))
    }
}

/// The recorded mark is the maximum of what was recorded before and of all ids that were
/// issued since, in whatever order they came.
pub proof fn law_high_water_is_the_maximum(recorded: Option<u32>, ids: Seq<u32>)
    ensures
        high_water(recorded_after(recorded, ids)) >= high_water(recorded),
        forall|i: int|
            0 <= i < ids.len() ==> high_water(recorded_after(recorded, ids)) >= #[trigger] ids[i],
        high_water(recorded_after(recorded, ids)) == high_water(recorded) || ids.contains(
            high_water(recorded_after(recorded, ids)),
        ),
    decreases ids.len(),
{
    if ids.len() > 0 {
        let front = ids.drop_last();
        law_high_water_is_the_maximum(recorded, front);
        let before = high_water(recorded_after(recorded, front));
        assert forall|i: int| 0 <= i < ids.len() implies high_water(recorded_after(recorded, ids))
            >= #[trigger] ids[i] by {
            if i < front.len() {
                assert(front[i] == ids[i]);
            }
        }
        if front.contains(before) {
            let i = choose|i: int| 0 <= i < front.len() && front[i] == before;
            assert(ids[i] == before);
        }
        assert(ids[ids.len() - 1] == ids.last());
    }
}

/// Between the brackets of a deletion stand digits and commas alone: nothing that is not
/// part of a number can get into the statement.
pub proof fn law_deletion_lists_only_numbers(ids: Seq<u32>)
    ensures
        forall|i: int|
            0 <= i < listed_ids(ids).len() ==> '0' <= #[trigger] listed_ids(ids)[i] <= '9'
                || listed_ids(ids)[i] == ',',
        ids.len() > 0 ==> listed_ids(ids).len() > 0,
    decreases ids.len(),
{
    reveal_strlit(",");
    if ids.len() == 1 {
        crate::text::lemma_decimal_is_digits(ids[0] as nat);
    } else if ids.len() > 1 {
        law_deletion_lists_only_numbers(ids.drop_last());
        crate::text::lemma_decimal_is_digits(ids.last() as nat);
        let front = listed_ids(ids.drop_last());
        let last = decimal(ids.last() as nat);
        let whole = listed_ids(ids);
        assert forall|i: int| 0 <= i < whole.len() implies '0' <= #[trigger] whole[i] <= '9'
            || whole[i] == ',' by {
            if i < front.len() {
                assert(whole[i] == front[i]);
            } else if i > front.len() {
                assert(whole[i] == last[i - front.len() - 1]);
            } else {
                assert(whole[i] == ","@[0]);
            }
        }
    }
}

/// Loading never invents, changes or reorders a notification: without expiry every row is
/// loaded, with expiry only rows that have expired are left out, and a row without a
/// timeout never is.
pub proof fn law_loading_only_drops_expired(rows: Seq<RowView>, now: int, i: int)
    requires
        0 <= i < rows.len(),
    ensures
        loaded(rows, false, now) == restored_all(rows),
        loaded(rows, true, now).contains(restored(rows[i])) || !is_current(
            restored(rows[i]),
            now,
        ),
        rows[i].expire_timeout is None ==> loaded(rows, true, now).contains(restored(rows[i])),
        forall|j: int|
            0 <= j < loaded(rows, true, now).len() ==> is_current(
                #[trigger] loaded(rows, true, now)[j],
                now,
            ) && restored_all(rows).contains(loaded(rows, true, now)[j]),
{
    let all = restored_all(rows);
    crate::lists::lemma_filter_members(all, |stored: StoredView| is_current(stored, now));
    assert(all[i] == restored(rows[i]));
}

/// A stored notification is loaded exactly once, as it is read back from its row, when no
/// two rows share an id.
pub proof fn law_stored_row_is_loaded_once(rows: Seq<RowView>, now: int, at: int)
    requires
        0 <= at < rows.len(),
        forall|i: int, j: int|
            0 <= i < j < rows.len() ==> (#[trigger] rows[i]).id != (#[trigger] rows[j]).id,
    ensures
        loaded(rows, false, now).len() == rows.len(),
        loaded(rows, false, now)[at] == restored(rows[at]),
        forall|i: int|
            0 <= i < rows.len() && (#[trigger] loaded(rows, false, now)[i]).id == rows[at].id ==> i
                == at,
{
    assert forall|i: int|
        0 <= i < rows.len() && (#[trigger] loaded(rows, false, now)[i]).id == rows[at].id implies i
        == at by {
        assert(loaded(rows, false, now)[i] == restored(rows[i]));
        if i < at {
            assert(rows[i].id != rows[at].id);
        } else if at < i {
            assert(rows[at].id != rows[i].id);
        }
    }
}

/// How far the setup has come.
pub open spec fn rank(stage: SetupStage) -> int {
    match stage {
        SetupStage::CreateDirectory => 0,
        SetupStage::Open => 1,
        SetupStage::CreateTable => 2,
        SetupStage::LookForOwner => 3,
        SetupStage::AddOwner => 4,
        SetupStage::LookForSource => 5,
        SetupStage::AddSource => 6,
        SetupStage::CreateMetadata => 7,
        SetupStage::CreateMetadataText => 8,
        SetupStage::SetPragmas => 9,
        SetupStage::Ready => 10,
    }
}

/// The columns of the notifications table, as it is created.
pub open spec fn created_columns() -> Set<Seq<char>> {
    set![
        "id"@,
        "app_name"@,
        "replaces_id"@,
        "app_icon"@,
        "summary"@,
        "body"@,
        "actions"@,
        "hints"@,
        "expire_timeout"@,
        "timestamp"@,
        "image_path"@,
        "owner"@,
        "source"@,
    ]
}

/// The columns of the table after the step that is next. A table that is there already is
/// not created again.
pub open spec fn columns_after(stage: SetupStage, table: Option<Set<Seq<char>>>) -> Option<
    Set<Seq<char>>,
> {
    match (stage, table) {
        (SetupStage::CreateTable, None) => Some(created_columns()),
        (SetupStage::AddOwner, Some(columns)) => Some(columns.insert("owner"@)),
        (SetupStage::AddSource, Some(columns)) => Some(columns.insert("source"@)),
        _ => table,
    }
}

/// Whether the table has a column.
pub open spec fn has_column(table: Option<Set<Seq<char>>>, name: Seq<char>) -> bool {
    table matches Some(columns) && columns.contains(name)
}

/// The columns of the table after the setup has run to its end from a step on, where every
/// step succeeds and the listed columns are those of the table.
pub open spec fn columns_when_ready(stage: SetupStage, table: Option<Set<Seq<char>>>) -> Option<
    Set<Seq<char>>,
>
    decreases 10 - rank(stage),
{
    if stage == SetupStage::Ready {
        table
    } else {
        columns_when_ready(
            next_stage(stage, has_column(table, "owner"@), has_column(table, "source"@)),
            columns_after(stage, table),
        )
    }
}

/// Every step brings the setup closer to its end, and a column is added only when the
/// table lacks it.
pub proof fn law_setup_makes_progress(stage: SetupStage, table: Option<Set<Seq<char>>>)
    ensures
        ({
            let next = next_stage(
                stage,
                has_column(table, "owner"@),
                has_column(table, "source"@),
            );
            &&& stage != SetupStage::Ready ==> rank(next) > rank(stage)
            &&& next == SetupStage::AddOwner ==> !has_column(table, "owner"@)
            &&& next == SetupStage::AddSource ==> !has_column(table, "source"@)
        }),
{
}

/// Whatever the database was before, it has the `owner` and the `source` column after the
/// setup, and keeps every column it had; a database that was set up once is not changed by
/// setting it up again.
pub proof fn law_setup_completes_the_schema(table: Option<Set<Seq<char>>>)
    ensures
        ({
            let ready = columns_when_ready(SetupStage::CreateDirectory, table);
            &&& has_column(ready, "owner"@)
            &&& has_column(ready, "source"@)
            &&& table matches Some(columns) ==> columns.subset_of(ready->0)
            &&& columns_when_ready(SetupStage::CreateDirectory, ready) == ready
        }),
{
    lemma_schema_when_ready(table);
    let ready = columns_when_ready(SetupStage::CreateDirectory, table);
    lemma_schema_when_ready(ready);
}

proof fn lemma_schema_when_ready(table: Option<Set<Seq<char>>>)
    ensures
        ({
            let base = match table {
                Some(columns) => columns,
                None => created_columns(),
            };
            columns_when_ready(SetupStage::CreateDirectory, table) == Some(
                base.insert("owner"@).insert("source"@),
            )
        }),
{
    reveal_with_fuel(columns_when_ready, 12);
    reveal_strlit("owner");
    reveal_strlit("source");
    assert("owner"@.len() == 5);
    assert("source"@.len() == 6);
    let base = match table {
        Some(columns) => columns,
        None => created_columns(),
    };
    if base.contains("owner"@) {
        assert(base.insert("owner"@) =~= base);
    }
    if base.contains("source"@) {
        assert(base.insert("owner"@).insert("source"@) =~= base.insert("owner"@));
    }
}

} // verus!
