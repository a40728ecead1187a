//! What of a notification outlives a restart, and what the store is asked to do.

use vstd::prelude::*;

use crate::action::{law_parse_undoes_flatten, parsed_actions};
use crate::json::{
    is_plain, keeps_entries, object_read, stands_for, texts_json, texts_read, value_json,
    value_read, value_restored, ReadView,
};
use crate::lists::{lemma_filter_add, lemma_filter_all, lemma_filter_shorter};
use crate::notification::NotificationView;
use crate::persistence::{
    action_restored, action_stored, actions_restored, actions_stored, hints_among,
    law_hints_are_what_their_entries_say, restored, row_of, source_restored, source_stored,
    stored_of, with_image_path,
};
use crate::persistence::{NotificationRow, RowView, StoredNotification, StoredView};
use crate::source::{GtkDispatchView, SourceView};
use crate::store::{
    action_of, deletion, failure, high_water, is_current, listed_ids, lists_column, load_outcome,
    load_view, loaded, next_stage, operation_of, raised, rank, reports, restored_all, store_in,
};
use crate::store::{
    CREATE_METADATA, CREATE_METADATA_TEXT, CREATE_NOTIFICATIONS, PRAGMAS, Error, ErrorView,
    SetupActionView, SetupReply, SetupStage, StoreOperation, StoreView,
};
use crate::text::decimal;
use crate::time::is_time;
use crate::value::VariantView;

verus! {

/// What is read back from the row of a notification has the notification's own fields:
/// nothing of it is lost, exchanged or made up on the way to the database and back. Its
/// time is kept to the millisecond.
pub proof fn law_a_row_keeps_the_notification(n: NotificationView, hints: Seq<char>)
    requires
        is_time(n.timestamp),
    ensures
        ({
            let row = row_of(stored_of(n), hints);
            let back = restored(row);
            &&& back.id == n.id
            &&& back.app_name == n.app_name
            &&& back.replaces_id == n.replaces_id
            &&& back.app_icon == n.app_icon
            &&& back.summary == n.summary
            &&& back.body == n.body
            &&& back.image_path == n.image_path
            &&& back.expire_timeout == n.expire_timeout
            &&& back.owner == n.owner
            &&& back.timestamp * 1_000_000 <= n.timestamp < (back.timestamp + 1) * 1_000_000
            &&& row.id == n.id
            &&& row.app_name == n.app_name
            &&& row.replaces_id == n.replaces_id
            &&& row.app_icon == n.app_icon
            &&& row.summary == n.summary
            &&& row.body == n.body
            &&& row.image_path == n.image_path
            &&& row.expire_timeout == n.expire_timeout
            &&& row.owner == n.owner
            &&& row.hints == hints
            &&& row.source is Some
        }),
{
}

/// The stored form of a notification has the notification's own fields, its actions as a
/// list from which the same actions are read, and its own hints.
pub proof fn law_the_stored_form_keeps_the_notification(n: NotificationView)
    ensures
        ({
            let stored = stored_of(n);
            &&& stored.id == n.id
            &&& stored.app_name == n.app_name
            &&& stored.replaces_id == n.replaces_id
            &&& stored.app_icon == n.app_icon
            &&& stored.summary == n.summary
            &&& stored.body == n.body
            &&& stored.image_path == n.image_path
            &&& stored.expire_timeout == n.expire_timeout
            &&& stored.owner == n.owner
            &&& stored.source == n.source
            &&& parsed_actions(stored.actions) == n.actions
            &&& n.hints matches Some(hints) ==> stored.hints == hints
            &&& n.hints is None ==> stored.hints == Map::<Seq<char>, VariantView>::empty()
        }),
{
    law_parse_undoes_flatten(n.actions);
}

/// What is read back from a row has the row's own fields.
pub proof fn law_a_row_is_read_as_it_is(row: RowView)
    ensures
        restored(row).id == row.id,
        restored(row).app_name == row.app_name,
        restored(row).replaces_id == row.replaces_id,
        restored(row).app_icon == row.app_icon,
        restored(row).summary == row.summary,
        restored(row).body == row.body,
        restored(row).image_path == row.image_path,
        restored(row).expire_timeout == row.expire_timeout,
        restored(row).timestamp == row.timestamp,
        restored(row).owner == row.owner,
{
}

/// The actions, the hints and the source of a row are what their texts are read as. Actions
/// and hints whose texts cannot be read are none, and the image file of the row stands in
/// for a hint of its own.
pub proof fn law_the_texts_of_a_row_are_read(row: RowView, key: Seq<char>)
    ensures
        texts_read(row.actions) matches Some(actions) ==> restored(row).actions == actions,
        texts_read(row.actions) is None ==> restored(row).actions.len() == 0,
        restored(row).source == source_restored(row.source),
        object_read(row.hints) is None && row.image_path is None ==> restored(row).hints == Map::<
            Seq<char>,
            VariantView,
        >::empty(),
        object_read(row.hints) is None && restored(row).hints.contains_key(key) ==> key
            == "image-path"@,
        object_read(row.hints) matches Some(entries) ==> (row.image_path is None || key
            != "image-path"@ ==> restored(row).hints.contains_key(key) == hints_among(
            entries,
        ).contains_key(key)),
        object_read(row.hints) matches Some(entries) ==> ((row.image_path is None || key
            != "image-path"@) && hints_among(entries).contains_key(key) ==> restored(row).hints[key]
            == hints_among(entries)[key]),
{
}

/// The row of a notification has the texts of the notification's own actions and source.
pub proof fn law_a_row_has_the_texts_of_the_notification(n: NotificationView, hints: Seq<char>)
    ensures
        exists|raw: Seq<Seq<char>>| #[trigger]
            texts_json(raw) == row_of(stored_of(n), hints).actions && parsed_actions(raw)
                == n.actions,
        row_of(stored_of(n), hints).source == Some(source_stored(n.source)),
{
    law_the_stored_form_keeps_the_notification(n);
    assert(texts_json(stored_of(n).actions) == row_of(stored_of(n), hints).actions);
}

/// A GTK source is a GTK source again after it was stored, of the same application and the
/// same notification id. It has a default action exactly if it had one, and the same
/// buttons; every action has its name. An action without a target comes back without one,
/// and a target comes back as what its JSON text is read as.
pub proof fn law_a_stored_source_keeps_its_actions(dispatch: GtkDispatchView, key: Seq<char>)
    ensures
        ({
            let back = source_restored(Some(source_stored(SourceView::Gtk(dispatch))));
            let again = back->Gtk_0;
            &&& back is Gtk
            &&& again.app_id == dispatch.app_id
            &&& again.gtk_id == dispatch.gtk_id
            &&& again.default_action is Some == dispatch.default_action is Some
            &&& dispatch.default_action is Some ==> again.default_action->0.name
                == dispatch.default_action->0.name
            &&& dispatch.default_action is Some && dispatch.default_action->0.target is None
                ==> again.default_action->0.target is None
            &&& dispatch.default_action is Some && dispatch.default_action->0.target is Some
                && value_json(dispatch.default_action->0.target->0) is Some
                ==> again.default_action->0.target == value_restored(
                value_json(dispatch.default_action->0.target->0)->0,
            )
            &&& again.button_actions.contains_key(key) == dispatch.button_actions.contains_key(key)
            &&& dispatch.button_actions.contains_key(key) ==> again.button_actions[key].name
                == dispatch.button_actions[key].name
            &&& dispatch.button_actions.contains_key(key)
                && dispatch.button_actions[key].target is None
                ==> again.button_actions[key].target is None
            &&& dispatch.button_actions.contains_key(key)
                && dispatch.button_actions[key].target is Some && value_json(
                dispatch.button_actions[key].target->0,
            ) is Some ==> again.button_actions[key].target == value_restored(
                value_json(dispatch.button_actions[key].target->0)->0,
            )
        }),
{
    let buttons = dispatch.button_actions;
    let returned = actions_restored(actions_stored(buttons));
    if buttons.contains_key(key) {
        assert(returned[key] == action_restored(action_stored(buttons[key])));
    }
}

/// A freedesktop source is a freedesktop source again after it was stored, and is told from
/// every GTK source by its kind.
pub proof fn law_a_stored_freedesktop_source_comes_back(dispatch: GtkDispatchView)
    ensures
        source_restored(Some(source_stored(SourceView::Freedesktop))) is Freedesktop,
        source_stored(SourceView::Freedesktop).kind != source_stored(
            SourceView::Gtk(dispatch),
        ).kind,
{
    reveal_strlit("fdo");
    reveal_strlit("gtk");
    assert("fdo"@[0] == 'f');
    assert("gtk"@[0] == 'g');
}

/// A source whose actions have no targets is exactly the same after it was stored.
pub proof fn law_a_source_without_targets_is_unchanged(dispatch: GtkDispatchView)
    requires
        dispatch.default_action matches Some(action) ==> action.target is None,
        forall|key: Seq<char>| #[trigger]
            dispatch.button_actions.contains_key(key)
                ==> dispatch.button_actions[key].target is None,
    ensures
        source_restored(Some(source_stored(SourceView::Gtk(dispatch)))) == SourceView::Gtk(
            dispatch,
        ),
{
    let buttons = dispatch.button_actions;
    let returned = actions_restored(actions_stored(buttons));
    assert forall|key: Seq<char>| #[trigger] buttons.contains_key(key) implies returned[key]
        == buttons[key] by {
        assert(returned[key] == action_restored(action_stored(buttons[key])));
    }
    assert(returned =~= buttons);
}

/// A JSON text is read as the text that it stands for, as the byte that it stands for, or
/// else as itself; one with an escape, and one that is no value, is not read.
pub proof fn law_a_value_is_read_by_its_text(json: Seq<char>, text: Seq<char>, byte: u8)
    ensures
        json.contains('\\') ==> value_restored(json) is None,
        value_read(json) is None ==> value_restored(json) is None,
        !json.contains('\\') && value_read(json) == Some(ReadView::Str(text)) ==> value_restored(
            json,
        ) == Some(VariantView::Str(text)),
        !json.contains('\\') && value_read(json) == Some(ReadView::Byte(byte)) ==> value_restored(
            json,
        ) == Some(VariantView::Byte(byte)),
        !json.contains('\\') && value_read(json) == Some(ReadView::Other) ==> value_restored(json)
            == Some(VariantView::Json(json)),
{
}

/// A hint that is a plain text comes back as that text from the entries that the hints were
/// written as, whatever the other hints are.
pub proof fn law_a_plain_hint_comes_back(
    hints: Map<Seq<char>, VariantView>,
    entries: Seq<(Seq<char>, Seq<char>)>,
    key: Seq<char>,
    text: Seq<char>,
)
    requires
        keeps_entries(hints, entries),
        hints.contains_key(key),
        hints[key] == VariantView::Str(text),
        is_plain(text),
    ensures
        hints_among(entries).contains_key(key),
        hints_among(entries)[key] == VariantView::Str(text),
{
    let i = choose|i: int| 0 <= i < entries.len() && (#[trigger] entries[i]).0 == key;
    assert(stands_for(entries[i].1, hints[key]));
    law_hints_are_what_their_entries_say(entries, i, key);
}

/// The image file becomes the `image-path` hint, and no other hint changes.
pub proof fn law_the_image_file_is_one_hint(
    hints: Map<Seq<char>, VariantView>,
    path: Seq<char>,
    key: Seq<char>,
)
    ensures
        with_image_path(hints, None) == hints,
        with_image_path(hints, Some(path)).contains_key("image-path"@),
        with_image_path(hints, Some(path))["image-path"@] == VariantView::Str(path),
        key != "image-path"@ ==> with_image_path(hints, Some(path)).contains_key(key)
            == hints.contains_key(key),
        key != "image-path"@ && hints.contains_key(key) ==> with_image_path(
            hints,
            Some(path),
        )[key] == hints[key],
{
}

/// A stored notification without a timeout is always current. One with a timeout is current
/// exactly as long as its time plus the timeout, both in milliseconds, is later than now.
pub proof fn law_stored_notifications_expire_by_the_clock(
    stored: StoredView,
    now: int,
    timeout: u32,
)
    ensures
        stored.expire_timeout is None ==> is_current(stored, now),
        stored.expire_timeout == Some(timeout) && is_time(stored.timestamp * 1_000_000)
            ==> is_current(stored, now) == ((stored.timestamp + timeout) * 1_000_000 > now),
        stored.expire_timeout is Some && !is_time(stored.timestamp * 1_000_000) ==> !is_current(
            stored,
            now,
        ),
{
}

/// Rows are loaded one by one, in their order: of two parts, what is loaded of the first
/// and then of the second. A row is left out exactly if expired ones are to go and it has
/// expired.
pub proof fn law_rows_are_loaded_one_by_one(
    a: Seq<RowView>,
    b: Seq<RowView>,
    row: RowView,
    remove_expired: bool,
    now: int,
)
    ensures
        loaded(a + b, remove_expired, now) == loaded(a, remove_expired, now) + loaded(
            b,
            remove_expired,
            now,
        ),
        !remove_expired || is_current(restored(row), now) ==> loaded(
            seq![row],
            remove_expired,
            now,
        ) == seq![restored(row)],
        remove_expired && !is_current(restored(row), now) ==> loaded(
            seq![row],
            remove_expired,
            now,
        ).len() == 0,
{
    let pred = |stored: StoredView| is_current(stored, now);
    assert(restored_all(a + b) =~= restored_all(a) + restored_all(b));
    lemma_filter_add(restored_all(a), restored_all(b), pred);
    let one = restored_all(seq![row]);
    assert(one =~= seq![restored(row)]);
    lemma_filter_shorter(one, pred);
    if pred(restored(row)) {
        lemma_filter_all(one, pred);
    } else {
        assert(!pred(one[0]));
    }
}

/// The highest id is what was recorded, and zero before anything was; recording an id gives
/// the higher of the two.
pub proof fn law_high_water_is_what_was_recorded(mark: u32, id: u32)
    ensures
        high_water(None) == 0,
        high_water(Some(mark)) == mark,
        raised(None, id) == id,
        id >= mark ==> raised(Some(mark), id) == id,
        id <= mark ==> raised(Some(mark), id) == mark,
{
}

/// The number that some digits stand for.
pub open spec fn number_of(digits: Seq<char>) -> int
    decreases digits.len(),
{
    if digits.len() == 0 {
        0
    } else {
        number_of(digits.drop_last()) * 10 + (digits.last() as int - '0' as int)
    }
}

/// A number in decimal stands for that number, and begins with no zero unless it is zero.
pub proof fn law_decimal_stands_for_the_number(n: nat)
    ensures
        number_of(decimal(n)) == n,
        decimal(n).len() > 0,
        n > 0 ==> decimal(n)[0] != '0',
    decreases n,
{
    reveal_with_fuel(number_of, 2);
    if n < 10 {
        assert(decimal(n).drop_last() =~= Seq::<char>::empty());
    } else {
        law_decimal_stands_for_the_number(n / 10);
        assert(decimal(n).drop_last() =~= decimal(n / 10));
        assert(decimal(n)[0] == decimal(n / 10)[0]);
    }
}

/// A deletion lists every id that it is given, in order, with a comma between two: of two
/// parts, the list of the first, a comma, and the list of the second; and one id in
/// decimal.
pub proof fn law_a_deletion_lists_every_id(a: Seq<u32>, b: Seq<u32>, id: u32)
    requires
        a.len() > 0,
        b.len() > 0,
    ensures
        listed_ids(seq![id]) == decimal(id as nat),
        listed_ids(a + b) == listed_ids(a) + ","@ + listed_ids(b),
    decreases b.len(),
{
    let whole = a + b;
    assert(whole.drop_last() =~= a + b.drop_last());
    assert(whole.last() == b.last());
    if b.len() == 1 {
        assert(whole.drop_last() =~= a);
        assert(listed_ids(whole) =~= listed_ids(a) + ","@ + listed_ids(b));
    } else {
        law_a_deletion_lists_every_id(a, b.drop_last(), id);
        assert(listed_ids(whole) =~= listed_ids(a) + ","@ + listed_ids(b));
    }
}

/// Nothing is asked of the store to delete no notifications; else one statement without
/// parameters that deletes those whose id is in the list.
pub proof fn law_a_deletion_is_one_statement(ids: Seq<u32>)
    ensures
        ids.len() == 0 ==> deletion(ids) is None,
        ids.len() > 0 ==> deletion(ids) is Some && deletion(ids)->0.params.len() == 0
            && deletion(ids)->0.sql == "DELETE FROM notifications WHERE id IN ("@ + listed_ids(ids)
            + ")"@,
{
}

/// An error says which step failed, and ends with the reason.
pub proof fn law_an_error_gives_the_reason(operation: StoreOperation, detail: Seq<char>)
    ensures
        ({
            let ErrorView::DatabaseError(message) = failure(operation, detail);
            &&& message.len() >= detail.len()
            &&& message.skip(message.len() - detail.len()) == detail
            &&& message.take(operation.spec_message().len() as int) == operation.spec_message()
        }),
{
    let ErrorView::DatabaseError(message) = failure(operation, detail);
    assert(message.skip(message.len() - detail.len()) =~= detail);
    assert(message.take(operation.spec_message().len() as int) =~= operation.spec_message());
}

/// The setup leaves out no step: each is followed by the next one, except that a column is
/// not added when the table has it. It stays at its end.
pub proof fn law_setup_leaves_out_no_step(stage: SetupStage, has_owner: bool, has_source: bool)
    ensures
        ({
            let next = next_stage(stage, has_owner, has_source);
            &&& stage == SetupStage::LookForOwner && has_owner ==> rank(next) == rank(stage) + 2
            &&& stage == SetupStage::LookForSource && has_source ==> rank(next) == rank(stage) + 2
            &&& stage == SetupStage::Ready ==> next == SetupStage::Ready
            &&& stage != SetupStage::Ready && !(stage == SetupStage::LookForOwner && has_owner)
                && !(stage == SetupStage::LookForSource && has_source) ==> rank(next) == rank(
                stage,
            ) + 1
        }),
{
}

/// Two stages of the setup are as far only if they are the same, from the first to the
/// last.
pub proof fn law_stages_are_in_line(a: SetupStage, b: SetupStage)
    ensures
        rank(a) == rank(b) ==> a == b,
        0 <= rank(a) <= 10,
        rank(SetupStage::CreateDirectory) == 0,
        rank(SetupStage::Ready) == 10,
{
}

/// The setup asks for what its stage says: the data directory is created, the database is
/// opened, each column is looked for before it is added, and nothing is left to do exactly
/// at the end.
pub proof fn law_setup_asks_for_its_stage(store: StoreView)
    ensures
        store.stage == SetupStage::CreateDirectory ==> action_of(store)
            == SetupActionView::CreateDirectory(store.data_dir),
        store.stage == SetupStage::Open ==> action_of(store) == SetupActionView::Open(
            store.db_path,
        ),
        (action_of(store) is Nothing) == (store.stage == SetupStage::Ready),
        (action_of(store) is ListColumns) == (store.stage == SetupStage::LookForOwner
            || store.stage == SetupStage::LookForSource),
        store.stage == SetupStage::AddOwner ==> action_of(store) == SetupActionView::Execute(
            "ALTER TABLE notifications ADD COLUMN owner TEXT"@,
        ),
        store.stage == SetupStage::AddSource ==> action_of(store) == SetupActionView::Execute(
            "ALTER TABLE notifications ADD COLUMN source TEXT"@,
        ),
        operation_of(SetupStage::CreateDirectory) == StoreOperation::CreateDirectory,
        operation_of(SetupStage::Open) == StoreOperation::Open,
        operation_of(SetupStage::CreateTable) == StoreOperation::CreateTable,
        operation_of(SetupStage::AddOwner) == StoreOperation::AddOwnerColumn,
        operation_of(SetupStage::AddSource) == StoreOperation::AddSourceColumn,
        operation_of(SetupStage::CreateMetadata) == StoreOperation::CreateMetadata,
        operation_of(SetupStage::CreateMetadataText) == StoreOperation::CreateMetadataText,
        operation_of(SetupStage::SetPragmas) == StoreOperation::SetPragmas,
        operation_of(SetupStage::LookForOwner) == StoreOperation::InspectSchema,
        operation_of(SetupStage::LookForSource) == StoreOperation::InspectSchema,
{
}

/// The database lies in the data directory, which lies below the home directory; its setup
/// begins with the first step.
pub proof fn law_the_database_lies_below_home(home: Seq<char>)
    ensures
        store_in(home).data_dir == home + "/.local/share/wayle"@,
        store_in(home).db_path == store_in(home).data_dir + "/notifications.db"@,
        store_in(home).stage == SetupStage::CreateDirectory,
{
}

/// Loading gives what the rows hold if they could be had, and else an error that says which
/// step failed and why.
pub proof fn law_loading_gives_the_rows_or_the_error(
    reply: Result<Vec<NotificationRow>, (StoreOperation, String)>,
    remove_expired: bool,
    now: int,
)
    ensures
        reply matches Ok(rows) ==> load_outcome(reply, remove_expired, now) == Ok::<
            Seq<StoredView>,
            ErrorView,
        >(loaded(rows.deep_view(), remove_expired, now)),
        reply matches Err((operation, detail)) ==> load_outcome(reply, remove_expired, now) == Err::<
            Seq<StoredView>,
            ErrorView,
        >(failure(operation, detail@)),
{
}

/// What was loaded is told as it is.
pub proof fn law_what_is_loaded_is_told(outcome: Result<Vec<StoredNotification>, Error>)
    ensures
        outcome matches Ok(list) ==> load_view(outcome) == Ok::<Seq<StoredView>, ErrorView>(
            list.deep_view(),
        ),
        outcome matches Err(error) ==> load_view(outcome) == Err::<Seq<StoredView>, ErrorView>(
            error@,
        ),
{
}

/// A statement that failed is never reported as done, nor one that was done as failed; the
/// error is that of the step, with the reason.
pub proof fn law_failures_are_reported(
    operation: StoreOperation,
    reply: Result<(), String>,
    outcome: Result<(), Error>,
)
    requires
        reports(operation, reply, outcome),
    ensures
        outcome is Ok == reply is Ok,
        reply matches Err(detail) ==> outcome->Err_0@ == failure(operation, detail@),
{
}

/// A reply has a column exactly if it lists columns and that one is among them.
pub proof fn law_columns_are_those_listed(columns: Vec<String>, name: Seq<char>, detail: String)
    ensures
        lists_column(SetupReply::Columns(columns), name) == columns.deep_view().contains(name),
        !lists_column(SetupReply::Done, name),
        !lists_column(SetupReply::Failed(detail), name),
        !lists_column(SetupReply::ReadFailed(detail), name),
{
}

/// The tables are created and the pragmas set by their own statements.
pub proof fn law_setup_uses_its_statements(store: StoreView)
    ensures
        store.stage == SetupStage::CreateTable ==> action_of(store) == SetupActionView::Execute(
            CREATE_NOTIFICATIONS@,
        ),
        store.stage == SetupStage::LookForOwner || store.stage == SetupStage::LookForSource
            ==> action_of(store) == SetupActionView::ListColumns(
            "PRAGMA table_info(notifications)"@,
        ),
        store.stage == SetupStage::CreateMetadata ==> action_of(store) == SetupActionView::Execute(
            CREATE_METADATA@,
        ),
        store.stage == SetupStage::CreateMetadataText ==> action_of(store)
            == SetupActionView::Execute(CREATE_METADATA_TEXT@),
        store.stage == SetupStage::SetPragmas ==> action_of(store)
            == SetupActionView::ExecuteBatch(PRAGMAS@),
{
}

/// A row and a stored notification denote what they hold.
pub proof fn law_rows_denote_their_fields(row: NotificationRow, stored: StoredNotification)
    ensures
        row@.id == row.id,
        row@.app_name == row.app_name.deep_view(),
        row@.replaces_id == row.replaces_id,
        row@.app_icon == row.app_icon.deep_view(),
        row@.summary == row.summary@,
        row@.body == row.body.deep_view(),
        row@.actions == row.actions@,
        row@.hints == row.hints@,
        row@.expire_timeout == row.expire_timeout,
        row@.timestamp == row.timestamp,
        row@.image_path == row.image_path.deep_view(),
        row@.owner == row.owner.deep_view(),
        row@.source == row.source.deep_view(),
        stored@.id == stored.id,
        stored@.app_name == stored.app_name.deep_view(),
        stored@.replaces_id == stored.replaces_id,
        stored@.app_icon == stored.app_icon.deep_view(),
        stored@.summary == stored.summary@,
        stored@.body == stored.body.deep_view(),
        stored@.actions == stored.actions.deep_view(),
        stored@.hints == crate::value::hints_view(stored.hints),
        stored@.image_path == stored.image_path.deep_view(),
        stored@.expire_timeout == stored.expire_timeout,
        stored@.timestamp == stored.timestamp,
        stored@.owner == stored.owner.deep_view(),
        stored@.source == stored.source@,
{
}

} // verus!
