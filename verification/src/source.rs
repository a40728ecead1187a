//! Where a notification came from, and what its actions are dispatched to.

use vstd::prelude::*;

use crate::assoc::AssocMap;
use crate::value::{Variant, VariantView};

verus! {

/// Where a notification came from, and how its actions are dispatched.
///
/// Each origin carries the name its actions dispatch to, so "strip actions when that
/// target is unreachable" is one rule.
pub enum NotificationSource {
    /// `org.freedesktop.Notifications`. Actions are dispatched via a directed
    /// `ActionInvoked` signal to the owning connection.
    Freedesktop,
    /// `org.gtk.Notifications`. Actions are dispatched via
    /// `org.freedesktop.Application.ActivateAction`/`Activate`, which cold-launches the
    /// app via D-Bus activation when it is not running.
    Gtk(GtkDispatch),
}

/// Everything needed to dispatch a GTK notification's actions to the owning app.
pub struct GtkDispatch {
    /// The GApplication id (well-known bus name), e.g. `org.gnome.Calendar`.
    pub app_id: String,
    /// The app-chosen notification id (the replace/withdraw key).
    pub gtk_id: String,
    /// The `default-action` (body click). `None` means a body click calls `Activate`.
    pub default_action: Option<GtkAction>,
    /// Button actions, keyed by the `"app."`-prefixed name exposed as the `Action.id`.
    pub button_actions: AssocMap<String, GtkAction>,
}

/// A single GTK action target: the action name (with the `"app."` prefix stripped, as
/// `org.freedesktop.Application.ActivateAction` expects) plus its optional parameter.
pub struct GtkAction {
    /// Action name with the `"app."` prefix already stripped.
    pub name: String,
    /// Optional parameter for the action.
    pub target: Option<Variant>,
}

/// What a [`GtkAction`] denotes.
pub struct GtkActionView {
    /// The action name.
    pub name: Seq<char>,
    /// The parameter.
    pub target: Option<VariantView>,
}

/// What a [`GtkDispatch`] denotes.
pub struct GtkDispatchView {
    /// The application id.
    pub app_id: Seq<char>,
    /// The notification id.
    pub gtk_id: Seq<char>,
    /// The default action.
    pub default_action: Option<GtkActionView>,
    /// The button actions.
    pub button_actions: Map<Seq<char>, GtkActionView>,
}

/// What a [`NotificationSource`] denotes.
pub enum SourceView {
    /// The freedesktop protocol.
    Freedesktop,
    /// The GTK protocol.
    Gtk(GtkDispatchView),
}

impl View for GtkAction {
    type V = GtkActionView;

    open spec fn view(&self) -> GtkActionView {
        GtkActionView { name: self.name@, target: self.target.deep_view() }
    }
}

impl DeepView for GtkAction {
    type V = GtkActionView;

    open spec fn deep_view(&self) -> GtkActionView {
        self@
    }
}

/// What a map of actions denotes.
pub open spec fn gtk_actions_view(map: Map<Seq<char>, GtkAction>) -> Map<Seq<char>, GtkActionView> {
    map.map_values(|action: GtkAction| action@)
}

impl View for GtkDispatch {
    type V = GtkDispatchView;

    open spec fn view(&self) -> GtkDispatchView {
        GtkDispatchView {
            app_id: self.app_id@,
            gtk_id: self.gtk_id@,
            default_action: self.default_action.deep_view(),
            button_actions: gtk_actions_view(self.button_actions@),
        }
    }
}

impl View for NotificationSource {
    type V = SourceView;

    open spec fn view(&self) -> SourceView {
        match self {
            NotificationSource::Freedesktop => SourceView::Freedesktop,
            NotificationSource::Gtk(dispatch) => SourceView::Gtk(dispatch@),
        }
    }
}

impl DeepView for NotificationSource {
    type V = SourceView;

    open spec fn deep_view(&self) -> SourceView {
        self@
    }
}

impl Clone for GtkAction {
    fn clone(&self) -> (copy: Self)
        ensures
            copy@ == self@,
    {
        GtkAction {
            name: self.name.clone(),
            target: crate::value::copy_optional_variant(&self.target),
        }
    }
}

/// Inserting an action inserts what it denotes.
pub proof fn lemma_gtk_actions_insert(
    map: Map<Seq<char>, GtkAction>,
    key: Seq<char>,
    action: GtkAction,
)
    ensures
        gtk_actions_view(map.insert(key, action)) == gtk_actions_view(map).insert(key, action@),
{
    assert(gtk_actions_view(map.insert(key, action)) =~= gtk_actions_view(map).insert(
        key,
        action@,
    ));
}

fn copy_gtk_actions(actions: &AssocMap<String, GtkAction>) -> (copy: AssocMap<String, GtkAction>)
    ensures
        gtk_actions_view(copy@) == gtk_actions_view(actions@),
{
    let entries = actions.entries();
    let mut copy: AssocMap<String, GtkAction> = AssocMap::new();
    let mut i: usize = 0;
    assert(gtk_actions_view(copy@) =~= gtk_actions_view(crate::assoc::map_of(entries@.take(0))));
    while i < entries.len()
        invariant
            i <= entries@.len(),
            crate::assoc::keys_distinct(entries@),
            gtk_actions_view(copy@) == gtk_actions_view(
                crate::assoc::map_of(entries@.take(i as int)),
            ),
        decreases entries@.len() - i,
    {
        let ghost before = copy@;
        let action = entries[i].1.clone();
        let ghost copied = action;
        copy.insert(entries[i].0.clone(), action);
        proof {
            let key = entries@[i as int].0@;
            crate::value::lemma_take_entry(entries@, i as int);
            lemma_gtk_actions_insert(before, key, copied);
            lemma_gtk_actions_insert(
                crate::assoc::map_of(entries@.take(i as int)),
                key,
                entries@[i as int].1,
            );
        }
        i += 1;
    }
    assert(entries@.take(entries@.len() as int) =~= entries@);
    copy
}

impl Clone for GtkDispatch {
    fn clone(&self) -> (copy: Self)
        ensures
            copy@ == self@,
    {
        let default_action = match &self.default_action {
            Some(action) => Some(action.clone()),
            None => None,
        };
        GtkDispatch {
            app_id: self.app_id.clone(),
            gtk_id: self.gtk_id.clone(),
            default_action,
            button_actions: copy_gtk_actions(&self.button_actions),
        }
    }
}

impl Clone for NotificationSource {
    fn clone(&self) -> (copy: Self)
        ensures
            copy@ == self@,
    {
        match self {
            NotificationSource::Freedesktop => NotificationSource::Freedesktop,
            NotificationSource::Gtk(dispatch) => NotificationSource::Gtk(dispatch.clone()),
        }
    }
}

/// The character of an object path that stands for a character of an application id.
pub open spec fn path_char(ch: char) -> char {
    if ch == '.' {
        '/'
    } else if ch == '-' {
        '_'
    } else {
        ch
    }
}

/// The object path of an application: `/`, then its id with `.` as `/` and `-` as `_`.
pub open spec fn object_path(app_id: Seq<char>) -> Seq<char> {
    seq!['/'] + app_id.map_values(|ch: char| path_char(ch))
}

/// Derives an app's `org.freedesktop.Application` object path from its id, matching
/// `g_application_get_dbus_object_path`: prefix `/`, then `.` to `/` and `-` to `_`.
pub fn gtk_object_path(app_id: &str) -> (path: String)
    ensures
        path@ == object_path(app_id@),
{
    let mut path = String::new();
    path.push('/');
    assert(path@ =~= object_path(app_id@.take(0)));
    for ch in it: app_id.chars()
        invariant
            it.seq() == app_id@,
            path@ == object_path(app_id@.take(it.index())),
    {
        match ch {
            '.' => path.push('/'),
            '-' => path.push('_'),
            other => path.push(other),
        }
        assert(path@ =~= object_path(app_id@.take(it.index() + 1)));
    }
    assert(app_id@.take(app_id@.len() as int) =~= app_id@);
    path
}

/// An object path is one character longer than the application id, begins with `/`, and
/// holds neither `.` nor `-`.
pub proof fn law_object_path_characters(app_id: Seq<char>)
    ensures
        object_path(app_id).len() == app_id.len() + 1,
        object_path(app_id)[0] == '/',
        !object_path(app_id).contains('.'),
        !object_path(app_id).contains('-'),
{
}

/// An object path is the application id behind a `/`, character by character: `.` is `/`,
/// `-` is `_`, and every other character is itself.
pub proof fn law_object_path_follows_the_id(app_id: Seq<char>, i: int)
    requires
        0 <= i < app_id.len(),
    ensures
        app_id[i] == '.' ==> object_path(app_id)[i + 1] == '/',
        app_id[i] == '-' ==> object_path(app_id)[i + 1] == '_',
        app_id[i] != '.' && app_id[i] != '-' ==> object_path(app_id)[i + 1] == app_id[i],
{
}

} // verus!
