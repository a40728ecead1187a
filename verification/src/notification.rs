//! A notification.

use vstd::prelude::*;

use crate::action::{Action, ActionView};
use crate::source::{NotificationSource, SourceView};
use crate::time::Timestamp;
use crate::value::{NotificationHints, VariantView};

verus! {

/// What a notification is made from.
pub struct NotificationProps {
    /// The id.
    pub id: u32,
    /// Human-readable name of the application.
    pub app_name: String,
    /// The id of the notification this one replaces, or zero.
    pub replaces_id: u32,
    /// Icon name of the application.
    pub app_icon: String,
    /// The summary line.
    pub summary: String,
    /// The body text.
    pub body: String,
    /// The actions as a flat list of ids and labels.
    pub actions: Vec<String>,
    /// The hints.
    pub hints: NotificationHints,
    /// Milliseconds until the notification expires; negative when it does not.
    pub expire_timeout: i32,
    /// When the notification was made.
    pub timestamp: Timestamp,
    /// Unique D-Bus name of the connection that created this notification.
    pub owner: Option<String>,
    /// Origin of the notification and how its actions are dispatched.
    pub source: NotificationSource,
}

/// A notification as it is listed.
pub struct Notification {
    /// The id.
    pub id: u32,
    /// Human-readable name of the application.
    pub app_name: Option<String>,
    /// The id of the notification this one replaced.
    pub replaces_id: Option<u32>,
    /// Icon name of the application.
    pub app_icon: Option<String>,
    /// The summary line.
    pub summary: String,
    /// The body text.
    pub body: Option<String>,
    /// The actions offered as buttons.
    pub actions: Vec<Action>,
    /// The action of a body click.
    pub default_action: Option<Action>,
    /// The hints.
    pub hints: Option<NotificationHints>,
    /// Path of an image file to show.
    pub image_path: Option<String>,
    /// Milliseconds until the notification expires.
    pub expire_timeout: Option<u32>,
    /// When the notification was made.
    pub timestamp: Timestamp,
    /// Unique D-Bus name of the connection that created this notification.
    pub owner: Option<String>,
    /// Origin of the notification and how its actions are dispatched.
    pub source: NotificationSource,
    /// Whether the notification is kept out of the history.
    pub is_transient: bool,
}

/// What a [`Notification`] denotes.
pub struct NotificationView {
    /// The id.
    pub id: u32,
    /// Human-readable name of the application.
    pub app_name: Option<Seq<char>>,
    /// The id of the notification this one replaced.
    pub replaces_id: Option<u32>,
    /// Icon name of the application.
    pub app_icon: Option<Seq<char>>,
    /// The summary line.
    pub summary: Seq<char>,
    /// The body text.
    pub body: Option<Seq<char>>,
    /// The actions offered as buttons.
    pub actions: Seq<ActionView>,
    /// The action of a body click.
    pub default_action: Option<ActionView>,
    /// The hints.
    pub hints: Option<Map<Seq<char>, VariantView>>,
    /// Path of an image file to show.
    pub image_path: Option<Seq<char>>,
    /// Milliseconds until the notification expires.
    pub expire_timeout: Option<u32>,
    /// When the notification was made, in nanoseconds since the Unix epoch.
    pub timestamp: int,
    /// Unique D-Bus name of the connection that created this notification.
    pub owner: Option<Seq<char>>,
    /// Origin of the notification.
    pub source: SourceView,
    /// Whether the notification is kept out of the history.
    pub is_transient: bool,
}

/// What optional hints denote.
pub open spec fn optional_hints_view(hints: Option<NotificationHints>) -> Option<
    Map<Seq<char>, VariantView>,
> {
    match hints {
        Some(hints) => Some(crate::value::hints_view(hints)),
        None => None,
    }
}

impl View for Notification {
    type V = NotificationView;

    open spec fn view(&self) -> NotificationView {
        NotificationView {
            id: self.id,
            app_name: self.app_name.deep_view(),
            replaces_id: self.replaces_id,
            app_icon: self.app_icon.deep_view(),
            summary: self.summary@,
            body: self.body.deep_view(),
            actions: self.actions.deep_view(),
            default_action: self.default_action.deep_view(),
            hints: optional_hints_view(self.hints),
            image_path: self.image_path.deep_view(),
            expire_timeout: self.expire_timeout,
            timestamp: self.timestamp@,
            owner: self.owner.deep_view(),
            source: self.source@,
            is_transient: self.is_transient,
        }
    }
}

impl DeepView for Notification {
    type V = NotificationView;

    open spec fn deep_view(&self) -> NotificationView {
        self@
    }
}

fn copy_optional_hints(hints: &Option<NotificationHints>) -> (copy: Option<NotificationHints>)
    ensures
        optional_hints_view(copy) == optional_hints_view(*hints),
{
    match hints {
        Some(hints) => Some(crate::value::copy_hints(hints)),
        None => None,
    }
}

fn copy_optional_action(action: &Option<Action>) -> (copy: Option<Action>)
    ensures
        copy.deep_view() == action.deep_view(),
{
    match action {
        Some(action) => Some(action.clone()),
        None => None,
    }
}

impl Clone for Notification {
    fn clone(&self) -> (copy: Self)
        ensures
            copy@ == self@,
    {
        Notification {
            id: self.id,
            app_name: crate::text::copy_optional(&self.app_name),
            replaces_id: self.replaces_id,
            app_icon: crate::text::copy_optional(&self.app_icon),
            summary: self.summary.clone(),
            body: crate::text::copy_optional(&self.body),
            actions: crate::action::copy_actions(&self.actions),
            default_action: copy_optional_action(&self.default_action),
            hints: copy_optional_hints(&self.hints),
            image_path: crate::text::copy_optional(&self.image_path),
            expire_timeout: self.expire_timeout,
            timestamp: self.timestamp,
            owner: crate::text::copy_optional(&self.owner),
            source: self.source.clone(),
            is_transient: self.is_transient,
        }
    }
}

impl Notification {
    /// Takes over everything of an incoming notification but its id and its owner.
    pub fn update_from(&mut self, incoming: &Notification)
        ensures
            final(self)@ == (NotificationView {
                id: old(self)@.id,
                owner: old(self)@.owner,
                ..incoming@
            }),
    {
        self.app_name = crate::text::copy_optional(&incoming.app_name);
        self.replaces_id = incoming.replaces_id;
        self.app_icon = crate::text::copy_optional(&incoming.app_icon);
        self.summary = incoming.summary.clone();
        self.body = crate::text::copy_optional(&incoming.body);
        self.actions = crate::action::copy_actions(&incoming.actions);
        self.default_action = copy_optional_action(&incoming.default_action);
        self.hints = copy_optional_hints(&incoming.hints);
        self.image_path = crate::text::copy_optional(&incoming.image_path);
        self.expire_timeout = incoming.expire_timeout;
        self.timestamp = incoming.timestamp;
        self.source = incoming.source.clone();
        self.is_transient = incoming.is_transient;
    }
}

} // verus!
