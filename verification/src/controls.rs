//! Dispatching the actions of a notification: what is sent over the bus, and to whom.

use vstd::prelude::*;

use crate::source::{gtk_object_path, object_path, GtkAction};
use crate::types::{Signal, SERVICE_INTERFACE, SERVICE_PATH};
use crate::value::{Variant, VariantView};

verus! {

/// Interface through which an application is activated.
pub const APPLICATION_INTERFACE: &'static str = "org.freedesktop.Application";

/// An `ActionInvoked` signal, directed to one connection.
pub struct ActionSignal {
    /// Unique bus name that the signal is directed to.
    pub destination: String,
    /// Object path that the signal comes from.
    pub path: &'static str,
    /// Interface of the signal.
    pub interface: &'static str,
    /// Name of the signal.
    pub member: &'static str,
    /// The notification.
    pub id: u32,
    /// The action.
    pub action_key: String,
}

/// What an [`ActionSignal`] denotes.
pub struct ActionSignalView {
    /// Unique bus name that the signal is directed to.
    pub destination: Seq<char>,
    /// Object path that the signal comes from.
    pub path: Seq<char>,
    /// Interface of the signal.
    pub interface: Seq<char>,
    /// Name of the signal.
    pub member: Seq<char>,
    /// The notification.
    pub id: u32,
    /// The action.
    pub action_key: Seq<char>,
}

impl View for ActionSignal {
    type V = ActionSignalView;

    open spec fn view(&self) -> ActionSignalView {
        ActionSignalView {
            destination: self.destination@,
            path: self.path@,
            interface: self.interface@,
            member: self.member@,
            id: self.id,
            action_key: self.action_key@,
        }
    }
}

impl DeepView for ActionSignal {
    type V = ActionSignalView;

    open spec fn deep_view(&self) -> ActionSignalView {
        self@
    }
}

/// The arguments of a call that activates an application.
pub enum Activation {
    /// `ActivateAction(name, parameter, {})`.
    ActivateAction {
        /// The name of the action.
        name: String,
        /// Zero or one target.
        parameter: Vec<Variant>,
    },
    /// `Activate({})`.
    Activate,
}

/// What an [`Activation`] denotes.
pub enum ActivationView {
    /// `ActivateAction(name, parameter, {})`.
    ActivateAction {
        /// The name of the action.
        name: Seq<char>,
        /// Zero or one target.
        parameter: Seq<VariantView>,
    },
    /// `Activate({})`.
    Activate,
}

impl View for Activation {
    type V = ActivationView;

    open spec fn view(&self) -> ActivationView {
        match self {
            Activation::ActivateAction { name, parameter } => ActivationView::ActivateAction {
                name: name@,
                parameter: parameter.deep_view(),
            },
            Activation::Activate => ActivationView::Activate,
        }
    }
}

/// A method call that activates an application. Its platform data is empty.
pub struct ActivationCall {
    /// Bus name of the application.
    pub destination: String,
    /// Object path of the application.
    pub path: String,
    /// Interface of the method.
    pub interface: &'static str,
    /// Name of the method.
    pub member: &'static str,
    /// The method's arguments.
    pub activation: Activation,
}

/// What an [`ActivationCall`] denotes.
pub struct ActivationCallView {
    /// Bus name of the application.
    pub destination: Seq<char>,
    /// Object path of the application.
    pub path: Seq<char>,
    /// Interface of the method.
    pub interface: Seq<char>,
    /// Name of the method.
    pub member: Seq<char>,
    /// The method's arguments.
    pub activation: ActivationView,
}

impl View for ActivationCall {
    type V = ActivationCallView;

    open spec fn view(&self) -> ActivationCallView {
        ActivationCallView {
            destination: self.destination@,
            path: self.path@,
            interface: self.interface@,
            member: self.member@,
            activation: self.activation@,
        }
    }
}

/// The signal of an invoked action: directed to the notification's owner, and none when
/// the owner is unknown.
pub open spec fn invocation(id: u32, action_key: Seq<char>, owner: Option<Seq<char>>) -> Option<
    ActionSignalView,
> {
    match owner {
        Some(owner) => Some(
            ActionSignalView {
                destination: owner,
                path: SERVICE_PATH@,
                interface: SERVICE_INTERFACE@,
                member: Signal::ActionInvoked.spec_name(),
                id,
                action_key,
            },
        ),
        None => None,
    }
}

/// The call that dispatches an action of a GTK notification.
pub open spec fn activation(
    app_id: Seq<char>,
    action: Option<crate::source::GtkActionView>,
) -> ActivationCallView {
    ActivationCallView {
        destination: app_id,
        path: object_path(app_id),
        interface: APPLICATION_INTERFACE@,
        member: match action {
            Some(action) => "ActivateAction"@,
            None => "Activate"@,
        },
        activation: match action {
            Some(action) => ActivationView::ActivateAction {
                name: action.name,
                parameter: match action.target {
                    Some(target) => seq![target],
                    None => seq![],
                },
            },
            None => ActivationView::Activate,
        },
    }
}

/// Dispatch of a notification's actions.
pub struct NotificationControls;

impl NotificationControls {
    /// Invokes an action of a freedesktop notification.
    ///
    /// The signal is directed to the notification's owning connection. If the owner is
    /// unknown there is none, rather than a broadcast: a broadcast lets clients that don't
    /// filter by id react to notifications they didn't create.
    pub fn invoke(id: u32, action_key: &str, owner: Option<&str>) -> (signal: Option<ActionSignal>)
        ensures
            signal.deep_view() == invocation(
                id,
                action_key@,
                match owner {
                    Some(owner) => Some(owner@),
                    None => None,
                },
            ),
    {
        match owner {
            Some(owner) => Some(
                ActionSignal {
                    destination: owner.to_owned(),
                    path: SERVICE_PATH,
                    interface: SERVICE_INTERFACE,
                    member: Signal::ActionInvoked.as_str(),
                    id,
                    action_key: action_key.to_owned(),
                },
            ),
            None => None,
        }
    }

    /// Dispatches a GTK notification action via `org.freedesktop.Application`.
    ///
    /// An action calls `ActivateAction(name, [target?], {})`; no action (a body click on a
    /// notification with no default action) calls `Activate({})` to raise or launch the
    /// app.
    pub fn activate_gtk(app_id: &str, action: Option<&GtkAction>) -> (call: ActivationCall)
        ensures
            call@ == activation(
                app_id@,
                match action {
                    Some(action) => Some(action@),
                    None => None,
                },
            ),
    {
        let path = gtk_object_path(app_id);
        match action {
            Some(action) => {
                let mut parameter: Vec<Variant> = Vec::new();
                match &action.target {
                    Some(target) => {
                        parameter.push(target.clone());
                    },
                    None => {},
                }
                assert(parameter.deep_view() =~= match action@.target {
                    Some(target) => seq![target],
                    None => seq![],
                });
                ActivationCall {
                    destination: app_id.to_owned(),
                    path,
                    interface: APPLICATION_INTERFACE,
                    member: "ActivateAction",
                    activation: Activation::ActivateAction { name: action.name.clone(), parameter },
                }
            },
            None => ActivationCall {
                destination: app_id.to_owned(),
                path,
                interface: APPLICATION_INTERFACE,
                member: "Activate",
                activation: Activation::Activate,
            },
        }
    }
}

/// An invoked action is told to the owner of its notification, and to nobody if the owner
/// is unknown; the signal tells of that notification and that action.
pub proof fn law_invocations_go_to_the_owner(id: u32, action_key: Seq<char>, owner: Seq<char>)
    ensures
        invocation(id, action_key, None) is None,
        ({
            let signal = invocation(id, action_key, Some(owner));
            &&& signal is Some
            &&& signal->0.destination == owner
            &&& signal->0.id == id
            &&& signal->0.action_key == action_key
            &&& signal->0.member == "ActionInvoked"@
            &&& signal->0.interface == "org.freedesktop.Notifications"@
            &&& signal->0.path == "/org/freedesktop/Notifications"@
        }),
{
}

/// An action of a GTK notification is dispatched to its application, at the application's
/// path: by its name, with its target as the only parameter, or without one. No action
/// raises the application.
pub proof fn law_activations_go_to_the_application(
    app_id: Seq<char>,
    action: crate::source::GtkActionView,
)
    ensures
        ({
            let call = activation(app_id, Some(action));
            &&& call.destination == app_id
            &&& call.path == object_path(app_id)
            &&& call.interface == "org.freedesktop.Application"@
            &&& call.member == "ActivateAction"@
            &&& call.activation matches ActivationView::ActivateAction { name, parameter } && name
                == action.name && (action.target matches Some(target) ==> parameter == seq![target])
                && (action.target is None ==> parameter.len() == 0)
        }),
        ({
            let call = activation(app_id, None);
            &&& call.destination == app_id
            &&& call.path == object_path(app_id)
            &&& call.interface == "org.freedesktop.Application"@
            &&& call.member == "Activate"@
            &&& call.activation is Activate
        }),
{
}

} // verus!
