//! Notification actions and their flat D-Bus form, an alternating list of ids and labels.

use vstd::prelude::*;

verus! {

/// Represents a notification action with an ID and label.
#[derive(Debug, PartialEq)]
pub struct Action {
    /// Action identifier sent via D-Bus `ActionInvoked` signal.
    pub id: String,
    /// Human-readable label for display.
    pub label: String,
}

/// What an [`Action`] denotes.
pub struct ActionView {
    /// The identifier.
    pub id: Seq<char>,
    /// The label.
    pub label: Seq<char>,
}

impl View for Action {
    type V = ActionView;

    open spec fn view(&self) -> ActionView {
        ActionView { id: self.id@, label: self.label@ }
    }
}

impl DeepView for Action {
    type V = ActionView;

    open spec fn deep_view(&self) -> ActionView {
        self@
    }
}

impl Clone for Action {
    fn clone(&self) -> (copy: Self)
        ensures
            copy == *self,
    {
        Action { id: self.id.clone(), label: self.label.clone() }
    }
}

/// The actions of a flat list: each even position is an id and the position after it that
/// id's label; a last id without a label is its own label.
pub open spec fn parsed_actions(raw: Seq<Seq<char>>) -> Seq<ActionView> {
    Seq::new(
        ((raw.len() + 1) / 2) as nat,
        |i: int|
            ActionView {
                id: raw[2 * i],
                label: if 2 * i + 1 < raw.len() {
                    raw[2 * i + 1]
                } else {
                    raw[2 * i]
                },
            },
    )
}

/// The flat list of some actions: id, label, id, label, and so on.
pub open spec fn flat_actions(actions: Seq<ActionView>) -> Seq<Seq<char>> {
    Seq::new(
        2 * actions.len(),
        |i: int|
            if i % 2 == 0 {
                actions[i / 2].id
            } else {
                actions[i / 2].label
            },
    )
}

impl Action {
    /// The identifier that the protocol sets apart for the body-click action.
    pub const DEFAULT_ID: &'static str = "default";

    /// Reads the actions out of a flat list.
    pub fn parse_dbus_actions(raw_actions: &[String]) -> (actions: Vec<Action>)
        ensures
            actions.deep_view() == parsed_actions(raw_actions.deep_view()),
    {
        let ghost raw = raw_actions.deep_view();
        let mut actions: Vec<Action> = Vec::new();
        let mut at: usize = 0;
        while at < raw_actions.len()
            invariant
                raw == raw_actions.deep_view(),
                raw.len() == raw_actions@.len(),
                at <= raw_actions@.len(),
                at == 2 * actions@.len() || (at == raw.len() && at == 2 * actions@.len() - 1),
                forall|i: int|
                    0 <= i < actions@.len() ==> (#[trigger] actions@[i])@ == parsed_actions(raw)[i],
            decreases raw_actions@.len() - at,
        {
            let id = &raw_actions[at];
            at += 1;
            let label = if at < raw_actions.len() {
                let label = &raw_actions[at];
                at += 1;
                label
            } else {
                id
            };
            actions.push(Action { id: id.clone(), label: label.clone() });
        }
        assert(actions.deep_view() =~= parsed_actions(raw));
        actions
    }

    /// Writes actions as a flat list.
    pub fn to_dbus_format(actions: &[Action]) -> (raw: Vec<String>)
        ensures
            raw.deep_view() == flat_actions(actions.deep_view()),
    {
        let mut raw: Vec<String> = Vec::new();
        let mut i: usize = 0;
        while i < actions.len()
            invariant
                i <= actions@.len(),
                raw@.len() == 2 * i,
                forall|j: int|
                    0 <= j < raw@.len() ==> (#[trigger] raw@[j])@ == flat_actions(
                        actions.deep_view(),
                    )[j],
            decreases actions@.len() - i,
        {
            raw.push(actions[i].id.clone());
            raw.push(actions[i].label.clone());
            i += 1;
        }
        assert(raw.deep_view() =~= flat_actions(actions.deep_view()));
        raw
    }
}

/// A copy of a list of actions.
pub(crate) fn copy_actions(actions: &Vec<Action>) -> (copy: Vec<Action>)
    ensures
        copy.deep_view() == actions.deep_view(),
{
    let mut copy: Vec<Action> = Vec::new();
    let mut i: usize = 0;
    while i < actions.len()
        invariant
            i <= actions@.len(),
            copy@ == actions@.take(i as int),
        decreases actions@.len() - i,
    {
        copy.push(actions[i].clone());
        i += 1;
        assert(copy@ =~= actions@.take(i as int));
    }
    assert(copy.deep_view() =~= actions.deep_view());
    copy
}

/// Writing actions as a flat list and reading them back gives the same actions.
pub proof fn law_parse_undoes_flatten(actions: Seq<ActionView>)
    ensures
        parsed_actions(flat_actions(actions)) == actions,
{
    assert(parsed_actions(flat_actions(actions)) =~= actions);
}

/// Reading actions out of a flat list and writing them back gives the same list; a last
/// id that had no label comes back with itself as its label.
pub proof fn law_flatten_undoes_parse(raw: Seq<Seq<char>>)
    ensures
        raw.len() % 2 == 0 ==> flat_actions(parsed_actions(raw)) == raw,
        raw.len() % 2 == 1 ==> flat_actions(parsed_actions(raw)) == raw.push(raw.last()),
{
    let back = flat_actions(parsed_actions(raw));
    if raw.len() % 2 == 0 {
        assert(back =~= raw);
    } else {
        assert(back =~= raw.push(raw.last()));
    }
}

/// The flat list has the id and then the label of each action in turn.
pub proof fn law_flat_list_has_ids_and_labels(actions: Seq<ActionView>, k: int)
    requires
        0 <= k < actions.len(),
    ensures
        flat_actions(actions).len() == 2 * actions.len(),
        flat_actions(actions)[2 * k] == actions[k].id,
        flat_actions(actions)[2 * k + 1] == actions[k].label,
{
}

/// Of a flat list, every text at an even place is an id and the text after it its label; a
/// last id without a label is its own label.
pub proof fn law_flat_list_is_read_in_pairs(raw: Seq<Seq<char>>, k: int)
    requires
        0 <= k,
        2 * k < raw.len(),
    ensures
        k < parsed_actions(raw).len(),
        raw.len() <= 2 * parsed_actions(raw).len() <= raw.len() + 1,
        parsed_actions(raw)[k].id == raw[2 * k],
        2 * k + 1 < raw.len() ==> parsed_actions(raw)[k].label == raw[2 * k + 1],
        2 * k + 1 == raw.len() ==> parsed_actions(raw)[k].label == raw[2 * k],
{
}

} // verus!
