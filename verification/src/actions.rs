//! Actions that a notification offers, and their flat form on the wire.

use crate::wire::strings_view;
use vstd::prelude::*;

verus! {

/// Something the user can do about a notification.
#[derive(Debug, PartialEq, Eq)]
pub struct Action {
    /// The name under which the choice is reported back.
    pub tag: String,
    /// The label shown to the user.
    pub description: String,
}

/// What an [`Action`] stands for.
pub struct ActionView {
    pub tag: Seq<char>,
    pub description: Seq<char>,
}

impl View for Action {
    type V = ActionView;

    open spec fn view(&self) -> ActionView {
        ActionView { tag: self.tag@, description: self.description@ }
    }
}

impl Clone for Action {
    fn clone(&self) -> (copy: Self)
        ensures
            copy@ == self@,
    {
        Action { tag: self.tag.clone(), description: self.description.clone() }
    }
}

/// The actions of a sequence, each by what it stands for.
pub open spec fn actions_view(actions: Seq<Action>) -> Seq<ActionView> {
    actions.map_values(|a: Action| a@)
}

/// The actions that a flat sequence of strings spells out: the strings are
/// taken two by two, a tag and then its label, and a last string without a
/// partner is left out.
pub open spec fn paired(raw: Seq<Seq<char>>) -> Seq<ActionView> {
    Seq::new(
        (raw.len() / 2) as nat,
        |i: int| ActionView { tag: raw[2 * i], description: raw[2 * i + 1] },
    )
}

/// The flat form of a list of actions: each tag followed by its label.
pub open spec fn flattened(actions: Seq<ActionView>) -> Seq<Seq<char>> {
    Seq::new(
        2 * actions.len(),
        |i: int|
            if i % 2 == 0 {
                actions[i / 2].tag
            } else {
                actions[i / 2].description
            },
    )
}

impl Action {
    /// The action with the tag `pair.0` and the label `pair.1`.
    pub fn from_pair(pair: (&String, &String)) -> (action: Action)
        ensures
            action@ == (ActionView { tag: pair.0@, description: pair.1@ }),
    {
        Action { tag: pair.0.clone(), description: pair.1.clone() }
    }

    /// Reads the actions out of their flat form. A last string without a
    /// partner is dropped.
    pub fn from_vec(raw: &[String]) -> (actions: Vec<Action>)
        ensures
            actions_view(actions@) == paired(strings_view(raw@)),
    {
        let mut actions: Vec<Action> = Vec::new();
        let mut i: usize = 0;
        while i + 1 < raw.len()
            invariant
                i % 2 == 0,
                i <= raw.len(),
                actions@.len() == i / 2,
                forall|k: int|
                    0 <= k < actions@.len() ==> (#[trigger] actions@[k])@ == (ActionView {
                        tag: raw@[2 * k]@,
                        description: raw@[2 * k + 1]@,
                    }),
            decreases raw.len() - i,
        {
            let action = Action::from_pair((&raw[i], &raw[i + 1]));
            actions.push(action);
            i += 2;
        }
        assert(actions_view(actions@) =~= paired(strings_view(raw@)));
        actions
    }
}

/// Writes the actions in their flat form: each tag followed by its label.
pub fn flatten(actions: &Vec<Action>) -> (raw: Vec<String>)
    ensures
        strings_view(raw@) == flattened(actions_view(actions@)),
{
    let mut raw: Vec<String> = Vec::new();
    let mut i: usize = 0;
    while i < actions.len()
        invariant
            i <= actions.len(),
            raw@.len() == 2 * i,
            forall|j: int|
                0 <= j < raw@.len() ==> (#[trigger] raw@[j])@ == (if j % 2 == 0 {
                    actions@[j / 2].tag@
                } else {
                    actions@[j / 2].description@
                }),
        decreases actions.len() - i,
    {
        raw.push(actions[i].tag.clone());
        raw.push(actions[i].description.clone());
        i += 1;
    }
    assert(strings_view(raw@) =~= flattened(actions_view(actions@)));
    raw
}

/// Flattening a list of actions and reading the flat form back gives the
/// list again, whatever its length: the same actions in the same order.
pub proof fn lemma_flatten_then_pair(actions: Seq<ActionView>)
    ensures
        paired(flattened(actions)) == actions,
{
    assert(paired(flattened(actions)) =~= actions);
}

/// Reading a flat sequence and flattening the result gives the sequence
/// again, without its last string where their number is odd.
pub proof fn lemma_pair_then_flatten(raw: Seq<Seq<char>>)
    ensures
        flattened(paired(raw)) == raw.take(2 * (raw.len() as int / 2)),
{
    assert(flattened(paired(raw)) =~= raw.take(2 * (raw.len() as int / 2)));
}

/// How many actions a flat sequence spells out: half its length, rounded
/// down.
pub proof fn lemma_paired_len(raw: Seq<Seq<char>>)
    ensures
        paired(raw).len() == raw.len() / 2,
        raw.len() % 2 == 1 ==> paired(raw) == paired(raw.drop_last()),
{
    if raw.len() % 2 == 1 {
        assert(paired(raw) =~= paired(raw.drop_last()));
    }
}

} // verus!
