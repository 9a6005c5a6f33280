//! The actions that every network knows without having to define them.
use vstd::prelude::*;
use vstd::string::StrSliceExecFns;

verus! {

/// What an action does to the quantity of the resource it affects.
#[derive(Debug, Clone, Copy, PartialEq, Eq, Structural)]
pub enum ActionEffect {
    NoEffect,
    Increment,
    Decrement,
    DecrementIncrement,
}

/// On which side of a process an action stands.
#[derive(Debug, Clone, Copy, PartialEq, Eq, Structural)]
pub enum ProcessType {
    NotApplicable,
    Input,
    Output,
}

/// An action: what kind of flow an event, commitment or intent describes.
#[derive(Debug)]
pub struct Action {
    pub id: String,
    pub label: String,
    pub resource_effect: ActionEffect,
    pub input_output: ProcessType,
    pub pairs_with: String,
}

/// An [`Action`], with its texts as sequences of characters.
pub struct ActionView {
    pub id: Seq<char>,
    pub label: Seq<char>,
    pub resource_effect: ActionEffect,
    pub input_output: ProcessType,
    pub pairs_with: Seq<char>,
}

impl View for Action {
    type V = ActionView;

    open spec fn view(&self) -> ActionView {
        ActionView {
            id: self.id@,
            label: self.label@,
            resource_effect: self.resource_effect,
            input_output: self.input_output,
            pairs_with: self.pairs_with@,
        }
    }
}

impl Clone for Action {
    fn clone(&self) -> (copy: Action)
        ensures
            copy@ == self@,
    {
        Action {
            id: self.id.clone(),
            label: self.label.clone(),
            resource_effect: self.resource_effect,
            input_output: self.input_output,
            pairs_with: self.pairs_with.clone(),
        }
    }
}

impl PartialEq for Action {
    fn eq(&self, other: &Action) -> (same: bool) {
        self.id == other.id && self.label == other.label && self.resource_effect
            == other.resource_effect && self.input_output == other.input_output
            && self.pairs_with == other.pairs_with
    }
}

impl vstd::std_specs::cmp::PartialEqSpecImpl for Action {
    open spec fn obeys_eq_spec() -> bool {
        true
    }

    open spec fn eq_spec(&self, other: &Action) -> bool {
        self@ == other@
    }
}

/// The views of `actions`, in the same order.
pub open spec fn action_views(actions: Seq<Action>) -> Seq<ActionView> {
    Seq::new(actions.len(), |i: int| actions[i]@)
}

/// `key` with every `-` written as `_`: the form in which built-in actions
/// are looked up, so that `deliver-service` and `deliver_service` name the
/// same action.
pub open spec fn normalized_key(key: Seq<char>) -> Seq<char> {
    Seq::new(
        key.len(),
        |i: int|
            if key[i] == '-' {
                '_'
            } else {
                key[i]
            },
    )
}

/// The built-in action that is identified and labelled by `id`.
pub open spec fn builtin(
    id: Seq<char>,
    resource_effect: ActionEffect,
    input_output: ProcessType,
    pairs_with: Seq<char>,
) -> ActionView {
    ActionView { id, label: id, resource_effect, input_output, pairs_with }
}

/// The built-in action that goes by the normalized name `name`, if any.
pub open spec fn builtin_action(name: Seq<char>) -> Option<ActionView> {
    if name == "dropoff"@ {
        Some(builtin("dropoff"@, ActionEffect::Increment, ProcessType::Output, "pickup"@))
    } else if name == "pickup"@ {
        Some(builtin("pickup"@, ActionEffect::Decrement, ProcessType::Input, "dropoff"@))
    } else if name == "consume"@ {
        Some(builtin("consume"@, ActionEffect::Decrement, ProcessType::Input, "notApplicable"@))
    } else if name == "use"@ {
        Some(builtin("use"@, ActionEffect::NoEffect, ProcessType::Input, "notApplicable"@))
    } else if name == "work"@ {
        Some(builtin("work"@, ActionEffect::NoEffect, ProcessType::Input, "notApplicable"@))
    } else if name == "cite"@ {
        Some(builtin("cite"@, ActionEffect::NoEffect, ProcessType::Input, "notApplicable"@))
    } else if name == "produce"@ {
        Some(builtin("produce"@, ActionEffect::Increment, ProcessType::Output, "notApplicable"@))
    } else if name == "accept"@ {
        Some(builtin("accept"@, ActionEffect::NoEffect, ProcessType::Input, "modify"@))
    } else if name == "modify"@ {
        Some(builtin("modify"@, ActionEffect::NoEffect, ProcessType::Output, "accept"@))
    } else if name == "pass"@ {
        Some(builtin("pass"@, ActionEffect::NoEffect, ProcessType::Output, "accept"@))
    } else if name == "fail"@ {
        Some(builtin("fail"@, ActionEffect::NoEffect, ProcessType::Output, "accept"@))
    } else if name == "deliver_service"@ {
        Some(builtin("deliver-service"@, ActionEffect::NoEffect, ProcessType::Output, "notApplicable"@))
    } else if name == "transfer_all_rights"@ {
        Some(builtin("transfer-all-rights"@, ActionEffect::DecrementIncrement, ProcessType::NotApplicable, "notApplicable"@))
    } else if name == "transfer_custody"@ {
        Some(builtin("transfer-custody"@, ActionEffect::DecrementIncrement, ProcessType::NotApplicable, "notApplicable"@))
    } else if name == "transfer"@ {
        Some(builtin("transfer"@, ActionEffect::DecrementIncrement, ProcessType::NotApplicable, "notApplicable"@))
    } else if name == "move"@ {
        Some(builtin("move"@, ActionEffect::DecrementIncrement, ProcessType::NotApplicable, "notApplicable"@))
    } else if name == "raise"@ {
        Some(builtin("raise"@, ActionEffect::Increment, ProcessType::NotApplicable, "notApplicable"@))
    } else if name == "lower"@ {
        Some(builtin("lower"@, ActionEffect::Decrement, ProcessType::NotApplicable, "notApplicable"@))
    } else {
        None
    }
}

/// All built-in actions, in the order in which they are listed.
pub open spec fn all_builtin_actions() -> Seq<ActionView> {
    seq![
        builtin("dropoff"@, ActionEffect::Increment, ProcessType::Output, "pickup"@),
        builtin("pickup"@, ActionEffect::Decrement, ProcessType::Input, "dropoff"@),
        builtin("consume"@, ActionEffect::Decrement, ProcessType::Input, "notApplicable"@),
        builtin("use"@, ActionEffect::NoEffect, ProcessType::Input, "notApplicable"@),
        builtin("work"@, ActionEffect::NoEffect, ProcessType::Input, "notApplicable"@),
        builtin("cite"@, ActionEffect::NoEffect, ProcessType::Input, "notApplicable"@),
        builtin("produce"@, ActionEffect::Increment, ProcessType::Output, "notApplicable"@),
        builtin("accept"@, ActionEffect::NoEffect, ProcessType::Input, "modify"@),
        builtin("modify"@, ActionEffect::NoEffect, ProcessType::Output, "accept"@),
        builtin("pass"@, ActionEffect::NoEffect, ProcessType::Output, "accept"@),
        builtin("fail"@, ActionEffect::NoEffect, ProcessType::Output, "accept"@),
        builtin("deliver-service"@, ActionEffect::NoEffect, ProcessType::Output, "notApplicable"@),
        builtin("transfer-all-rights"@, ActionEffect::DecrementIncrement, ProcessType::NotApplicable, "notApplicable"@),
        builtin("transfer-custody"@, ActionEffect::DecrementIncrement, ProcessType::NotApplicable, "notApplicable"@),
        builtin("transfer"@, ActionEffect::DecrementIncrement, ProcessType::NotApplicable, "notApplicable"@),
        builtin("move"@, ActionEffect::DecrementIncrement, ProcessType::NotApplicable, "notApplicable"@),
        builtin("raise"@, ActionEffect::Increment, ProcessType::NotApplicable, "notApplicable"@),
        builtin("lower"@, ActionEffect::Decrement, ProcessType::NotApplicable, "notApplicable"@),
    ]
}

/// Whether `key`, with every `-` read as `_`, is `name`.
fn key_is(key: &str, name: &str) -> (same: bool)
    ensures
        same == (normalized_key(key@) == name@),
{
    let length = key.unicode_len();
    if length != name.unicode_len() {
        return false;
    }
    let mut i: usize = 0;
    while i < length
        invariant
            i <= length,
            length == key@.len(),
            length == name@.len(),
            forall|j: int| 0 <= j < i ==> normalized_key(key@)[j] == name@[j],
        decreases length - i,
    {
        let given = key.get_char(i);
        let read = if given == '-' {
            '_'
        } else {
            given
        };
        if read != name.get_char(i) {
            assert(normalized_key(key@)[i as int] != name@[i as int]);
            return false;
        }
        i = i + 1;
    }
    assert(normalized_key(key@) =~= name@);
    true
}

/// Makes the built-in action that is identified and labelled by `id`.
fn make_builtin(
    id: &str,
    resource_effect: ActionEffect,
    input_output: ProcessType,
    pairs_with: &str,
) -> (action: Action)
    ensures
        action@ == builtin(id@, resource_effect, input_output, pairs_with@),
{
    Action {
        id: id.to_owned(),
        label: id.to_owned(),
        resource_effect,
        input_output,
        pairs_with: pairs_with.to_owned(),
    }
}

/// Looks up a built-in action by its name. In `key` a `-` may stand for a
/// `_`; the action's `id` and `label` are written with `-`.
pub fn get_builtin_action(key: &str) -> (action: Option<Action>)
    ensures
        match action {
            Some(found) => builtin_action(normalized_key(key@)) == Some(found@),
            None => builtin_action(normalized_key(key@)) is None,
        },
{
    if key_is(key, "dropoff") {
        Some(make_builtin("dropoff", ActionEffect::Increment, ProcessType::Output, "pickup"))
    } else if key_is(key, "pickup") {
        Some(make_builtin("pickup", ActionEffect::Decrement, ProcessType::Input, "dropoff"))
    } else if key_is(key, "consume") {
        Some(make_builtin("consume", ActionEffect::Decrement, ProcessType::Input, "notApplicable"))
    } else if key_is(key, "use") {
        Some(make_builtin("use", ActionEffect::NoEffect, ProcessType::Input, "notApplicable"))
    } else if key_is(key, "work") {
        Some(make_builtin("work", ActionEffect::NoEffect, ProcessType::Input, "notApplicable"))
    } else if key_is(key, "cite") {
        Some(make_builtin("cite", ActionEffect::NoEffect, ProcessType::Input, "notApplicable"))
    } else if key_is(key, "produce") {
        Some(make_builtin("produce", ActionEffect::Increment, ProcessType::Output, "notApplicable"))
    } else if key_is(key, "accept") {
        Some(make_builtin("accept", ActionEffect::NoEffect, ProcessType::Input, "modify"))
    } else if key_is(key, "modify") {
        Some(make_builtin("modify", ActionEffect::NoEffect, ProcessType::Output, "accept"))
    } else if key_is(key, "pass") {
        Some(make_builtin("pass", ActionEffect::NoEffect, ProcessType::Output, "accept"))
    } else if key_is(key, "fail") {
        Some(make_builtin("fail", ActionEffect::NoEffect, ProcessType::Output, "accept"))
    } else if key_is(key, "deliver_service") {
        Some(make_builtin("deliver-service", ActionEffect::NoEffect, ProcessType::Output, "notApplicable"))
    } else if key_is(key, "transfer_all_rights") {
        Some(make_builtin("transfer-all-rights", ActionEffect::DecrementIncrement, ProcessType::NotApplicable, "notApplicable"))
    } else if key_is(key, "transfer_custody") {
        Some(make_builtin("transfer-custody", ActionEffect::DecrementIncrement, ProcessType::NotApplicable, "notApplicable"))
    } else if key_is(key, "transfer") {
        Some(make_builtin("transfer", ActionEffect::DecrementIncrement, ProcessType::NotApplicable, "notApplicable"))
    } else if key_is(key, "move") {
        Some(make_builtin("move", ActionEffect::DecrementIncrement, ProcessType::NotApplicable, "notApplicable"))
    } else if key_is(key, "raise") {
        Some(make_builtin("raise", ActionEffect::Increment, ProcessType::NotApplicable, "notApplicable"))
    } else if key_is(key, "lower") {
        Some(make_builtin("lower", ActionEffect::Decrement, ProcessType::NotApplicable, "notApplicable"))
    } else {
        None
    }
}

/// Makes the names of the built-in actions known, character by character.
proof fn reveal_builtin_names()
    ensures
        "dropoff"@.len() == 7,
        "pickup"@.len() == 6,
        "consume"@.len() == 7,
        "use"@.len() == 3,
        "work"@.len() == 4,
        "cite"@.len() == 4,
        "produce"@.len() == 7,
        "accept"@.len() == 6,
        "modify"@.len() == 6,
        "pass"@.len() == 4,
        "fail"@.len() == 4,
        "deliver_service"@.len() == 15,
        "transfer_all_rights"@.len() == 19,
        "transfer_custody"@.len() == 16,
        "transfer"@.len() == 8,
        "move"@.len() == 4,
        "raise"@.len() == 5,
        "lower"@.len() == 5,
        normalized_key("dropoff"@) == "dropoff"@,
        normalized_key("pickup"@) == "pickup"@,
        normalized_key("consume"@) == "consume"@,
        normalized_key("use"@) == "use"@,
        normalized_key("work"@) == "work"@,
        normalized_key("cite"@) == "cite"@,
        normalized_key("produce"@) == "produce"@,
        normalized_key("accept"@) == "accept"@,
        normalized_key("modify"@) == "modify"@,
        normalized_key("pass"@) == "pass"@,
        normalized_key("fail"@) == "fail"@,
        normalized_key("deliver_service"@) == "deliver_service"@,
        normalized_key("transfer_all_rights"@) == "transfer_all_rights"@,
        normalized_key("transfer_custody"@) == "transfer_custody"@,
        normalized_key("transfer"@) == "transfer"@,
        normalized_key("move"@) == "move"@,
        normalized_key("raise"@) == "raise"@,
        normalized_key("lower"@) == "lower"@,
        "dropoff"@ != "pickup"@,
        "dropoff"@ != "consume"@,
        "dropoff"@ != "use"@,
        "dropoff"@ != "work"@,
        "dropoff"@ != "cite"@,
        "dropoff"@ != "produce"@,
        "dropoff"@ != "accept"@,
        "dropoff"@ != "modify"@,
        "dropoff"@ != "pass"@,
        "dropoff"@ != "fail"@,
        "dropoff"@ != "deliver_service"@,
        "dropoff"@ != "transfer_all_rights"@,
        "dropoff"@ != "transfer_custody"@,
        "dropoff"@ != "transfer"@,
        "dropoff"@ != "move"@,
        "dropoff"@ != "raise"@,
        "dropoff"@ != "lower"@,
        "pickup"@ != "consume"@,
        "pickup"@ != "use"@,
        "pickup"@ != "work"@,
        "pickup"@ != "cite"@,
        "pickup"@ != "produce"@,
        "pickup"@ != "accept"@,
        "pickup"@ != "modify"@,
        "pickup"@ != "pass"@,
        "pickup"@ != "fail"@,
        "pickup"@ != "deliver_service"@,
        "pickup"@ != "transfer_all_rights"@,
        "pickup"@ != "transfer_custody"@,
        "pickup"@ != "transfer"@,
        "pickup"@ != "move"@,
        "pickup"@ != "raise"@,
        "pickup"@ != "lower"@,
        "consume"@ != "use"@,
        "consume"@ != "work"@,
        "consume"@ != "cite"@,
        "consume"@ != "produce"@,
        "consume"@ != "accept"@,
        "consume"@ != "modify"@,
        "consume"@ != "pass"@,
        "consume"@ != "fail"@,
        "consume"@ != "deliver_service"@,
        "consume"@ != "transfer_all_rights"@,
        "consume"@ != "transfer_custody"@,
        "consume"@ != "transfer"@,
        "consume"@ != "move"@,
        "consume"@ != "raise"@,
        "consume"@ != "lower"@,
        "use"@ != "work"@,
        "use"@ != "cite"@,
        "use"@ != "produce"@,
        "use"@ != "accept"@,
        "use"@ != "modify"@,
        "use"@ != "pass"@,
        "use"@ != "fail"@,
        "use"@ != "deliver_service"@,
        "use"@ != "transfer_all_rights"@,
        "use"@ != "transfer_custody"@,
        "use"@ != "transfer"@,
        "use"@ != "move"@,
        "use"@ != "raise"@,
        "use"@ != "lower"@,
        "work"@ != "cite"@,
        "work"@ != "produce"@,
        "work"@ != "accept"@,
        "work"@ != "modify"@,
        "work"@ != "pass"@,
        "work"@ != "fail"@,
        "work"@ != "deliver_service"@,
        "work"@ != "transfer_all_rights"@,
        "work"@ != "transfer_custody"@,
        "work"@ != "transfer"@,
        "work"@ != "move"@,
        "work"@ != "raise"@,
        "work"@ != "lower"@,
        "cite"@ != "produce"@,
        "cite"@ != "accept"@,
        "cite"@ != "modify"@,
        "cite"@ != "pass"@,
        "cite"@ != "fail"@,
        "cite"@ != "deliver_service"@,
        "cite"@ != "transfer_all_rights"@,
        "cite"@ != "transfer_custody"@,
        "cite"@ != "transfer"@,
        "cite"@ != "move"@,
        "cite"@ != "raise"@,
        "cite"@ != "lower"@,
        "produce"@ != "accept"@,
        "produce"@ != "modify"@,
        "produce"@ != "pass"@,
        "produce"@ != "fail"@,
        "produce"@ != "deliver_service"@,
        "produce"@ != "transfer_all_rights"@,
        "produce"@ != "transfer_custody"@,
        "produce"@ != "transfer"@,
        "produce"@ != "move"@,
        "produce"@ != "raise"@,
        "produce"@ != "lower"@,
        "accept"@ != "modify"@,
        "accept"@ != "pass"@,
        "accept"@ != "fail"@,
        "accept"@ != "deliver_service"@,
        "accept"@ != "transfer_all_rights"@,
        "accept"@ != "transfer_custody"@,
        "accept"@ != "transfer"@,
        "accept"@ != "move"@,
        "accept"@ != "raise"@,
        "accept"@ != "lower"@,
        "modify"@ != "pass"@,
        "modify"@ != "fail"@,
        "modify"@ != "deliver_service"@,
        "modify"@ != "transfer_all_rights"@,
        "modify"@ != "transfer_custody"@,
        "modify"@ != "transfer"@,
        "modify"@ != "move"@,
        "modify"@ != "raise"@,
        "modify"@ != "lower"@,
        "pass"@ != "fail"@,
        "pass"@ != "deliver_service"@,
        "pass"@ != "transfer_all_rights"@,
        "pass"@ != "transfer_custody"@,
        "pass"@ != "transfer"@,
        "pass"@ != "move"@,
        "pass"@ != "raise"@,
        "pass"@ != "lower"@,
        "fail"@ != "deliver_service"@,
        "fail"@ != "transfer_all_rights"@,
        "fail"@ != "transfer_custody"@,
        "fail"@ != "transfer"@,
        "fail"@ != "move"@,
        "fail"@ != "raise"@,
        "fail"@ != "lower"@,
        "deliver_service"@ != "transfer_all_rights"@,
        "deliver_service"@ != "transfer_custody"@,
        "deliver_service"@ != "transfer"@,
        "deliver_service"@ != "move"@,
        "deliver_service"@ != "raise"@,
        "deliver_service"@ != "lower"@,
        "transfer_all_rights"@ != "transfer_custody"@,
        "transfer_all_rights"@ != "transfer"@,
        "transfer_all_rights"@ != "move"@,
        "transfer_all_rights"@ != "raise"@,
        "transfer_all_rights"@ != "lower"@,
        "transfer_custody"@ != "transfer"@,
        "transfer_custody"@ != "move"@,
        "transfer_custody"@ != "raise"@,
        "transfer_custody"@ != "lower"@,
        "transfer"@ != "move"@,
        "transfer"@ != "raise"@,
        "transfer"@ != "lower"@,
        "move"@ != "raise"@,
        "move"@ != "lower"@,
        "raise"@ != "lower"@,
{
    reveal_strlit("dropoff");
    reveal_strlit("pickup");
    reveal_strlit("consume");
    reveal_strlit("use");
    reveal_strlit("work");
    reveal_strlit("cite");
    reveal_strlit("produce");
    reveal_strlit("accept");
    reveal_strlit("modify");
    reveal_strlit("pass");
    reveal_strlit("fail");
    reveal_strlit("deliver_service");
    reveal_strlit("transfer_all_rights");
    reveal_strlit("transfer_custody");
    reveal_strlit("transfer");
    reveal_strlit("move");
    reveal_strlit("raise");
    reveal_strlit("lower");
    assert(normalized_key("dropoff"@) =~= "dropoff"@);
    assert(normalized_key("pickup"@) =~= "pickup"@);
    assert(normalized_key("consume"@) =~= "consume"@);
    assert(normalized_key("use"@) =~= "use"@);
    assert(normalized_key("work"@) =~= "work"@);
    assert(normalized_key("cite"@) =~= "cite"@);
    assert(normalized_key("produce"@) =~= "produce"@);
    assert(normalized_key("accept"@) =~= "accept"@);
    assert(normalized_key("modify"@) =~= "modify"@);
    assert(normalized_key("pass"@) =~= "pass"@);
    assert(normalized_key("fail"@) =~= "fail"@);
    assert(normalized_key("deliver_service"@) =~= "deliver_service"@);
    assert(normalized_key("transfer_all_rights"@) =~= "transfer_all_rights"@);
    assert(normalized_key("transfer_custody"@) =~= "transfer_custody"@);
    assert(normalized_key("transfer"@) =~= "transfer"@);
    assert(normalized_key("move"@) =~= "move"@);
    assert(normalized_key("raise"@) =~= "raise"@);
    assert(normalized_key("lower"@) =~= "lower"@);
    assert("dropoff"@[0] != "consume"@[0]);
    assert("dropoff"@[0] != "produce"@[0]);
    assert("pickup"@[0] != "accept"@[0]);
    assert("pickup"@[0] != "modify"@[0]);
    assert("consume"@[0] != "produce"@[0]);
    assert("work"@[0] != "cite"@[0]);
    assert("work"@[0] != "pass"@[0]);
    assert("work"@[0] != "fail"@[0]);
    assert("work"@[0] != "move"@[0]);
    assert("cite"@[0] != "pass"@[0]);
    assert("cite"@[0] != "fail"@[0]);
    assert("cite"@[0] != "move"@[0]);
    assert("accept"@[0] != "modify"@[0]);
    assert("pass"@[0] != "fail"@[0]);
    assert("pass"@[0] != "move"@[0]);
    assert("fail"@[0] != "move"@[0]);
    assert("raise"@[0] != "lower"@[0]);
}

/// Every listed action is the one that is found under its own `id`, and
/// the list holds one action for each name that is known.
pub proof fn listed_actions_are_found()
    ensures
        all_builtin_actions().len() == 18,
        forall|i: int|
            0 <= i < all_builtin_actions().len() ==> builtin_action(
                normalized_key(#[trigger] all_builtin_actions()[i].id),
            ) == Some(all_builtin_actions()[i]),
{
    reveal_builtin_names();
    reveal_strlit("deliver_service");
    reveal_strlit("transfer_all_rights");
    reveal_strlit("transfer_custody");
    reveal_strlit("deliver-service");
    reveal_strlit("transfer-all-rights");
    reveal_strlit("transfer-custody");
    assert(normalized_key("deliver-service"@) =~= "deliver_service"@);
    assert(normalized_key("transfer-all-rights"@) =~= "transfer_all_rights"@);
    assert(normalized_key("transfer-custody"@) =~= "transfer_custody"@);
    let listed = all_builtin_actions();
    assert(builtin_action(normalized_key(listed[0].id)) == Some(listed[0]));
    assert(builtin_action(normalized_key(listed[1].id)) == Some(listed[1]));
    assert(builtin_action(normalized_key(listed[2].id)) == Some(listed[2]));
    assert(builtin_action(normalized_key(listed[3].id)) == Some(listed[3]));
    assert(builtin_action(normalized_key(listed[4].id)) == Some(listed[4]));
    assert(builtin_action(normalized_key(listed[5].id)) == Some(listed[5]));
    assert(builtin_action(normalized_key(listed[6].id)) == Some(listed[6]));
    assert(builtin_action(normalized_key(listed[7].id)) == Some(listed[7]));
    assert(builtin_action(normalized_key(listed[8].id)) == Some(listed[8]));
    assert(builtin_action(normalized_key(listed[9].id)) == Some(listed[9]));
    assert(builtin_action(normalized_key(listed[10].id)) == Some(listed[10]));
    assert(builtin_action(normalized_key(listed[11].id)) == Some(listed[11]));
    assert(builtin_action(normalized_key(listed[12].id)) == Some(listed[12]));
    assert(builtin_action(normalized_key(listed[13].id)) == Some(listed[13]));
    assert(builtin_action(normalized_key(listed[14].id)) == Some(listed[14]));
    assert(builtin_action(normalized_key(listed[15].id)) == Some(listed[15]));
    assert(builtin_action(normalized_key(listed[16].id)) == Some(listed[16]));
    assert(builtin_action(normalized_key(listed[17].id)) == Some(listed[17]));
}

/// All built-in actions, in the order in which they are listed.
pub fn get_all_builtin_actions() -> (actions: Vec<Action>)
    ensures
        action_views(actions@) == all_builtin_actions(),
{
    proof {
        reveal_builtin_names();
    }
    let mut actions: Vec<Action> = Vec::new();
    actions.push(get_builtin_action("dropoff").unwrap());
    actions.push(get_builtin_action("pickup").unwrap());
    actions.push(get_builtin_action("consume").unwrap());
    actions.push(get_builtin_action("use").unwrap());
    actions.push(get_builtin_action("work").unwrap());
    actions.push(get_builtin_action("cite").unwrap());
    actions.push(get_builtin_action("produce").unwrap());
    actions.push(get_builtin_action("accept").unwrap());
    actions.push(get_builtin_action("modify").unwrap());
    actions.push(get_builtin_action("pass").unwrap());
    actions.push(get_builtin_action("fail").unwrap());
    actions.push(get_builtin_action("deliver_service").unwrap());
    actions.push(get_builtin_action("transfer_all_rights").unwrap());
    actions.push(get_builtin_action("transfer_custody").unwrap());
    actions.push(get_builtin_action("transfer").unwrap());
    actions.push(get_builtin_action("move").unwrap());
    actions.push(get_builtin_action("raise").unwrap());
    actions.push(get_builtin_action("lower").unwrap());
    assert(action_views(actions@) =~= all_builtin_actions());
    actions
}

} // verus!
