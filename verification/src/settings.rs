//! Translation of keybinding-configuration entries to logical actions.
//!
//! The configuration file itself is read and parsed by an external
//! collaborator; this module maps the action names it yields onto the
//! input surface the gameplay systems consume.

use vstd::prelude::*;

use crate::components_events::{str_eq, Action};

verus! {

/// Maps an action name from the keybinding configuration to the logical
/// action it stands for.  Unrecognized names degrade to `Unused` rather
/// than failing.
pub fn string_to_action(string: &str) -> (action: Action)
    ensures
        string@ == "Up"@ ==> action == Action::Up,
        string@ == "Down"@ ==> action == Action::Down,
        string@ == "Left"@ ==> action == Action::Left,
        string@ == "Right"@ ==> action == Action::Right,
        string@ == "Split"@ ==> action == Action::Split,
        string@ == "Interact"@ ==> action == Action::Interact,
        string@ == "CycleForward"@ ==> action == Action::CycleForward,
        string@ == "CycleBackward"@ ==> action == Action::CycleBackward,
        string@ != "Up"@ && string@ != "Down"@ && string@ != "Left"@ && string@ != "Right"@
            && string@ != "Split"@ && string@ != "Interact"@ && string@ != "CycleForward"@
            && string@ != "CycleBackward"@ ==> action == Action::Unused,
{
    proof {
        reveal_strlit("Up");
        reveal_strlit("Down");
        reveal_strlit("Left");
        reveal_strlit("Right");
        reveal_strlit("Split");
        reveal_strlit("Interact");
        reveal_strlit("CycleForward");
        reveal_strlit("CycleBackward");
        assert("Up"@.len() == 2);
        assert("Down"@.len() == 4);
        assert("Left"@.len() == 4);
        assert("Right"@.len() == 5);
        assert("Split"@.len() == 5);
        assert("Interact"@.len() == 8);
        assert("CycleForward"@.len() == 12);
        assert("CycleBackward"@.len() == 13);
        assert("Down"@[0] == 'D' && "Left"@[0] == 'L');
        assert("Down"@ != "Left"@);
        assert("Right"@[0] == 'R' && "Split"@[0] == 'S');
        assert("Right"@ != "Split"@);
    }
    if str_eq(string, "Up") {
        Action::Up
    } else if str_eq(string, "Down") {
        Action::Down
    } else if str_eq(string, "Left") {
        Action::Left
    } else if str_eq(string, "Right") {
        Action::Right
    } else if str_eq(string, "Split") {
        Action::Split
    } else if str_eq(string, "Interact") {
        Action::Interact
    } else if str_eq(string, "CycleForward") {
        Action::CycleForward
    } else if str_eq(string, "CycleBackward") {
        Action::CycleBackward
    } else {
        Action::Unused
    }
}

} // verus!
