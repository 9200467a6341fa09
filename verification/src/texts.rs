//! The engine's user-visible message texts, built by verified concatenation.

use vstd::prelude::*;
use vstd::string::StringExecFns;

verus! {

/// "{name} joined the mission"
pub fn join_message(name: &str) -> (r: String)
    ensures
        r@ == name@ + " joined the mission"@,
{
    String::from_str(name).concat(" joined the mission")
}

/// "{name} left the mission"
pub fn leave_message(name: &str) -> (r: String)
    ensures
        r@ == name@ + " left the mission"@,
{
    String::from_str(name).concat(" left the mission")
}

/// "{name} was kicked from the mission"
pub fn kick_message(name: &str) -> (r: String)
    ensures
        r@ == name@ + " was kicked from the mission"@,
{
    String::from_str(name).concat(" was kicked from the mission")
}

/// "{name} was invited to the mission"
pub fn invite_message(name: &str) -> (r: String)
    ensures
        r@ == name@ + " was invited to the mission"@,
{
    String::from_str(name).concat(" was invited to the mission")
}

/// "{name} joined the mission via invite"
pub fn invite_accept_message(name: &str) -> (r: String)
    ensures
        r@ == name@ + " joined the mission via invite"@,
{
    String::from_str(name).concat(" joined the mission via invite")
}

/// "{member} earned achievement: {achievement}"
pub fn award_message(member: &str, achievement: &str) -> (r: String)
    ensures
        r@ == member@ + " earned achievement: "@ + achievement@,
{
    String::from_str(member).concat(" earned achievement: ").concat(achievement)
}

/// "Mission started: {name}"
pub fn started_message(name: &str) -> (r: String)
    ensures
        r@ == "Mission started: "@ + name@,
{
    String::from_str("Mission started: ").concat(name)
}

/// "Mission completed: {name}"
pub fn completed_message(name: &str) -> (r: String)
    ensures
        r@ == "Mission completed: "@ + name@,
{
    String::from_str("Mission completed: ").concat(name)
}

/// "Mission failed: {name}"
pub fn failed_message(name: &str) -> (r: String)
    ensures
        r@ == "Mission failed: "@ + name@,
{
    String::from_str("Mission failed: ").concat(name)
}

/// "Someone joined your mission: {name}"
pub fn chief_join_notice(name: &str) -> (r: String)
    ensures
        r@ == "Someone joined your mission: "@ + name@,
{
    String::from_str("Someone joined your mission: ").concat(name)
}

/// "You were kicked from mission: {name}"
pub fn kicked_notice(name: &str) -> (r: String)
    ensures
        r@ == "You were kicked from mission: "@ + name@,
{
    String::from_str("You were kicked from mission: ").concat(name)
}

/// "Mission '{name}' is now In Progress!"
pub fn started_notice(name: &str) -> (r: String)
    ensures
        r@ == "Mission '"@ + name@ + "' is now In Progress!"@,
{
    String::from_str("Mission '").concat(name).concat("' is now In Progress!")
}

/// "Mission '{name}' has been completed!"
pub fn completed_notice(name: &str) -> (r: String)
    ensures
        r@ == "Mission '"@ + name@ + "' has been completed!"@,
{
    String::from_str("Mission '").concat(name).concat("' has been completed!")
}

/// "Mission '{name}' has failed."
pub fn failed_notice(name: &str) -> (r: String)
    ensures
        r@ == "Mission '"@ + name@ + "' has failed."@,
{
    String::from_str("Mission '").concat(name).concat("' has failed.")
}

} // verus!
