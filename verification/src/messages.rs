//! The texts of the error messages.

use vstd::prelude::*;
use vstd::string::*;

verus! {

pub open spec fn invalid_pagination_text() -> Seq<char> {
    "Invalid pagination parameters"@
}

pub open spec fn not_found_text() -> Seq<char> {
    "Agent not found"@
}

pub open spec fn duplicate_text(agent_name: Seq<char>) -> Seq<char> {
    "A bot with the same address already exists: "@ + agent_name
}

pub open spec fn check_failed_text(cause: Seq<char>) -> Seq<char> {
    "Error checking existing bot: "@ + cause
}

pub open spec fn insert_failed_text(cause: Seq<char>) -> Seq<char> {
    "Failed to add bot: "@ + cause
}

pub open spec fn database_error_text(cause: Seq<char>) -> Seq<char> {
    "Database error: "@ + cause
}

pub fn invalid_pagination() -> (message: String)
    ensures
        message@ == invalid_pagination_text(),
{
    String::from_str("Invalid pagination parameters")
}

pub fn not_found() -> (message: String)
    ensures
        message@ == not_found_text(),
{
    String::from_str("Agent not found")
}

/// The message of a rejected registration; it names the agent that already
/// holds the address.
pub fn duplicate(agent_name: &str) -> (message: String)
    ensures
        message@ == duplicate_text(agent_name@),
{
    String::from_str("A bot with the same address already exists: ").concat(agent_name)
}

pub fn check_failed(cause: &str) -> (message: String)
    ensures
        message@ == check_failed_text(cause@),
{
    String::from_str("Error checking existing bot: ").concat(cause)
}

pub fn insert_failed(cause: &str) -> (message: String)
    ensures
        message@ == insert_failed_text(cause@),
{
    String::from_str("Failed to add bot: ").concat(cause)
}

pub fn database_error(cause: &str) -> (message: String)
    ensures
        message@ == database_error_text(cause@),
{
    String::from_str("Database error: ").concat(cause)
}

} // verus!
