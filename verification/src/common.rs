//! What the resources of the service have in common.

use vstd::prelude::*;

verus! {

/// The identifier that the service gives to a resource: a short text.
pub type Id = String;

/// The names of a game or of a user.
#[derive(Debug, PartialEq, Eq)]
pub struct Names {
    pub international: String,
    pub japanese: Option<String>,
    pub twitch: Option<String>,
}

} // verus!
