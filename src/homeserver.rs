use vstd::prelude::*;

verus! {

/// Where to look for the homeserver.
#[derive(Clone, Debug, PartialEq, Eq)]
pub enum HomeserverConfig {
    /// A bare domain (`matrix.org`), resolved through its well-known document.
    ServerName(String),
    /// A base URL that is checked directly.
    ServerUrl(String),
}

/// A homeserver whose base URL answered the versions check.
#[derive(Clone, Debug, PartialEq, Eq)]
pub struct Homeserver {}

} // verus!
