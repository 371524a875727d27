//! How the adapter authenticates against the broker.

use vstd::prelude::*;

verus! {

/// Authentication applied once at client construction: either anonymous, or
/// a username/password pair.
#[derive(Debug, Clone, PartialEq, Eq)]
pub enum AuthMode {
    Anonymous,
    UsernamePassword { username: String, password: String },
}

} // verus!
