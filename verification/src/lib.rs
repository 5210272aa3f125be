//! A verified core for a stdio bridge: a long-lived process that sits between
//! a scripting coprocess and the operating system, speaking a newline-delimited
//! JSON request/response protocol.
//!
//! The library holds the logic of the bridge: the JSON value model and its
//! wire text, the command set and its dispatch decisions, the launch
//! descriptor for subprocess redirection, the registry of spawned children,
//! and the protocol envelope. The operating-system calls themselves (files,
//! processes, environment) are performed by the thin unverified front end,
//! which hands their outcomes back to the verified dispatcher.

use vstd::prelude::*;

pub mod json;
pub mod registry;
pub mod descriptor;
pub mod error;
pub mod command;
pub mod dispatch;
pub mod bridge;
pub mod laws;

verus! {

/// Exit code reported when a child process has no exit status of its own
/// (it was terminated by a signal); also used for the bridge's final exit
/// code when the peer's status is unavailable.
pub const NONE_EXIT_CODE: i32 = 250;

/// Reads an optional boolean flag as "explicitly set to true".
pub trait IsTrue {
    spec fn spec_is_true(&self) -> bool;

    fn is_true(&self) -> (r: bool)
        ensures
            r == self.spec_is_true(),
    ;
}

/// Reads an optional boolean flag as "absent or set to false".
pub trait IsFalse {
    spec fn spec_is_false(&self) -> bool;

    fn is_false(&self) -> (r: bool)
        ensures
            r == self.spec_is_false(),
    ;
}

impl IsTrue for Option<bool> {
    open spec fn spec_is_true(&self) -> bool {
        *self == Some(true)
    }

    fn is_true(&self) -> (r: bool) {
        match self {
            Some(b) => *b,
            None => false,
        }
    }
}

impl IsFalse for Option<bool> {
    open spec fn spec_is_false(&self) -> bool {
        *self != Some(true)
    }

    fn is_false(&self) -> (r: bool) {
        match self {
            Some(b) => !*b,
            None => true,
        }
    }
}

} // verus!
