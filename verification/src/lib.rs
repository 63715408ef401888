//! Core of a tool that runs the steps of a key ceremony.
//!
//! Every step that would touch the machine (run a program, create or remove a
//! directory, read a file) is described here as data. A step function returns
//! a [`steps::Step`]: what to tell the operator now, and either the final
//! result or one request for the host together with the state to resume from.
//! The host performs the request and hands the answer back. In a dry run no
//! step ever asks the host for anything.

use vstd::prelude::*;

pub mod digests;
pub mod errors;
pub mod laws;
pub mod steps;
pub mod system;

verus! {

/// The texts of a list of string slices.
pub open spec fn texts(items: Seq<&str>) -> Seq<Seq<char>> {
    Seq::new(items.len(), |i: int| items[i]@)
}

/// There is one `Context` per run of the tool. Every step takes it and looks
/// at its dry-run flag before it asks for anything to be done.
pub struct Context {
    dry_run: bool,
}

impl Context {
    /// Whether this run only shows what it would do.
    pub closed spec fn spec_dry_run(&self) -> bool {
        self.dry_run
    }

    /// A context whose dry-run flag is fixed from here on.
    pub fn new(dry_run: bool) -> (context: Self)
        ensures
            context.dry_run() == dry_run,
    {
        Context { dry_run }
    }

    /// Whether this run only shows what it would do.
    #[verifier::when_used_as_spec(spec_dry_run)]
    pub fn dry_run(&self) -> (flag: bool)
        ensures
            flag == self.dry_run(),
    {
        self.dry_run
    }
}

} // verus!
