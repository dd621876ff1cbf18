//! What the command line asks for.

use vstd::prelude::*;
use crate::acquire::{acquisition_of, plan_acquisition, Acquisition};

verus! {

/// The subcommands.
#[derive(Debug, PartialEq, Eq)]
pub enum Command {
    /// Runs a review on the repository at `url`; with `skip_clone` the
    /// repository is taken to be there already.
    Review { url: String, skip_clone: bool },
}

/// The arguments of one invocation.
#[derive(Debug, PartialEq, Eq)]
pub struct Args {
    pub command: Command,
}

impl Command {
    /// The URL of the repository that the command is about.
    pub open spec fn url(&self) -> Seq<char> {
        match self {
            Command::Review { url, .. } => url@,
        }
    }

    /// Whether the command asks to skip the clone.
    pub open spec fn skips_clone(&self) -> bool {
        match self {
            Command::Review { skip_clone, .. } => *skip_clone,
        }
    }

    /// How the repository that the command is about is got hold of.
    pub fn acquisition(&self) -> (plan: Acquisition)
        ensures
            plan@ == acquisition_of(self.url(), self.skips_clone()),
    {
        match self {
            Command::Review { url, skip_clone } => plan_acquisition(url.as_str(), *skip_clone),
        }
    }
}

} // verus!
