//! Verified routing of the program's positional arguments to an
//! acquisition strategy.
//!
//! One positional argument is either a filesystem path to an executable (the
//! launch strategy) or, when preceded by a `-p` flag, a textual process
//! identifier (the attach strategy).

use vstd::prelude::*;

use crate::command::str_eq;

verus! {

/// Which acquisition strategy the arguments select, with the value it
/// applies to.
pub enum AcquisitionPlan {
    /// Attach to the running process named by this textual identifier.
    AttachTo(String),
    /// Launch the executable at this path and trace it.
    LaunchPath(String),
}

/// Chooses the acquisition strategy: `<flag> <identifier>` with the flag
/// `-p` and exactly those two arguments selects attach; anything else
/// selects launch of the first argument.
pub fn select_acquisition(args: &Vec<String>) -> (r: AcquisitionPlan)
    requires
        args@.len() >= 2,
    ensures
        (args@.len() == 3 && args@[1]@ == "-p"@) ==> r is AttachTo && r->AttachTo_0@
            == args@[2]@,
        !(args@.len() == 3 && args@[1]@ == "-p"@) ==> r is LaunchPath && r->LaunchPath_0@
            == args@[1]@,
{
    if args.len() == 3 && str_eq(args[1].as_str(), "-p") {
        AcquisitionPlan::AttachTo(args[2].as_str().to_owned())
    } else {
        AcquisitionPlan::LaunchPath(args[1].as_str().to_owned())
    }
}

} // verus!
