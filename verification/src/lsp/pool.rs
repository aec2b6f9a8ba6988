//! Which language servers can be started on this machine.

use crate::run_plan::spawn::which_path;
use vstd::prelude::*;

verus! {

/// Whether `binary` is found on `$PATH`. The answer depends on the machine;
/// nothing is promised of it.
pub fn is_binary_available(binary: &str) -> bool {
    which_path(binary).is_some()
}

} // verus!
