//! The decision rules of `seaplane init`.
//!
//! Initialization creates the configuration file and the local state file.
//! Whether an already existing file is rewritten depends on how the run was
//! entered and on the `--force` and `--overwrite` flags; the file writes
//! themselves are the caller's concern.

use vstd::prelude::*;

verus! {

/// Whether an init run writes a given file.
///
/// A file is left alone only when it already exists, the run is a real
/// `seaplane init` (neither an automatic first-run initialization nor an
/// internal one), `--force` was not given, and no `--overwrite` selection
/// was given at all.  Any explicit `--overwrite` selection rewrites every
/// file, whether the selection names it or not; the selection's items only
/// decide what the messages say.
pub fn should_write_file(
    exists: bool,
    did_init: bool,
    internal_run: bool,
    force: bool,
    overwrite: &Vec<String>,
) -> (r: bool)
    ensures
        r == !(exists && !did_init && !internal_run && !force && overwrite@.len() == 0),
{
    !(exists && !(did_init || internal_run) && !force && overwrite.len() == 0)
}

} // verus!
