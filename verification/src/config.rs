//! Command-line configuration, as plain data.

use vstd::prelude::*;

verus! {

/// The flags the server accepts on its command line.
#[derive(Debug, Clone, Copy, PartialEq, Eq, Structural)]
pub struct Args {
    /// prints routes as json
    pub get_routes: bool,
}

} // verus!
