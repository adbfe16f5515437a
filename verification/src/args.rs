//! Process configuration, handed in by the surrounding command-line layer.

use vstd::prelude::*;

verus! {

/// Values the process is started with. The command-line layer parses and
/// validates them; the core only reads them.
pub struct Args {
    /// Path of the environment file holding key/value configuration.
    pub env: String,
}

} // verus!
