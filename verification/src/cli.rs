use vstd::prelude::*;

verus! {

/// The port the server listens on when no other port is configured.
pub const DEFAULT_PORT: u16 = 7878;

/// Process configuration: the one configurable behavior is the listening
/// port of the server that exposes snapshots.
#[derive(Clone, Copy, Debug, PartialEq, Eq, Structural)]
pub struct Args {
    /// The port the server listens on.
    pub port: u16,
}

impl Default for Args {
    /// The default configuration listens on port 7878.
    fn default() -> (args: Args)
        ensures
            args.port == DEFAULT_PORT,
    {
        Args { port: DEFAULT_PORT }
    }
}

} // verus!
