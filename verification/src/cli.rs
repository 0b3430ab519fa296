use vstd::prelude::*;

verus! {

/// The viewer's command-line options.
pub struct CliArgs {
    /// The full name of a video capture device, if one was given.
    pub source: Option<String>,
    /// Whether to print debug output.
    pub debug: bool,
}

} // verus!
