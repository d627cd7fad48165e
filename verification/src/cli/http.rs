use vstd::prelude::*;

verus! {

/// Options of the static file server subcommand.
#[derive(Debug)]
pub struct HttpServeOpts {
    /// Directory served; validated by `parse_path` before it is accepted.
    pub dir: String,
    pub port: u16,
}

/// The HTTP subcommands.
#[derive(Debug)]
pub enum HttpSubCommand {
    Serve(HttpServeOpts),
}

} // verus!
