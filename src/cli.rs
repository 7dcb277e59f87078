use vstd::prelude::*;

use crate::error::Error;

verus! {

/// The message of the error given when no CLI definition is configured.
pub const CLI_NOT_CONFIGURED: &'static str = "CLI definition not set under tauri.conf.json > tauri > cli (https://tauri.studio/docs/api/config#tauri.cli)";

/// The commands of the CLI module that a front end can invoke.
#[derive(Clone, Copy, Debug, PartialEq, Eq)]
pub enum Cmd {
    /// Asks for the matches of the process arguments against the CLI definition.
    CliMatches,
}

impl Cmd {
    /// `Ok` when the configuration declares a CLI definition, so that its
    /// matches can be computed; else `ApiNotAllowlisted`, with the message
    /// `CLI_NOT_CONFIGURED`.
    pub fn check_configured(&self, cli_configured: bool) -> (r: Result<(), Error>)
        ensures
            r is Ok <==> cli_configured,
            r matches Err(e) ==> e matches Error::ApiNotAllowlisted(m) && m@ == CLI_NOT_CONFIGURED@,
    {
        if cli_configured {
            Ok(())
        } else {
            Err(Error::ApiNotAllowlisted(CLI_NOT_CONFIGURED.to_owned()))
        }
    }
}

} // verus!
