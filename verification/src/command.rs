//! Building the process-invocation descriptor for the resolved binary.

use vstd::prelude::*;

use crate::resolver::BinarySettings;
use crate::resolver::WikitextExtension;
use crate::resolver::resolution_error;
use crate::resolver::settings_args_view;
use crate::resolver::settings_path_view;
use crate::resolver::spec_resolve;

verus! {

/// The process-invocation descriptor handed back to the host: the
/// command to run, its argument list, and its environment variables.
#[derive(Debug)]
pub struct CommandDescriptor {
    pub command: String,
    pub args: Vec<String>,
    pub env: Vec<(String, String)>,
}

/// The argument list used when the settings configure none.
pub open spec fn default_args() -> Seq<Seq<char>> {
    seq!["--stdio"@]
}

/// Model of the command builder's argument choice: the configured list,
/// or `["--stdio"]` when none was configured.
pub open spec fn spec_command_args(args: Option<Seq<Seq<char>>>) -> Seq<Seq<char>> {
    match args {
        Some(a) => a,
        None => default_args(),
    }
}

impl WikitextExtension {
    /// Build the descriptor the host uses to spawn the language server.
    ///
    /// Resolves the binary as [`Self::language_server_binary`] does, then
    /// wraps it: the command is the resolved (never empty) path, the
    /// arguments are the configured list or `["--stdio"]` when none was
    /// configured, and the environment is empty. The resolver's error
    /// propagates unchanged.
    pub fn language_server_command(
        &self,
        binary_settings: Option<BinarySettings>,
        which_path: Option<String>,
        cached_is_file: bool,
    ) -> (r: Result<CommandDescriptor, String>)
        ensures
            ({
                let expected = spec_resolve(
                    settings_path_view(binary_settings),
                    settings_args_view(binary_settings),
                    which_path.deep_view(),
                    self.cached_binary_path.deep_view(),
                    cached_is_file,
                );
                match expected {
                    Some(m) => r is Ok && r->Ok_0.command@ == m.0
                        && r->Ok_0.args.deep_view() == spec_command_args(m.1)
                        && r->Ok_0.env@.len() == 0,
                    None => r is Err && r->Err_0@ == resolution_error(),
                }
            }),
            r is Ok ==> r->Ok_0.command@.len() > 0,
    {
        let binary = match self.language_server_binary(
            binary_settings,
            which_path,
            cached_is_file,
        ) {
            Ok(b) => b,
            Err(e) => {
                return Err(e);
            },
        };
        let args: Vec<String> = match binary.args {
            Some(a) => a,
            None => {
                let mut v: Vec<String> = Vec::new();
                v.push(String::from_str("--stdio"));
                proof {
                    assert(v.deep_view() =~= default_args());
                }
                v
            },
        };
        Ok(CommandDescriptor { command: binary.path, args, env: Vec::new() })
    }
}

} // verus!
