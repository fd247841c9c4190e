//! Discovery and launch configuration for the `wikitext-lsp` language
//! server: resolves the binary's path from an ordered chain of sources
//! (explicit settings, search path, cached path) and builds the process
//! descriptor the editor host uses to start it.

mod command;
mod resolver;

pub use command::CommandDescriptor;
pub use command::default_args;
pub use command::spec_command_args;
pub use resolver::BinarySettings;
pub use resolver::WikitextExtension;
pub use resolver::WikitextLspBinary;
pub use resolver::lemma_cache_wins_as_last_source;
pub use resolver::lemma_resolution_fails_iff_all_sources_fail;
pub use resolver::lemma_resolved_path_comes_from_a_source;
pub use resolver::lemma_search_path_wins_without_settings;
pub use resolver::lemma_settings_path_wins;
pub use resolver::lemma_success_path_nonempty;
pub use resolver::resolution_error;
pub use resolver::resolution_error_message;
pub use resolver::settings_args_view;
pub use resolver::settings_path_view;
pub use resolver::settings_yield_path;
pub use resolver::source_yields_path;
pub use resolver::spec_resolve;
pub use resolver::yields_path;
