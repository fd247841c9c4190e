//! Tests for the binary-resolution chain and the command builder.

use wikitext_extension::BinarySettings;
use wikitext_extension::WikitextExtension;
use wikitext_extension::settings_yield_path;
use wikitext_extension::source_yields_path;

const ERROR_MESSAGE: &str =
    "Failed to find wikitext-lsp on PATH. Make sure to install it through node.";

fn extension_with_cache(path: Option<&str>) -> WikitextExtension {
    WikitextExtension { cached_binary_path: path.map(|p| p.to_string()) }
}

fn settings(path: Option<&str>, arguments: Option<Vec<&str>>) -> BinarySettings {
    BinarySettings {
        path: path.map(|p| p.to_string()),
        arguments: arguments.map(|args| args.into_iter().map(|a| a.to_string()).collect()),
    }
}

#[test]
fn settings_path_wins_over_search_path_and_cache() {
    let ext = extension_with_cache(Some("/cache/wikitext-lsp"));
    let r = ext
        .language_server_binary(
            Some(settings(Some("/x/y"), Some(vec!["--a", "--b"]))),
            Some("/usr/bin/wikitext-lsp".to_string()),
            true,
        )
        .unwrap();
    assert_eq!(r.path, "/x/y");
    assert_eq!(r.args, Some(vec!["--a".to_string(), "--b".to_string()]));
}

#[test]
fn settings_path_wins_without_arguments() {
    let ext = extension_with_cache(None);
    let r = ext
        .language_server_binary(Some(settings(Some("/x/y"), None)), None, false)
        .unwrap();
    assert_eq!(r.path, "/x/y");
    assert_eq!(r.args, None);
}

#[test]
fn search_path_used_when_settings_lack_path() {
    let ext = extension_with_cache(None);
    let r = ext
        .language_server_binary(
            Some(settings(None, None)),
            Some("/usr/bin/wikitext-lsp".to_string()),
            false,
        )
        .unwrap();
    assert_eq!(r.path, "/usr/bin/wikitext-lsp");
    assert_eq!(r.args, None);
}

#[test]
fn search_path_hit_keeps_settings_arguments() {
    let ext = extension_with_cache(Some("/cache/wikitext-lsp"));
    let r = ext
        .language_server_binary(
            Some(settings(None, Some(vec!["--verbose"]))),
            Some("/usr/bin/wikitext-lsp".to_string()),
            true,
        )
        .unwrap();
    assert_eq!(r.path, "/usr/bin/wikitext-lsp");
    assert_eq!(r.args, Some(vec!["--verbose".to_string()]));
}

#[test]
fn cache_used_when_settings_and_search_path_fail() {
    let ext = extension_with_cache(Some("/opt/tools/wikitext-lsp"));
    let r = ext.language_server_binary(None, None, true).unwrap();
    assert_eq!(r.path, "/opt/tools/wikitext-lsp");
    assert_eq!(r.args, None);
}

#[test]
fn stale_cache_fails_resolution() {
    let ext = extension_with_cache(Some("/gone/wikitext-lsp"));
    let r = ext.language_server_binary(None, None, false);
    assert_eq!(r.unwrap_err(), ERROR_MESSAGE);
}

#[test]
fn no_source_fails_resolution() {
    let ext = extension_with_cache(None);
    let r = ext.language_server_binary(None, None, false);
    assert_eq!(r.unwrap_err(), ERROR_MESSAGE);
}

#[test]
fn missing_settings_block_behaves_like_empty_settings() {
    let ext = extension_with_cache(None);
    let r = ext.language_server_binary(
        Some(settings(None, None)),
        None,
        false,
    );
    assert_eq!(r.unwrap_err(), ERROR_MESSAGE);
}

#[test]
fn empty_settings_path_is_passed_over() {
    let ext = extension_with_cache(None);
    let r = ext
        .language_server_binary(
            Some(settings(Some(""), Some(vec!["--a"]))),
            Some("/usr/bin/wikitext-lsp".to_string()),
            false,
        )
        .unwrap();
    assert_eq!(r.path, "/usr/bin/wikitext-lsp");
    assert_eq!(r.args, Some(vec!["--a".to_string()]));
}

#[test]
fn empty_search_path_answer_is_passed_over() {
    let ext = extension_with_cache(Some("/opt/tools/wikitext-lsp"));
    let r = ext
        .language_server_binary(None, Some("".to_string()), true)
        .unwrap();
    assert_eq!(r.path, "/opt/tools/wikitext-lsp");
}

#[test]
fn all_sources_empty_fails_resolution() {
    let ext = extension_with_cache(Some(""));
    let r = ext.language_server_binary(
        Some(settings(Some(""), None)),
        Some("".to_string()),
        true,
    );
    assert_eq!(r.unwrap_err(), ERROR_MESSAGE);
}

#[test]
fn settings_yield_path_only_for_nonempty_paths() {
    assert!(settings_yield_path(&Some(settings(Some("/x/y"), None))));
    assert!(!settings_yield_path(&Some(settings(Some(""), None))));
    assert!(!settings_yield_path(&Some(settings(None, None))));
    assert!(!settings_yield_path(&None));
}

#[test]
fn source_yields_path_only_for_nonempty_answers() {
    assert!(source_yields_path(&Some("/usr/bin/wikitext-lsp".to_string())));
    assert!(!source_yields_path(&Some("".to_string())));
    assert!(!source_yields_path(&None));
}

#[test]
fn command_defaults_arguments_to_stdio() {
    let ext = extension_with_cache(None);
    let c = ext
        .language_server_command(None, Some("/usr/bin/wikitext-lsp".to_string()), false)
        .unwrap();
    assert_eq!(c.command, "/usr/bin/wikitext-lsp");
    assert_eq!(c.args, vec!["--stdio".to_string()]);
    assert!(c.env.is_empty());
}

#[test]
fn command_uses_configured_arguments() {
    let ext = extension_with_cache(None);
    let c = ext
        .language_server_command(
            Some(settings(Some("/x/y"), Some(vec!["--foo"]))),
            None,
            false,
        )
        .unwrap();
    assert_eq!(c.command, "/x/y");
    assert_eq!(c.args, vec!["--foo".to_string()]);
    assert!(c.env.is_empty());
}

#[test]
fn command_propagates_resolution_error() {
    let ext = extension_with_cache(Some("/gone/wikitext-lsp"));
    let r = ext.language_server_command(None, None, false);
    assert_eq!(r.unwrap_err(), ERROR_MESSAGE);
}

#[test]
fn new_extension_has_no_cached_path() {
    let ext = WikitextExtension::new();
    assert_eq!(ext.cached_binary_path, None);
}

#[test]
fn error_message_is_the_fixed_string() {
    assert_eq!(wikitext_extension::resolution_error_message(), ERROR_MESSAGE);
}
