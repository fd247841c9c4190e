//! Resolution of the `wikitext-lsp` binary path.
//!
//! The host supplies three facts about the current worktree: the
//! language-server settings it fetched, its search-path answer for an
//! executable named `wikitext-lsp`, and whether the extension's cached
//! path still names a regular file. Resolution picks the first source
//! that yields a non-empty path, in that order, and fails with a fixed
//! message when none does; a successful resolution's path is therefore
//! never empty.

use vstd::prelude::*;

verus! {

/// The binary options the host's settings give for a worktree: an
/// optional explicit path to the executable and an optional list of
/// process arguments.
#[derive(Debug)]
pub struct BinarySettings {
    pub path: Option<String>,
    pub arguments: Option<Vec<String>>,
}

/// A successfully resolved language-server binary: its path and the
/// argument list configured in the settings, if any.
#[derive(Debug)]
pub struct WikitextLspBinary {
    pub path: String,
    pub args: Option<Vec<String>>,
}

/// The extension's only state: a binary path cached by an earlier
/// successful installation, if any.
#[derive(Debug)]
pub struct WikitextExtension {
    pub cached_binary_path: Option<String>,
}

/// The fixed message reported when no source yields a binary path.
pub open spec fn resolution_error() -> Seq<char> {
    "Failed to find wikitext-lsp on PATH. Make sure to install it through node."@
}

/// Whether a source's answer yields a usable path: present and non-empty.
pub open spec fn yields_path(source: Option<Seq<char>>) -> bool {
    source matches Some(p) && p.len() > 0
}

/// Mathematical model of the resolution chain: the explicit settings
/// path wins, then the search-path hit, then the cached path provided it
/// still names a regular file; `None` when every source fails. An empty
/// path is no answer: a source that supplies one is passed over, so a
/// successful resolution's path is never empty. The argument list always
/// comes from the settings, whichever source supplied the path.
pub open spec fn spec_resolve(
    settings_path: Option<Seq<char>>,
    settings_args: Option<Seq<Seq<char>>>,
    which_path: Option<Seq<char>>,
    cached_path: Option<Seq<char>>,
    cached_is_file: bool,
) -> Option<(Seq<char>, Option<Seq<Seq<char>>>)> {
    if yields_path(settings_path) {
        Some((settings_path->0, settings_args))
    } else if yields_path(which_path) {
        Some((which_path->0, settings_args))
    } else if yields_path(cached_path) && cached_is_file {
        Some((cached_path->0, settings_args))
    } else {
        None
    }
}

/// The explicit path the settings configure, if any.
pub open spec fn settings_path_view(settings: Option<BinarySettings>) -> Option<Seq<char>> {
    match settings {
        Some(s) => s.path.deep_view(),
        None => None,
    }
}

/// The argument list the settings configure, if any.
pub open spec fn settings_args_view(settings: Option<BinarySettings>) -> Option<Seq<Seq<char>>> {
    match settings {
        Some(s) => s.arguments.deep_view(),
        None => None,
    }
}

/// The fixed resolution-failure message, as an owned string.
pub fn resolution_error_message() -> (r: String)
    ensures
        r@ == resolution_error(),
{
    String::from_str("Failed to find wikitext-lsp on PATH. Make sure to install it through node.")
}

impl WikitextExtension {
    /// A fresh extension holds no cached binary path.
    pub fn new() -> (r: Self)
        ensures
            r.cached_binary_path is None,
    {
        WikitextExtension { cached_binary_path: None }
    }

    /// Resolve the language-server binary for a worktree.
    ///
    /// `binary_settings` is what the host's settings lookup returned,
    /// `which_path` its search-path answer for `wikitext-lsp`, and
    /// `cached_is_file` its filesystem check on `self.cached_binary_path`
    /// (ignored when no path is cached). The result is exactly what
    /// [`spec_resolve`] says: the first source that yields a non-empty
    /// path, with the settings-configured arguments, or the fixed error
    /// message; a successful resolution's path is never empty.
    pub fn language_server_binary(
        &self,
        binary_settings: Option<BinarySettings>,
        which_path: Option<String>,
        cached_is_file: bool,
    ) -> (r: Result<WikitextLspBinary, String>)
        ensures
            ({
                let expected = spec_resolve(
                    settings_path_view(binary_settings),
                    settings_args_view(binary_settings),
                    which_path.deep_view(),
                    self.cached_binary_path.deep_view(),
                    cached_is_file,
                );
                match expected {
                    Some(m) => r is Ok && r->Ok_0.path@ == m.0
                        && r->Ok_0.args.deep_view() == m.1,
                    None => r is Err && r->Err_0@ == resolution_error(),
                }
            }),
            r is Ok ==> r->Ok_0.path@.len() > 0,
    {
        let (settings_path, settings_args): (Option<String>, Option<Vec<String>>) =
            match binary_settings {
                Some(s) => (s.path, s.arguments),
                None => (None, None),
            };

        if let Some(path) = settings_path {
            if !path.as_str().is_empty() {
                return Ok(WikitextLspBinary { path, args: settings_args });
            }
        }

        if let Some(path) = which_path {
            if !path.as_str().is_empty() {
                return Ok(WikitextLspBinary { path, args: settings_args });
            }
        }

        if cached_is_file {
            if let Some(path) = &self.cached_binary_path {
                if !path.as_str().is_empty() {
                    return Ok(WikitextLspBinary { path: path.clone(), args: settings_args });
                }
            }
        }

        Err(resolution_error_message())
    }
}

/// Whether the settings configure a usable (non-empty) binary path, so
/// that a host need not run the later sources' queries at all.
pub fn settings_yield_path(settings: &Option<BinarySettings>) -> (r: bool)
    ensures
        r == yields_path(settings_path_view(*settings)),
{
    match settings {
        Some(s) => match &s.path {
            Some(p) => !p.as_str().is_empty(),
            None => false,
        },
        None => false,
    }
}

/// Whether a source's answer is a usable (non-empty) path, so that a
/// host need not run the remaining sources' queries.
pub fn source_yields_path(source: &Option<String>) -> (r: bool)
    ensures
        r == yields_path(source.deep_view()),
{
    match source {
        Some(p) => !p.as_str().is_empty(),
        None => false,
    }
}

/// Law: an explicit non-empty settings path always wins. Whatever the
/// search path and the cache hold, resolution with a configured path
/// returns that path together with the settings-configured arguments.
pub proof fn lemma_settings_path_wins(
    path: Seq<char>,
    settings_args: Option<Seq<Seq<char>>>,
    which_path: Option<Seq<char>>,
    cached_path: Option<Seq<char>>,
    cached_is_file: bool,
)
    requires
        path.len() > 0,
    ensures
        spec_resolve(Some(path), settings_args, which_path, cached_path, cached_is_file)
            == Some((path, settings_args)),
{
}

/// Law: when the settings yield no path, a search-path hit decides.
/// Whatever the cache holds, resolution returns the search-path answer
/// together with the settings-configured arguments.
pub proof fn lemma_search_path_wins_without_settings(
    settings_path: Option<Seq<char>>,
    settings_args: Option<Seq<Seq<char>>>,
    path: Seq<char>,
    cached_path: Option<Seq<char>>,
    cached_is_file: bool,
)
    requires
        !yields_path(settings_path),
        path.len() > 0,
    ensures
        spec_resolve(settings_path, settings_args, Some(path), cached_path, cached_is_file)
            == Some((path, settings_args)),
{
}

/// Law: when neither the settings nor the search path yield a path, a
/// cached path that still names a regular file is returned, together
/// with the settings-configured arguments.
pub proof fn lemma_cache_wins_as_last_source(
    settings_path: Option<Seq<char>>,
    settings_args: Option<Seq<Seq<char>>>,
    which_path: Option<Seq<char>>,
    path: Seq<char>,
)
    requires
        !yields_path(settings_path),
        !yields_path(which_path),
        path.len() > 0,
    ensures
        spec_resolve(settings_path, settings_args, which_path, Some(path), true)
            == Some((path, settings_args)),
{
}

/// Law: resolution never invents a path. A successful resolution's path
/// is one of the three source paths, and its argument list is exactly
/// the settings-configured one.
pub proof fn lemma_resolved_path_comes_from_a_source(
    settings_path: Option<Seq<char>>,
    settings_args: Option<Seq<Seq<char>>>,
    which_path: Option<Seq<char>>,
    cached_path: Option<Seq<char>>,
    cached_is_file: bool,
)
    ensures
        spec_resolve(settings_path, settings_args, which_path, cached_path, cached_is_file)
            matches Some(m) ==> ((Some(m.0) == settings_path || Some(m.0) == which_path
            || Some(m.0) == cached_path) && m.1 == settings_args),
{
}

/// Law: a successful resolution's path is never empty, whatever the
/// sources hold.
pub proof fn lemma_success_path_nonempty(
    settings_path: Option<Seq<char>>,
    settings_args: Option<Seq<Seq<char>>>,
    which_path: Option<Seq<char>>,
    cached_path: Option<Seq<char>>,
    cached_is_file: bool,
)
    ensures
        spec_resolve(settings_path, settings_args, which_path, cached_path, cached_is_file)
            matches Some(m) ==> m.0.len() > 0,
{
}

/// Law: resolution fails exactly when the settings yield no path, the
/// search path yields no hit, and the cached path yields none or no
/// longer names a regular file.
pub proof fn lemma_resolution_fails_iff_all_sources_fail(
    settings_path: Option<Seq<char>>,
    settings_args: Option<Seq<Seq<char>>>,
    which_path: Option<Seq<char>>,
    cached_path: Option<Seq<char>>,
    cached_is_file: bool,
)
    ensures
        spec_resolve(settings_path, settings_args, which_path, cached_path, cached_is_file)
            is None
        <==> (!yields_path(settings_path) && !yields_path(which_path)
            && !(yields_path(cached_path) && cached_is_file)),
{
}

} // verus!
