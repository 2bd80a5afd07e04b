//! Locating the primary configuration file.
//!
//! The file is taken from an explicit override path when one is given;
//! otherwise a fixed list of candidate paths is probed in order and the
//! first existing one wins.  With no override and no existing candidate the
//! resolution fails, naming every probed path.
//!
//! Reading the chosen file, and probing which paths exist, is the caller's
//! side of the bargain: this module decides, from those facts alone, which
//! path is loaded or why none can be.

use crate::errors::{LauncherError, LauncherErrorView};
use vstd::prelude::*;
use vstd::string::StringExecFns;

verus! {

/// Where the primary configuration is to be read from.
#[derive(Debug)]
pub enum ConfigSource {
    /// The override path; it is loaded exactly as given, and the search
    /// paths are never consulted, whether or not it exists.
    Override { path: String },
    /// The first candidate path of the fixed search order that exists.
    Probed { path: String },
}

/// The mathematical image of a `ConfigSource`.
pub enum ConfigSourceView {
    Override { path: Seq<char> },
    Probed { path: Seq<char> },
}

impl View for ConfigSource {
    type V = ConfigSourceView;

    open spec fn view(&self) -> ConfigSourceView {
        match self {
            ConfigSource::Override { path } => (ConfigSourceView::Override { path: path@ }),
            ConfigSource::Probed { path } => (ConfigSourceView::Probed { path: path@ }),
        }
    }
}

/// The index of the first `true` in `exists`, or `None` when every entry is
/// `false`.
pub open spec fn first_existing(exists: Seq<bool>) -> Option<int>
    decreases exists.len(),
{
    if exists.len() == 0 {
        None
    } else if exists[0] {
        Some(0)
    } else {
        shift_index(first_existing(exists.drop_first()), 1)
    }
}

/// `o` with `n` added to a found index.
pub open spec fn shift_index(o: Option<int>, n: int) -> Option<int> {
    match o {
        Some(k) => Some(k + n),
        None => None,
    }
}

proof fn lemma_first_existing_skip_step(exists: Seq<bool>, i: int)
    requires
        0 <= i < exists.len(),
        !exists[i],
    ensures
        first_existing(exists.skip(i)) == shift_index(first_existing(exists.skip(i + 1)), 1),
{
    assert(exists.skip(i)[0] == exists[i]);
    assert(exists.skip(i).drop_first() =~= exists.skip(i + 1));
}

/// The fixed candidate paths probed when no override is given: the
/// user-scoped path under `home`, then the system-scoped path, in that
/// order.
pub fn default_search_paths(home: &str) -> (r: Vec<String>)
    ensures
        r.deep_view() =~= seq![
            home@ + "/.config/obake/config.toml"@,
            "/etc/obake/config.toml"@,
        ],
{
    let user = String::from_str(home).concat("/.config/obake/config.toml");
    let system = String::from_str("/etc/obake/config.toml");
    let mut paths: Vec<String> = Vec::new();
    paths.push(user);
    paths.push(system);
    proof {
        assert(paths.deep_view() =~= seq![
            home@ + "/.config/obake/config.toml"@,
            "/etc/obake/config.toml"@,
        ]);
    }
    paths
}

/// Chooses where the configuration is read from.
///
/// `candidates` are the search paths in probe order and `exists[i]` says
/// whether `candidates[i]` exists.  An override short-circuits: it is chosen
/// as given, without any fallback to the candidates.  Otherwise the first
/// existing candidate is chosen, and when none exists the resolution fails
/// with `ConfigNotFound` carrying every probed path.
pub fn select_config_source(
    override_path: Option<String>,
    candidates: Vec<String>,
    exists: &Vec<bool>,
) -> (r: Result<ConfigSource, LauncherError>)
    requires
        candidates@.len() == exists@.len(),
    ensures
        match override_path {
            Some(p) => r matches Ok(s) && s@ == (ConfigSourceView::Override { path: p@ }),
            None => match first_existing(exists@) {
                Some(i) => r matches Ok(s) && s@ == (ConfigSourceView::Probed {
                    path: candidates.deep_view()[i],
                }),
                None => r matches Err(e) && e@ == (LauncherErrorView::ConfigNotFound {
                    probed: candidates.deep_view(),
                }),
            },
        },
{
    match override_path {
        Some(path) => Ok(ConfigSource::Override { path }),
        None => {
            proof {
                assert(exists@.skip(0) =~= exists@);
            }
            let mut i: usize = 0;
            while i < exists.len()
                invariant
                    override_path is None,
                    candidates@.len() == exists@.len(),
                    0 <= i <= exists@.len(),
                    first_existing(exists@) == shift_index(
                        first_existing(exists@.skip(i as int)),
                        i as int,
                    ),
                decreases exists@.len() - i,
            {
                if exists[i] {
                    proof {
                        assert(exists@.skip(i as int)[0] == exists@[i as int]);
                        assert(first_existing(exists@.skip(i as int)) == Some(0int));
                        assert(first_existing(exists@) == Some(i as int));
                    }
                    let path = candidates[i].clone();
                    proof {
                        assert(candidates.deep_view()[i as int] == candidates@[i as int]@);
                    }
                    return Ok(ConfigSource::Probed { path });
                }
                proof {
                    assert(exists@.skip(i as int)[0] == exists@[i as int]);
                    lemma_first_existing_skip_step(exists@, i as int);
                }
                i += 1;
            }
            proof {
                assert(exists@.skip(exists@.len() as int) =~= Seq::<bool>::empty());
            }
            Err(LauncherError::ConfigNotFound { probed: candidates })
        },
    }
}

} // verus!
