//! Persistent configuration values and the paths derived from them.
//!
//! Loading and persisting the configuration file is an edge concern; this
//! module holds the configuration data itself and the verified derivation of
//! the workspace and compose-file paths. The caller supplies the home
//! directory path, which only the environment can provide.

use vstd::prelude::*;
use crate::strutil::push_str;
use crate::strutil::str_concat;

verus! {

/// Two path segments joined with a single slash.
pub open spec fn path_join(a: Seq<char>, b: Seq<char>) -> Seq<char> {
    a + seq!['/'] + b
}

/// Joins two path segments with a single slash.
pub fn path_concat(a: &str, b: &str) -> (r: String)
    ensures
        r@ == path_join(a@, b@),
{
    let mut s = str_concat(a, "/");
    proof {
        reveal_strlit("/");
        assert("/"@ =~= seq!['/']);
    }
    let r = push_str(s, b);
    r
}

/// The persistent configuration: where the workspace lives under the home
/// directory, and an optional override for the compose-file location.
#[derive(Debug, Clone)]
pub struct Config {
    /// The workspace directory, relative to the home directory.
    pub install_path: String,
    /// An explicit compose-file path relative to the home directory, when
    /// the default location under the control repository is not wanted.
    pub docker_compose_path: Option<String>,
}

impl Default for Config {
    /// The stock configuration: workspace `DEV/PN`, no compose override.
    fn default() -> (r: Self)
        ensures
            r.install_path@ == "DEV/PN"@,
            r.docker_compose_path is None,
    {
        Config { install_path: "DEV/PN".to_owned(), docker_compose_path: None }
    }
}

impl Config {
    /// The workspace root: the install path under the home directory.
    pub fn repo_path(&self, home: &str) -> (r: String)
        ensures
            r@ == path_join(home@, self.install_path@),
    {
        path_concat(home, self.install_path.as_str())
    }

    /// The compose-file location the container orchestrator is invoked with:
    /// the configured override under the home directory when one is set, else
    /// the catalog file inside the control repository clone.
    pub fn docker_compose_path(&self, home: &str) -> (r: String)
        ensures
            r@ == match self.docker_compose_path {
                Some(path) => path_join(home@, path@),
                None => path_join(home@, self.install_path@)
                    + "/pndev/catalog/docker-compose.yml"@,
            },
    {
        match &self.docker_compose_path {
            Some(path) => path_concat(home, path.as_str()),
            None => push_str(self.repo_path(home), "/pndev/catalog/docker-compose.yml"),
        }
    }
}

} // verus!
