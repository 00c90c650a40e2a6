//! The pipeline request and its builder.
//!
//! A CLI invocation constructs one [`Command`] value, configures it through
//! the builder methods, and hands it to a pipeline constructor in
//! [`crate::machine`]. The request is read-only during step execution.

use vstd::prelude::*;
use crate::config::Config;
use crate::strutil::views_of;

verus! {

/// How destructive a reset operation is.
#[derive(Debug, Clone, Copy, PartialEq, Eq, Structural)]
pub enum ResetType {
    /// Rebuild the container stack after refreshing its configuration.
    Docker,
    /// Purge the locally cached dependency stores.
    Deps,
    /// Wipe everything, including uncommitted changes; asks first.
    Scratch,
}

/// A reset token that names no known reset scope.
#[derive(Debug, Clone, PartialEq, Eq)]
pub struct ParseError {
    pub msg: String,
}

impl ParseError {
    /// The guidance shown for an unrecognized reset token.
    pub fn message(&self) -> (r: String)
        ensures
            r@ == self.msg@,
    {
        self.msg.clone()
    }
}

impl core::str::FromStr for ResetType {
    type Err = ParseError;

    fn from_str(s: &str) -> Result<Self, ParseError> {
        if crate::strutil::str_eq(s, "scratch") {
            Ok(ResetType::Scratch)
        } else if crate::strutil::str_eq(s, "docker") {
            Ok(ResetType::Docker)
        } else if crate::strutil::str_eq(s, "deps") {
            Ok(ResetType::Deps)
        } else {
            Err(ParseError { msg: "options are: docker, deps, scratch".to_owned() })
        }
    }
}

/// The mutable request state threaded through a pipeline run.
#[derive(Debug)]
pub struct Command {
    /// Single project or action selector.
    pub name: Option<String>,
    /// Trailing tokens forwarded verbatim into a resolved shell command.
    pub arguments: Vec<String>,
    /// Pull-request branch selector for review runs.
    pub pr: Option<String>,
    /// Operate on the whole fixed target list instead of one name.
    pub all: bool,
    /// On start, bring up the container stack only.
    pub docker_only: bool,
}

/// The mathematical shape of a request.
pub ghost struct CommandV {
    pub name: Option<Seq<char>>,
    pub arguments: Seq<Seq<char>>,
    pub pr: Option<Seq<char>>,
    pub all: bool,
    pub docker_only: bool,
}

impl View for Command {
    type V = CommandV;

    open spec fn view(&self) -> CommandV {
        CommandV {
            name: match self.name {
                Some(ref n) => Some(n@),
                None => None,
            },
            arguments: views_of(self.arguments@),
            pr: match self.pr {
                Some(ref p) => Some(p@),
                None => None,
            },
            all: self.all,
            docker_only: self.docker_only,
        }
    }
}

impl Command {
    /// A fresh request: no selectors, no arguments, no flags.
    pub fn new() -> (r: Self)
        ensures
            r@.name is None,
            r@.arguments.len() == 0,
            r@.pr is None,
            !r@.all,
            !r@.docker_only,
    {
        Command { name: None, arguments: Vec::new(), pr: None, all: false, docker_only: false }
    }

    /// Selects or clears the whole-list flag.
    pub fn all(self, all: bool) -> (r: Self)
        ensures
            r@ == (CommandV { all, ..self@ }),
    {
        Command { all, ..self }
    }

    /// Selects or clears the container-stack-only flag.
    pub fn docker_only(self, docker_only: bool) -> (r: Self)
        ensures
            r@ == (CommandV { docker_only, ..self@ }),
    {
        Command { docker_only, ..self }
    }

    /// Sets the project or action selector.
    pub fn name(self, name: Option<String>) -> (r: Self)
        ensures
            r@ == (CommandV {
                name: match name {
                    Some(n) => Some(n@),
                    None => None,
                },
                ..self@
            }),
    {
        Command { name, ..self }
    }

    /// Sets the pull-request branch selector.
    pub fn pr(self, pr: Option<String>) -> (r: Self)
        ensures
            r@ == (CommandV {
                pr: match pr {
                    Some(p) => Some(p@),
                    None => None,
                },
                ..self@
            }),
    {
        Command { pr, ..self }
    }

    /// Sets the pass-through arguments.
    pub fn arguments(self, arguments: Vec<String>) -> (r: Self)
        ensures
            r@ == (CommandV { arguments: views_of(arguments@), ..self@ }),
    {
        Command { arguments, ..self }
    }
}

/// The orchestration data every pipeline run works against: the required
/// tool list, the organizational hostname, the fixed target lists, and the
/// resolved workspace paths. Passing it in explicitly keeps the pipeline
/// free of hidden globals.
#[derive(Debug)]
pub struct Setup {
    /// Tools whose presence is a pipeline precondition.
    pub tools: Vec<String>,
    /// Hostname that must resolve before any pipeline runs.
    pub host: String,
    /// The fixed list of repositories a clone-all run walks.
    pub repos: Vec<String>,
    /// The fixed list of application repositories a review-all run walks.
    pub apps: Vec<String>,
    /// The workspace root holding all clones.
    pub repo_path: String,
    /// The compose-file location handed to the container orchestrator.
    pub compose_path: String,
    /// The home directory path.
    pub home: String,
}

/// The mathematical shape of a [`Setup`].
pub ghost struct SetupV {
    pub tools: Seq<Seq<char>>,
    pub host: Seq<char>,
    pub repos: Seq<Seq<char>>,
    pub apps: Seq<Seq<char>>,
    pub repo_path: Seq<char>,
    pub compose_path: Seq<char>,
    pub home: Seq<char>,
}

impl View for Setup {
    type V = SetupV;

    open spec fn view(&self) -> SetupV {
        SetupV {
            tools: views_of(self.tools@),
            host: self.host@,
            repos: views_of(self.repos@),
            apps: views_of(self.apps@),
            repo_path: self.repo_path@,
            compose_path: self.compose_path@,
            home: self.home@,
        }
    }
}

/// The required tools, in check order.
pub open spec fn standard_tools() -> Seq<Seq<char>> {
    seq!["git"@, "nix"@, "docker"@, "docker-compose"@]
}

/// The fixed repository list a clone-all run walks, in order.
pub open spec fn standard_repos() -> Seq<Seq<char>> {
    seq![
        "eternal-sledgehammer"@,
        "es-student"@,
        "es-admin"@,
        "fitpro"@,
        "es-certification"@,
        "payment-next"@,
        "courier"@,
        "owners-manual"@,
        "profile-engine"@,
        "academy"@,
    ]
}

/// The fixed application list a review-all run walks, in order.
pub open spec fn standard_apps() -> Seq<Seq<char>> {
    seq![
        "eternal-sledgehammer"@,
        "es-student"@,
        "fitpro"@,
        "es-certification"@,
        "es-admin"@,
        "payment-next"@,
        "academy"@,
    ]
}

impl Setup {
    /// The stock orchestration data: the four required tools, the
    /// organizational hostname, the fixed target lists, and paths derived
    /// from the configuration under the given home directory.
    pub fn standard(config: &Config, home: &str) -> (r: Setup)
        ensures
            r@.tools == standard_tools(),
            r@.host == "es-dev.precisionnutrition.com"@,
            r@.repos == standard_repos(),
            r@.apps == standard_apps(),
            r@.repo_path == crate::config::path_join(home@, config.install_path@),
            r@.compose_path == match config.docker_compose_path {
                Some(path) => crate::config::path_join(home@, path@),
                None => crate::config::path_join(home@, config.install_path@)
                    + "/pndev/catalog/docker-compose.yml"@,
            },
            r@.home == home@,
    {
        let mut tools: Vec<String> = Vec::new();
        tools.push("git".to_owned());
        tools.push("nix".to_owned());
        tools.push("docker".to_owned());
        tools.push("docker-compose".to_owned());
        proof {
            assert(views_of(tools@) =~= standard_tools());
        }
        let mut repos: Vec<String> = Vec::new();
        repos.push("eternal-sledgehammer".to_owned());
        repos.push("es-student".to_owned());
        repos.push("es-admin".to_owned());
        repos.push("fitpro".to_owned());
        repos.push("es-certification".to_owned());
        repos.push("payment-next".to_owned());
        repos.push("courier".to_owned());
        repos.push("owners-manual".to_owned());
        repos.push("profile-engine".to_owned());
        repos.push("academy".to_owned());
        proof {
            assert(views_of(repos@) =~= standard_repos());
        }
        let mut apps: Vec<String> = Vec::new();
        apps.push("eternal-sledgehammer".to_owned());
        apps.push("es-student".to_owned());
        apps.push("fitpro".to_owned());
        apps.push("es-certification".to_owned());
        apps.push("es-admin".to_owned());
        apps.push("payment-next".to_owned());
        apps.push("academy".to_owned());
        proof {
            assert(views_of(apps@) =~= standard_apps());
        }
        Setup {
            tools,
            host: "es-dev.precisionnutrition.com".to_owned(),
            repos,
            apps,
            repo_path: config.repo_path(home),
            compose_path: config.docker_compose_path(home),
            home: home.to_owned(),
        }
    }
}

} // verus!
