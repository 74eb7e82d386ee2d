//! Cerberus: turns a declarative multi-layer reverse-proxy description into a
//! resolved deployment topology and the text artifacts derived from it.

pub mod anubis;
pub mod classify;
pub mod compose;
pub mod config;
pub mod dockerfile;
pub mod error;
pub mod graph;
pub mod lemmas;
pub mod proxy_config;
pub mod text;
pub mod topology;

pub use anubis::AnubisGenerator;
pub use compose::DockerComposeGenerator;
pub use error::{CerberusError, ConfigError, TopologyError};

use vstd::prelude::*;
use crate::anubis::{anubis_env_lines, json_string_literal, policy_text};
use crate::compose::compose_of;
use crate::config::{config_problem, config_valid, Config};
use crate::dockerfile::multi_stage_text;
use crate::topology::{anubis_present, explains_failure, resolves, str_views};

verus! {

/// A generated file: its path relative to the output directory, and its
/// content.
#[derive(Debug, Clone)]
pub struct Artifact {
    pub path: String,
    pub content: String,
}

/// The lines joined with a newline between each two.
pub open spec fn joined_lines(lines: Seq<Seq<char>>) -> Seq<char>
    decreases lines.len(),
{
    if lines.len() == 0 {
        Seq::empty()
    } else if lines.len() == 1 {
        lines[0]
    } else {
        joined_lines(lines.drop_last()) + "\n"@ + lines.last()
    }
}

/// The artifacts of a configuration that has a topology, as (path,
/// content) pairs: the compose descriptor, the multi-stage Dockerfile, and
/// the Anubis policy and environment when the Anubis node exists.
pub open spec fn artifacts_of(c: Config) -> Seq<(Seq<char>, Seq<char>)> {
    let base = seq![
        ("docker-compose.yaml"@, compose_of(c)),
        ("Dockerfile.multi-stage"@, multi_stage_text(c)),
    ];
    if anubis_present(c) {
        base + seq![
            ("anubis/botPolicy.json"@, policy_text(json_string_literal(c.project.name@), c.anubis.difficulty, c.anubis.enabled)),
            ("anubis/.env"@, joined_lines(anubis_env_lines(c.anubis))),
        ]
    } else {
        base
    }
}

/// The lines joined with newlines.
fn join_lines(lines: &Vec<String>) -> (r: String)
    ensures
        r@ == joined_lines(str_views(lines@)),
{
    let mut out = String::new();
    let mut k: usize = 0;
    while k < lines.len()
        invariant
            k <= lines@.len(),
            out@ == joined_lines(str_views(lines@.subrange(0, k as int))),
        decreases lines.len() - k,
    {
        if k > 0 {
            out.append("\n");
        }
        out.append(lines[k].as_str());
        proof {
            let pre = str_views(lines@.subrange(0, k + 1));
            assert(pre.drop_last() =~= str_views(lines@.subrange(0, k as int)));
            if k == 0 {
                assert(out@ =~= pre[0]);
            }
        }
        k = k + 1;
    }
    assert(lines@.subrange(0, lines@.len() as int) =~= lines@);
    out
}

/// The generator: a validated configuration and the directory that the
/// artifacts are written under.
#[derive(Debug)]
pub struct Cerberus {
    pub config: Config,
    pub output_dir: String,
}

impl Cerberus {
    /// A generator for `config`; fails with the configuration's first
    /// problem when it is invalid.
    pub fn new(config: Config, output_dir: String) -> (r: Result<Cerberus, CerberusError>)
        ensures
            match r {
                Ok(c) => config_valid(config) && c.config == config && c.output_dir@ == output_dir@,
                Err(e) => e is Config && config_problem(config) == Some(e->Config_0@),
            },
    {
        match config.validate() {
            Ok(_) => Ok(Cerberus { config, output_dir }),
            Err(e) => Err(e),
        }
    }

    /// The artifacts of the configuration, or why it has no topology.
    pub fn artifacts(&self) -> (r: Result<Vec<Artifact>, CerberusError>)
        requires
            self.config.proxies@.len() < usize::MAX,
        ensures
            r is Ok <==> resolves(self.config),
            match r {
                Ok(v) => resolves(self.config) && v@.map_values(|a: Artifact| (a.path@, a.content@)) == artifacts_of(self.config),
                Err(e) => explains_failure(self.config, e),
            },
    {
        let c = &self.config;
        let compose = match DockerComposeGenerator::new(c).generate() {
            Ok(s) => s,
            Err(e) => {
                return Err(e);
            },
        };
        let multi = match crate::dockerfile::DockerfileGenerator::new(c).generate_multi_stage() {
            Ok(s) => s,
            Err(e) => {
                return Err(e);
            },
        };
        let mut out: Vec<Artifact> = Vec::new();
        out.push(Artifact { path: String::from_str("docker-compose.yaml"), content: compose });
        out.push(Artifact { path: String::from_str("Dockerfile.multi-stage"), content: multi });
        if crate::topology::anubis_is_present(c) {
            let anubis = AnubisGenerator::new(c);
            let policy = match anubis.generate() {
                Ok(s) => s,
                Err(e) => {
                    return Err(e);
                },
            };
            let env = match anubis.generate_env_config() {
                Ok(v) => v,
                Err(e) => {
                    return Err(e);
                },
            };
            out.push(Artifact { path: String::from_str("anubis/botPolicy.json"), content: policy });
            out.push(Artifact { path: String::from_str("anubis/.env"), content: join_lines(&env) });
        }
        assert(out@.map_values(|a: Artifact| (a.path@, a.content@)) =~= artifacts_of(*c));
        Ok(out)
    }
}

} // verus!
