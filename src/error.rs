//! Errors of the library: invalid configuration and impossible topologies.

use vstd::prelude::*;
use crate::text::{decimal, decimal_string, join2, join3};

verus! {

/// A configuration that is structurally invalid; found before resolution.
#[derive(Debug, Clone)]
pub enum ConfigError {
    EmptyProjectName,
    /// The proxy at this position has a blank name.
    EmptyProxyName { index: usize },
    ZeroExternalPort { proxy: String },
    ZeroInternalPort { proxy: String },
    ZeroInstances { proxy: String },
    /// The service at this position has a blank name.
    EmptyServiceName { index: usize },
    EmptyServiceDomain { service: String },
    EmptyServiceUpstream { service: String },
    /// An upstream of the named declaration has no host.
    MalformedUpstream { declaration: String },
    /// Anubis is enabled with a difficulty outside 1..=10.
    DifficultyOutOfRange { difficulty: u8 },
}

/// The mathematical value of a `ConfigError`.
pub enum ConfigProblem {
    EmptyProjectName,
    EmptyProxyName { index: int },
    ZeroExternalPort { proxy: Seq<char> },
    ZeroInternalPort { proxy: Seq<char> },
    ZeroInstances { proxy: Seq<char> },
    EmptyServiceName { index: int },
    EmptyServiceDomain { service: Seq<char> },
    EmptyServiceUpstream { service: Seq<char> },
    MalformedUpstream { declaration: Seq<char> },
    DifficultyOutOfRange { difficulty: u8 },
}

impl View for ConfigError {
    type V = ConfigProblem;

    open spec fn view(&self) -> ConfigProblem {
        match self {
            ConfigError::EmptyProjectName => ConfigProblem::EmptyProjectName,
            ConfigError::EmptyProxyName { index } => ConfigProblem::EmptyProxyName { index: *index as int },
            ConfigError::ZeroExternalPort { proxy } => ConfigProblem::ZeroExternalPort { proxy: proxy@ },
            ConfigError::ZeroInternalPort { proxy } => ConfigProblem::ZeroInternalPort { proxy: proxy@ },
            ConfigError::ZeroInstances { proxy } => ConfigProblem::ZeroInstances { proxy: proxy@ },
            ConfigError::EmptyServiceName { index } => ConfigProblem::EmptyServiceName { index: *index as int },
            ConfigError::EmptyServiceDomain { service } => ConfigProblem::EmptyServiceDomain { service: service@ },
            ConfigError::EmptyServiceUpstream { service } => ConfigProblem::EmptyServiceUpstream { service: service@ },
            ConfigError::MalformedUpstream { declaration } => ConfigProblem::MalformedUpstream { declaration: declaration@ },
            ConfigError::DifficultyOutOfRange { difficulty } => ConfigProblem::DifficultyOutOfRange { difficulty: *difficulty },
        }
    }
}

/// A configuration whose nodes cannot form a valid topology.
#[derive(Debug, Clone)]
pub enum TopologyError {
    /// Two nodes would carry this name.
    DuplicateName { name: String },
    /// The dependency of `from` onto `to` closes a cycle.
    Cycle { from: String, to: String },
}

/// The mathematical value of a `TopologyError`.
pub enum TopologyProblem {
    DuplicateName { name: Seq<char> },
    Cycle { from: Seq<char>, to: Seq<char> },
}

impl View for TopologyError {
    type V = TopologyProblem;

    open spec fn view(&self) -> TopologyProblem {
        match self {
            TopologyError::DuplicateName { name } => TopologyProblem::DuplicateName { name: name@ },
            TopologyError::Cycle { from, to } => TopologyProblem::Cycle { from: from@, to: to@ },
        }
    }
}

/// Any failure of a generation run.
#[derive(Debug, Clone)]
pub enum CerberusError {
    Config(ConfigError),
    Topology(TopologyError),
}


/// The text of a configuration problem.
pub open spec fn config_message(p: ConfigProblem) -> Seq<char> {
    match p {
        ConfigProblem::EmptyProjectName => "Project name cannot be empty"@,
        ConfigProblem::EmptyProxyName { index } => "Proxy "@ + decimal(index as nat) + " name cannot be empty"@,
        ConfigProblem::ZeroExternalPort { proxy } => "Proxy "@ + proxy + " external_port must be greater than 0"@,
        ConfigProblem::ZeroInternalPort { proxy } => "Proxy "@ + proxy + " internal_port must be greater than 0"@,
        ConfigProblem::ZeroInstances { proxy } => "Proxy "@ + proxy + " instances must be greater than 0"@,
        ConfigProblem::EmptyServiceName { index } => "Service "@ + decimal(index as nat) + " name cannot be empty"@,
        ConfigProblem::EmptyServiceDomain { service } => "Service "@ + service + " domain cannot be empty"@,
        ConfigProblem::EmptyServiceUpstream { service } => "Service "@ + service + " upstream cannot be empty"@,
        ConfigProblem::MalformedUpstream { declaration } => "Upstream of "@ + declaration + " has no host"@,
        ConfigProblem::DifficultyOutOfRange { difficulty } => "Anubis difficulty must be between 1 and 10"@,
    }
}

/// The text of a topology problem.
pub open spec fn topology_message(p: TopologyProblem) -> Seq<char> {
    match p {
        TopologyProblem::DuplicateName { name } => "two nodes would be named "@ + name,
        TopologyProblem::Cycle { from, to } => from + " cannot depend on "@ + to
            + ": the dependency closes a cycle"@,
    }
}

/// The text of an error, with its category in front.
pub open spec fn error_message(e: CerberusError) -> Seq<char> {
    match e {
        CerberusError::Config(c) => "Validation error: "@ + config_message(c@),
        CerberusError::Topology(t) => "Topology error: "@ + topology_message(t@),
    }
}

impl ConfigError {
    /// The text of the problem.
    pub fn message(&self) -> (r: String)
        ensures
            r@ == config_message(self@),
    {
        match self {
            ConfigError::EmptyProjectName => String::from_str("Project name cannot be empty"),
            ConfigError::EmptyProxyName { index } => {
                join3("Proxy ", decimal_string(*index as u64).as_str(), " name cannot be empty")
            },
            ConfigError::ZeroExternalPort { proxy } => {
                join3("Proxy ", proxy.as_str(), " external_port must be greater than 0")
            },
            ConfigError::ZeroInternalPort { proxy } => {
                join3("Proxy ", proxy.as_str(), " internal_port must be greater than 0")
            },
            ConfigError::ZeroInstances { proxy } => {
                join3("Proxy ", proxy.as_str(), " instances must be greater than 0")
            },
            ConfigError::EmptyServiceName { index } => {
                join3("Service ", decimal_string(*index as u64).as_str(), " name cannot be empty")
            },
            ConfigError::EmptyServiceDomain { service } => {
                join3("Service ", service.as_str(), " domain cannot be empty")
            },
            ConfigError::EmptyServiceUpstream { service } => {
                join3("Service ", service.as_str(), " upstream cannot be empty")
            },
            ConfigError::MalformedUpstream { declaration } => {
                join3("Upstream of ", declaration.as_str(), " has no host")
            },
            ConfigError::DifficultyOutOfRange { difficulty } => {
                String::from_str("Anubis difficulty must be between 1 and 10")
            },
        }
    }
}

impl TopologyError {
    /// The text of the problem.
    pub fn message(&self) -> (r: String)
        ensures
            r@ == topology_message(self@),
    {
        match self {
            TopologyError::DuplicateName { name } => join2("two nodes would be named ", name.as_str()),
            TopologyError::Cycle { from, to } => {
                let head = join3(from.as_str(), " cannot depend on ", to.as_str());
                let r = join2(head.as_str(), ": the dependency closes a cycle");
                r
            },
        }
    }
}

impl CerberusError {
    /// The text of the error, with its category in front.
    pub fn message(&self) -> (r: String)
        ensures
            r@ == error_message(*self),
    {
        match self {
            CerberusError::Config(c) => join2("Validation error: ", c.message().as_str()),
            CerberusError::Topology(t) => join2("Topology error: ", t.message().as_str()),
        }
    }
}

} // verus!
