//! Dockerfiles: the per-kind build facts and the multi-stage Dockerfile
//! that bundles every declared proxy.

use vstd::prelude::*;
use crate::config::{Config, ProxyConfig, ProxyType};
use crate::error::CerberusError;
use crate::text::{decimal, decimal_string};

verus! {

/// Base image of a proxy kind's Dockerfile.
pub open spec fn base_image_spec(t: ProxyType) -> Seq<char> {
    match t {
        ProxyType::Caddy => "caddy:2-alpine"@,
        ProxyType::Nginx => "nginx:alpine"@,
        ProxyType::HaProxy => "haproxy:alpine"@,
        ProxyType::Traefik => "traefik:v3.0"@,
    }
}

/// Directory that receives a proxy kind's configuration.
pub open spec fn config_path_spec(t: ProxyType) -> Seq<char> {
    match t {
        ProxyType::Caddy => "/etc/caddy/"@,
        ProxyType::Nginx => "/etc/nginx/"@,
        ProxyType::HaProxy => "/usr/local/etc/haproxy/"@,
        ProxyType::Traefik => "/etc/traefik/"@,
    }
}

/// Base image of a proxy kind's Dockerfile.
pub fn base_image(t: ProxyType) -> (r: &'static str)
    ensures
        r@ == base_image_spec(t),
{
    match t {
        ProxyType::Caddy => "caddy:2-alpine",
        ProxyType::Nginx => "nginx:alpine",
        ProxyType::HaProxy => "haproxy:alpine",
        ProxyType::Traefik => "traefik:v3.0",
    }
}

/// Directory that receives a proxy kind's configuration.
pub fn config_path(t: ProxyType) -> (r: &'static str)
    ensures
        r@ == config_path_spec(t),
{
    match t {
        ProxyType::Caddy => "/etc/caddy/",
        ProxyType::Nginx => "/etc/nginx/",
        ProxyType::HaProxy => "/usr/local/etc/haproxy/",
        ProxyType::Traefik => "/etc/traefik/",
    }
}

/// The base stage with common tools and the stage holding the generated
/// configuration, after the title line.
pub const BASE_STAGES: &'static str = "\n# Generated by Cerberus Rust edition\n\n# Base stage with common tools\nFROM alpine:latest as base\nRUN apk add --no-cache \\\n    curl \\\n    wget \\\n    ca-certificates \\\n    tzdata\n\n# Configuration stage\nFROM base as config\nWORKDIR /config\nCOPY built/proxy-configs/ /config/\nCOPY built/anubis/ /config/anubis/\n\n";

/// The opening of the multi-stage Dockerfile: a base stage with common
/// tools and a stage holding the generated configuration.
pub open spec fn multi_stage_head(project: Seq<char>) -> Seq<char> {
    "# Multi-stage Dockerfile for "@ + project
        + BASE_STAGES@
}

/// The port a proxy's health check probes: its external port if any,
/// otherwise its internal one.
pub open spec fn probe_port(p: ProxyConfig) -> u16 {
    match p.external_port {
        Some(e) => e,
        None => p.internal_port,
    }
}

/// The stage of one proxy.
pub open spec fn proxy_stage(p: ProxyConfig) -> Seq<char> {
    let expose = match p.external_port {
        Some(e) => "EXPOSE "@ + decimal(e as nat) + "\n"@,
        None => Seq::empty(),
    };
    "# "@ + p.name@ + " stage\nFROM "@ + base_image_spec(p.proxy_type) + " as "@ + p.name@
        + "\nCOPY --from=config /config/"@ + p.name@ + "/ "@ + config_path_spec(p.proxy_type) + "\n"@
        + expose
        + "HEALTHCHECK --interval=30s --timeout=10s --retries=3 \\\n  CMD curl -f http://localhost:"@
        + decimal(probe_port(p) as nat) + "/health || exit 1\n\n"@
}

/// The stages of the first `k` proxies.
pub open spec fn stages_upto(ps: Seq<ProxyConfig>, k: int) -> Seq<char>
    decreases k,
{
    if k <= 0 {
        Seq::empty()
    } else {
        stages_upto(ps, k - 1) + proxy_stage(ps[k - 1])
    }
}

/// The closing runtime stage, built on the first declared proxy.
pub open spec fn runtime_stage(c: Config) -> Seq<char> {
    let from = if c.proxies@.len() > 0 {
        "FROM "@ + base_image_spec(c.proxies@[0].proxy_type) + "\nCOPY --from="@ + c.proxies@[0].name@ + " / /\n"@
    } else {
        "FROM alpine:latest\n"@
    };
    "# Runtime stage (default)\n"@ + from + "LABEL maintainer=\"Cerberus\"\nLABEL description=\"Multi-proxy container for "@
        + c.project.name@ + "\"\nLABEL cerberus.generated=true\n"@
}

/// The multi-stage Dockerfile of a configuration.
pub open spec fn multi_stage_text(c: Config) -> Seq<char> {
    multi_stage_head(c.project.name@) + stages_upto(c.proxies@, c.proxies@.len() as int) + runtime_stage(c)
}

/// Appends the stage of one proxy.
fn push_stage(out: &mut String, p: &ProxyConfig)
    ensures
        final(out)@ == old(out)@ + proxy_stage(*p),
{
    out.append("# ");
    out.append(p.name.as_str());
    out.append(" stage\nFROM ");
    out.append(base_image(p.proxy_type));
    out.append(" as ");
    out.append(p.name.as_str());
    out.append("\nCOPY --from=config /config/");
    out.append(p.name.as_str());
    out.append("/ ");
    out.append(config_path(p.proxy_type));
    out.append("\n");
    let port = match p.external_port {
        Some(e) => {
            out.append("EXPOSE ");
            out.append(decimal_string(e as u64).as_str());
            out.append("\n");
            e
        },
        None => p.internal_port,
    };
    out.append("HEALTHCHECK --interval=30s --timeout=10s --retries=3 \\\n  CMD curl -f http://localhost:");
    out.append(decimal_string(port as u64).as_str());
    out.append("/health || exit 1\n\n");
    assert(final(out)@ =~= old(out)@ + proxy_stage(*p));
}

/// Generator of the multi-stage Dockerfile of a configuration.
pub struct DockerfileGenerator<'a> {
    pub config: &'a Config,
}

impl<'a> DockerfileGenerator<'a> {
    /// A generator for `config`.
    pub fn new(config: &'a Config) -> (r: Self)
        ensures
            *r.config == *config,
    {
        DockerfileGenerator { config }
    }

    /// The multi-stage Dockerfile: a base stage, a configuration stage,
    /// one stage per declared proxy and a runtime stage.
    pub fn generate_multi_stage(&self) -> (r: Result<String, CerberusError>)
        ensures
            r is Ok,
            r->Ok_0@ == multi_stage_text(*self.config),
    {
        let c = self.config;
        let mut out = String::from_str("# Multi-stage Dockerfile for ");
        out.append(c.project.name.as_str());
        out.append(BASE_STAGES);
        assert(out@ =~= multi_stage_head(c.project.name@));
        let ghost head = out@;
        let n = c.proxies.len();
        let mut k: usize = 0;
        while k < n
            invariant
                n == c.proxies@.len(),
                k <= n,
                out@ == head + stages_upto(c.proxies@, k as int),
            decreases n - k,
        {
            push_stage(&mut out, &c.proxies[k]);
            assert(out@ =~= head + stages_upto(c.proxies@, k + 1));
            k = k + 1;
        }
        out.append("# Runtime stage (default)\n");
        if n > 0 {
            out.append("FROM ");
            out.append(base_image(c.proxies[0].proxy_type));
            out.append("\nCOPY --from=");
            out.append(c.proxies[0].name.as_str());
            out.append(" / /\n");
        } else {
            out.append("FROM alpine:latest\n");
        }
        out.append("LABEL maintainer=\"Cerberus\"\nLABEL description=\"Multi-proxy container for ");
        out.append(c.project.name.as_str());
        out.append("\"\nLABEL cerberus.generated=true\n");
        assert(out@ =~= multi_stage_text(*c));
        Ok(out)
    }
}

} // verus!
