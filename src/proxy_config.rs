//! Naming rules of the per-proxy configuration files.

use vstd::prelude::*;
use crate::config::{Config, ProxyConfig};
use crate::text::chars_of;
use crate::topology::layer_of;

verus! {

/// Configuration file name for a proxy kind given by its identifier;
/// `conf` for an unknown identifier.
pub open spec fn file_name_for(kind: Seq<char>) -> Seq<char> {
    if kind == "caddy"@ {
        "Caddyfile"@
    } else if kind == "nginx"@ {
        "nginx.conf"@
    } else if kind == "haproxy"@ {
        "haproxy.cfg"@
    } else if kind == "traefik"@ {
        "traefik.yml"@
    } else {
        "conf"@
    }
}

/// `name` with every `-` replaced by `_`.
pub open spec fn underscored(name: Seq<char>) -> Seq<char> {
    name.map_values(|c: char| if c == '-' { '_' } else { c })
}

/// The service that a layer-1 nginx proxy routes specially: the declared
/// one, `misskey` when none is declared.
pub open spec fn special_service_spec(p: ProxyConfig) -> Seq<char> {
    match p.special_routing_service {
        Some(s) => s@,
        None => "misskey"@,
    }
}

/// The positions of the services that a layer-1 nginx proxy routes
/// normally: every service among the first `k` not named as the special one.
pub open spec fn regular_upto(c: Config, p: ProxyConfig, k: int) -> Seq<int>
    decreases k,
{
    if k <= 0 {
        Seq::empty()
    } else {
        let prev = regular_upto(c, p, k - 1);
        if c.services@[k - 1].name@ != special_service_spec(p) { prev.push(k - 1) } else { prev }
    }
}

/// One nginx configuration file: its name and, for a per-service file, the
/// position of its service.
#[derive(Debug, Clone)]
pub struct NginxFile {
    pub file: String,
    pub service: Option<usize>,
}

/// The per-service files of the first `k` services.
pub open spec fn service_files_upto(c: Config, k: int) -> Seq<(Seq<char>, Option<int>)>
    decreases k,
{
    if k <= 0 {
        Seq::empty()
    } else {
        service_files_upto(c, k - 1).push((underscored(c.services@[k - 1].name@) + ".conf"@, Some(k - 1)))
    }
}

/// The nginx files of a proxy: a routing file on layer 1, one file per
/// service on deeper layers, and the shared proxy parameters.
pub open spec fn nginx_plan(c: Config, p: ProxyConfig) -> Seq<(Seq<char>, Option<int>)> {
    let files = if layer_of(p) == 1 {
        seq![("default.conf"@, None::<int>)]
    } else {
        service_files_upto(c, c.services@.len() as int)
    };
    files.push(("proxy_params.conf"@, None))
}

/// The view of an nginx file.
pub open spec fn nginx_file_view(f: NginxFile) -> (Seq<char>, Option<int>) {
    (f.file@, match f.service { Some(i) => Some(i as int), None => None })
}

/// The upstream a proxy forwards unmatched requests to, or `fallback`.
pub open spec fn upstream_or(p: ProxyConfig, fallback: Seq<char>) -> Seq<char> {
    match p.default_upstream {
        Some(u) => u@,
        None => fallback,
    }
}

/// Whether two strings hold the same characters.
pub fn same_text(a: &str, b: &str) -> (r: bool)
    ensures
        r == (a@ == b@),
{
    let x = chars_of(a);
    let y = chars_of(b);
    if x.len() != y.len() {
        return false;
    }
    let mut i: usize = 0;
    while i < x.len()
        invariant
            x@ == a@,
            y@ == b@,
            x@.len() == y@.len(),
            i <= x@.len(),
            forall|j: int| 0 <= j < i ==> x@[j] == y@[j],
        decreases x.len() - i,
    {
        if x[i] != y[i] {
            return false;
        }
        i = i + 1;
    }
    assert(x@ =~= y@);
    true
}

/// Generator of the per-proxy configuration files of a configuration.
pub struct ProxyConfigGenerator<'a> {
    pub config: &'a Config,
}

impl<'a> ProxyConfigGenerator<'a> {
    /// A generator for `config`.
    pub fn new(config: &'a Config) -> (r: Self)
        ensures
            *r.config == *config,
    {
        ProxyConfigGenerator { config }
    }

    /// The configuration file name of the proxy kind `proxy_type`.
    pub fn get_file_extension(proxy_type: &str) -> (r: &'static str)
        ensures
            r@ == file_name_for(proxy_type@),
    {
        if same_text(proxy_type, "caddy") {
            "Caddyfile"
        } else if same_text(proxy_type, "nginx") {
            "nginx.conf"
        } else if same_text(proxy_type, "haproxy") {
            "haproxy.cfg"
        } else if same_text(proxy_type, "traefik") {
            "traefik.yml"
        } else {
            "conf"
        }
    }

    /// The file of one service behind a deeper nginx layer: the service
    /// name with `-` turned into `_`, and `.conf`.
    pub fn service_conf_name(name: &str) -> (r: String)
        ensures
            r@ == underscored(name@) + ".conf"@,
    {
        let v = chars_of(name);
        let mut out = String::new();
        let mut i: usize = 0;
        while i < v.len()
            invariant
                v@ == name@,
                i <= v@.len(),
                out@ == underscored(name@.subrange(0, i as int)),
            decreases v.len() - i,
        {
            proof {
                reveal_strlit("_");
            }
            if v[i] == '-' {
                out.append("_");
            } else {
                out.append(name.substring_char(i, i + 1));
            }
            assert(underscored(name@.subrange(0, i + 1)) =~= underscored(name@.subrange(0, i as int)).push(
                if v@[i as int] == '-' { '_' } else { v@[i as int] }));
            assert(out@ =~= underscored(name@.subrange(0, i + 1)));
            i = i + 1;
        }
        assert(name@.subrange(0, name@.len() as int) =~= name@);
        out.append(".conf");
        out
    }

    /// The nginx files of a proxy.
    pub fn nginx_files(config: &Config, proxy: &ProxyConfig) -> (r: Vec<NginxFile>)
        ensures
            r@.map_values(|f: NginxFile| nginx_file_view(f)) == nginx_plan(*config, *proxy),
    {
        let layer: u8 = match proxy.layer {
            Some(l) => l,
            None => 1,
        };
        let mut out: Vec<NginxFile> = Vec::new();
        if layer == 1 {
            out.push(NginxFile { file: String::from_str("default.conf"), service: None });
        } else {
            let n = config.services.len();
            let mut k: usize = 0;
            while k < n
                invariant
                    n == config.services@.len(),
                    k <= n,
                    out@.map_values(|f: NginxFile| nginx_file_view(f)) == service_files_upto(*config, k as int),
                decreases n - k,
            {
                let f = NginxFile { file: Self::service_conf_name(config.services[k].name.as_str()), service: Some(k) };
                let ghost before = out@;
                out.push(f);
                assert(out@.map_values(|f: NginxFile| nginx_file_view(f)) =~= before.map_values(|f: NginxFile| nginx_file_view(f)).push(nginx_file_view(f)));
                k = k + 1;
            }
        }
        let ghost before = out@;
        out.push(NginxFile { file: String::from_str("proxy_params.conf"), service: None });
        assert(out@.map_values(|f: NginxFile| nginx_file_view(f)) =~= nginx_plan(*config, *proxy));
        out
    }

    /// The services that a layer-1 nginx proxy routes normally, by position.
    pub fn regular_services(config: &Config, proxy: &ProxyConfig) -> (r: Vec<usize>)
        ensures
            r@.map_values(|i: usize| i as int) == regular_upto(*config, *proxy, config.services@.len() as int),
    {
        let special = Self::special_service(proxy);
        let n = config.services.len();
        let mut out: Vec<usize> = Vec::new();
        let mut k: usize = 0;
        while k < n
            invariant
                n == config.services@.len(),
                k <= n,
                special@ == special_service_spec(*proxy),
                out@.map_values(|i: usize| i as int) == regular_upto(*config, *proxy, k as int),
            decreases n - k,
        {
            if !same_text(config.services[k].name.as_str(), special.as_str()) {
                let ghost before = out@;
                out.push(k);
                assert(out@.map_values(|i: usize| i as int) =~= before.map_values(|i: usize| i as int).push(k as int));
            }
            k = k + 1;
        }
        out
    }

    /// The proxy's default upstream, or `fallback` when it declares none.
    pub fn upstream_or_else(proxy: &ProxyConfig, fallback: &str) -> (r: String)
        ensures
            r@ == upstream_or(*proxy, fallback@),
    {
        match &proxy.default_upstream {
            Some(u) => u.clone(),
            None => String::from_str(fallback),
        }
    }

    /// The port a proxy's configuration listens on: its external port if
    /// any, otherwise its internal one.
    pub fn listen_port(proxy: &ProxyConfig) -> (r: u16)
        ensures
            r == crate::dockerfile::probe_port(*proxy),
    {
        match proxy.external_port {
            Some(e) => e,
            None => proxy.internal_port,
        }
    }

    /// The service that a layer-1 nginx proxy routes specially.
    pub fn special_service(proxy: &ProxyConfig) -> (r: String)
        ensures
            r@ == special_service_spec(*proxy),
    {
        match &proxy.special_routing_service {
            Some(s) => s.clone(),
            None => String::from_str("misskey"),
        }
    }
}

} // verus!
