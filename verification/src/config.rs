//! The configuration model consumed by the core: the listening port, the
//! outbound descriptions and the proxy groups, as plain values. Reading and
//! parsing the YAML document happens outside the verified core; this module
//! holds the data and the startup decisions taken over it.
use vstd::prelude::*;

verus! {

/// Why the configuration cannot be used.
#[derive(Clone, Copy, PartialEq, Eq, Structural, Debug)]
pub enum ConfigError {
    /// The selector group (the second proxy group) is not present.
    NoSelectorGroup,
    /// The selector group lists no members.
    EmptySelectorGroup,
    /// A VMess outbound carries a UUID that does not parse.
    InvalidUuid,
}

/// One configured outbound.
pub enum Proxy {
    Trojan { name: String, server: String, port: u16, password: String, sni: Option<String> },
    VMess {
        name: String,
        server: String,
        port: u16,
        uuid: String,
        alter_id: Option<u32>,
        cipher: Option<String>,
        udp: Option<bool>,
        network: Option<String>,
        ws_path: Option<String>,
        ws_headers: Option<Vec<(String, String)>>,
    },
    Unknown,
}

/// One configured proxy group: a named list of outbound names.
pub struct ProxyGroup {
    pub name: String,
    pub group_type: String,
    pub proxies: Vec<String>,
}

/// The configuration document, schema-level only.
pub struct Config {
    pub socks_port: Option<u16>,
    pub port: Option<u16>,
    pub redir_port: Option<u16>,
    pub tproxy_port: Option<u16>,
    pub allow_lan: Option<bool>,
    pub mode: Option<String>,
    pub log_level: Option<String>,
    pub external_controller: Option<String>,
    pub proxies: Vec<Proxy>,
    pub proxy_groups: Vec<ProxyGroup>,
    pub rules: Vec<String>,
}

/// The SOCKS5 listening port: the configured one, else 7891.
pub fn socks_port(config: &Config) -> (r: u16)
    ensures
        r == (match config.socks_port {
            Some(p) => p,
            None => 7891u16,
        }),
{
    match config.socks_port {
        Some(p) => p,
        None => 7891,
    }
}

/// The startup routing choice: the selector group is the second configured
/// proxy group, and its default selection is its first member. Returns the
/// group's name, the default selection and a copy of the member list, or
/// says what is missing.
pub fn startup_selection(config: &Config) -> (r: Result<(String, String, Vec<String>), ConfigError>)
    ensures
        r is Ok <==> (config.proxy_groups@.len() >= 2 && config.proxy_groups@[1].proxies@.len()
            >= 1),
        r matches Ok(t) ==> {
            &&& t.0@ == config.proxy_groups@[1].name@
            &&& t.1@ == config.proxy_groups@[1].proxies@[0]@
            &&& t.2@.len() == config.proxy_groups@[1].proxies@.len()
            &&& forall|i: int|
                0 <= i < t.2@.len() ==> #[trigger] t.2@[i]@ == config.proxy_groups@[1].proxies@[i]@
        },
        r matches Err(e) ==> (if config.proxy_groups@.len() < 2 {
            e == ConfigError::NoSelectorGroup
        } else {
            e == ConfigError::EmptySelectorGroup
        }),
{
    if config.proxy_groups.len() < 2 {
        return Err(ConfigError::NoSelectorGroup);
    }
    let group = &config.proxy_groups[1];
    if group.proxies.len() == 0 {
        return Err(ConfigError::EmptySelectorGroup);
    }
    let name = group.name.clone();
    let default = group.proxies[0].clone();
    let mut candidates: Vec<String> = Vec::new();
    let n = group.proxies.len();
    let mut i: usize = 0;
    while i < n
        invariant
            i <= n,
            n == group.proxies@.len(),
            group == &config.proxy_groups@[1],
            candidates@.len() == i,
            forall|j: int|
                0 <= j < i ==> #[trigger] candidates@[j]@ == config.proxy_groups@[1].proxies@[j]@,
        decreases n - i,
    {
        candidates.push(group.proxies[i].clone());
        i = i + 1;
    }
    Ok((name, default, candidates))
}

} // verus!
