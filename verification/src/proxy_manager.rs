//! The handler registry: outbound name to handler, built once from the
//! configuration and read-only afterwards. A later outbound with the same
//! name shadows an earlier one, as a map insert would; the direct outbound
//! is always present under `DIRECT`. The dispatcher's per-session outbound
//! selection, which joins the routing runtime to this registry, lives here
//! too.
use vstd::prelude::*;

use crate::assoc;
use crate::config::{Config, ConfigError, Proxy};
use crate::direct::DirectProxy;
use crate::runtime::ProxyRuntime;
use crate::trojan::TrojanProxy;
use crate::vmess::{parse_uuid, uuid_bytes_of, VmessProxy};

verus! {

/// One outbound handler: the closed set of variants the gateway dispatches
/// over.
pub enum Handler {
    Direct(DirectProxy),
    Trojan(TrojanProxy),
    VMess(VmessProxy),
}

/// Every handler a registry may hold is internally consistent.
pub open spec fn handler_wf(h: Handler) -> bool {
    match h {
        Handler::VMess(v) => v.wf(),
        _ => true,
    }
}

/// The registry key under which the direct outbound always stands.
pub open spec fn direct_key() -> Seq<char> {
    "DIRECT"@
}

/// The name a configured outbound registers under, if it registers at all.
pub open spec fn proxy_name(p: Proxy) -> Option<Seq<char>> {
    match p {
        Proxy::Trojan { name, .. } => Some(name@),
        Proxy::VMess { name, .. } => Some(name@),
        Proxy::Unknown => None,
    }
}

/// Whether a configured outbound's UUID (if it has one) parses.
pub open spec fn vmess_uuid_ok(p: Proxy) -> bool {
    match p {
        Proxy::VMess { uuid, .. } => uuid_bytes_of(uuid@) is Some,
        _ => true,
    }
}

/// The handler that a configured outbound gives rise to.
pub open spec fn handler_matches(p: Proxy, h: Handler) -> bool {
    match p {
        Proxy::Trojan { name, server, port, password, sni } => {
            &&& h matches Handler::Trojan(t)
            &&& t.name@ == name@
            &&& t.server@ == server@
            &&& t.port == port
            &&& t.password@ == password@
            &&& t.sni == sni
        },
        Proxy::VMess {
            name,
            server,
            port,
            uuid,
            alter_id,
            network,
            ws_path,
            ws_headers,
            ..
        } => {
            &&& h matches Handler::VMess(v)
            &&& v.name@ == name@
            &&& v.server@ == server@
            &&& v.port == port
            &&& Some(v.uuid@) == uuid_bytes_of(uuid@)
            &&& v.alter_id == (match alter_id {
                Some(a) => a,
                None => 0u32,
            })
            &&& v.network == network
            &&& v.ws_path == ws_path
            &&& (match ws_headers {
                Some(hm) => {
                    &&& (v.ws_host is Some <==> assoc::lookup(hm@, "Host"@) is Some)
                    &&& (v.ws_host matches Some(vh) ==> (assoc::lookup(hm@, "Host"@) matches Some(
                        s,
                    ) && s@ == vh@))
                },
                None => v.ws_host is None,
            })
        },
        Proxy::Unknown => true,
    }
}

/// In `s`, no entry after `i` registers under the same name as entry `i`.
pub open spec fn last_of_name(s: Seq<Proxy>, i: int) -> bool {
    forall|j: int| i < j < s.len() ==> proxy_name(s[j]) != proxy_name(s[i])
}

pub struct ProxyManager {
    handlers: Vec<(String, Handler)>,
}

impl ProxyManager {
    /// The handler registered under `name`, if any.
    pub closed spec fn spec_get(&self, name: Seq<char>) -> Option<Handler> {
        assoc::lookup(self.handlers@, name)
    }

    /// The direct outbound is registered and every handler is consistent.
    pub open spec fn wf(&self) -> bool {
        &&& self.spec_get(direct_key()) is Some
        &&& forall|n: Seq<char>|
            (#[trigger] self.spec_get(n)) matches Some(h) ==> handler_wf(h)
    }

    /// Builds the registry from the configuration: every configured Trojan
    /// and VMess outbound is registered under its name (a later one shadows
    /// an earlier one of the same name), nothing is registered under any
    /// other name, and the direct outbound is added under `DIRECT` unless a
    /// configured outbound carries that name. The registry is never empty.
    /// Fails exactly when some VMess outbound carries a UUID that does not
    /// parse.
    pub fn new(config: &Config) -> (r: Result<Self, ConfigError>)
        ensures
            r is Ok <==> (forall|i: int|
                0 <= i < config.proxies@.len() ==> #[trigger] vmess_uuid_ok(config.proxies@[i])),
            r matches Err(e) ==> e == ConfigError::InvalidUuid,
            r matches Ok(m) ==> {
                &&& m.wf()
                &&& m.spec_first() is Some
                &&& forall|i: int|
                    0 <= i < config.proxies@.len() && last_of_name(config.proxies@, i)
                        ==> (match proxy_name(#[trigger] config.proxies@[i]) {
                        Some(nm) => m.spec_get(nm) matches Some(h) && handler_matches(
                            config.proxies@[i],
                            h,
                        ),
                        None => true,
                    })
                &&& (forall|i: int|
                    0 <= i < config.proxies@.len() ==> proxy_name(#[trigger] config.proxies@[i])
                        != Some(direct_key())) ==> (m.spec_get(direct_key()) matches Some(
                    Handler::Direct(_),
                ))
                &&& forall|nm: Seq<char>|
                    (#[trigger] m.spec_get(nm)) is Some ==> (nm == direct_key() || exists|i: int|
                        0 <= i < config.proxies@.len() && proxy_name(
                            #[trigger] config.proxies@[i],
                        ) == Some(nm))
            },
    {
        let mut handlers: Vec<(String, Handler)> = Vec::new();
        let n = config.proxies.len();
        let mut k: usize = 0;
        proof {
            assert forall|nm: Seq<char>| (#[trigger] assoc::lookup(handlers@, nm)) is None by {
                assert(handlers@.len() == 0);
            }
        }
        while k < n
            invariant
                k <= n,
                n == config.proxies@.len(),
                forall|i: int| 0 <= i < k ==> #[trigger] vmess_uuid_ok(config.proxies@[i]),
                forall|nm: Seq<char>|
                    (#[trigger] assoc::lookup(handlers@, nm)) matches Some(h) ==> handler_wf(h),
                forall|i: int|
                    0 <= i < k && last_of_name(config.proxies@.take(k as int), i)
                        ==> (match proxy_name(#[trigger] config.proxies@[i]) {
                        Some(nm) => assoc::lookup(handlers@, nm) matches Some(h)
                            && handler_matches(config.proxies@[i], h),
                        None => true,
                    }),
                (forall|i: int|
                    0 <= i < k ==> proxy_name(#[trigger] config.proxies@[i]) != Some(
                        direct_key(),
                    )) ==> assoc::lookup(handlers@, direct_key()) is None,
                forall|nm: Seq<char>|
                    (#[trigger] assoc::lookup(handlers@, nm)) is Some ==> exists|i: int|
                        0 <= i < k && proxy_name(#[trigger] config.proxies@[i]) == Some(nm),
            decreases n - k,
        {
            let ghost pre_handlers = handlers@;
            let ghost pk = config.proxies@[k as int];
            match &config.proxies[k] {
                Proxy::Trojan { name, server, port, password, sni } => {
                    let sni2: Option<String> = match sni {
                        Some(s) => Some(s.clone()),
                        None => None,
                    };
                    let t = TrojanProxy::new(
                        name.clone(),
                        server.clone(),
                        *port,
                        password.clone(),
                        sni2,
                    );
                    let h = Handler::Trojan(t);
                    assert(handler_matches(pk, h));
                    assoc::put(&mut handlers, name.as_str(), h);
                },
                Proxy::VMess {
                    name,
                    server,
                    port,
                    uuid,
                    alter_id,
                    network,
                    ws_path,
                    ws_headers,
                    ..
                } => {
                    let ub = match parse_uuid(uuid.as_str()) {
                        Some(b) => b,
                        None => {
                            assert(!vmess_uuid_ok(pk));
                            return Err(ConfigError::InvalidUuid);
                        },
                    };
                    let aid: u32 = match alter_id {
                        Some(a) => *a,
                        None => 0,
                    };
                    let network2: Option<String> = match network {
                        Some(s) => Some(s.clone()),
                        None => None,
                    };
                    let ws_path2: Option<String> = match ws_path {
                        Some(s) => Some(s.clone()),
                        None => None,
                    };
                    let ws_headers2: Option<Vec<(String, String)>> = match ws_headers {
                        Some(hm) => Some(clone_headers(hm)),
                        None => None,
                    };
                    let v = VmessProxy::new(
                        name.clone(),
                        server.clone(),
                        *port,
                        ub,
                        aid,
                        network2,
                        ws_path2,
                        ws_headers2,
                    );
                    let h = Handler::VMess(v);
                    assert(handler_matches(pk, h));
                    assoc::put(&mut handlers, name.as_str(), h);
                },
                Proxy::Unknown => {},
            }
            proof {
                let cur = config.proxies@.take(k as int + 1);
                let pre = config.proxies@.take(k as int);
                assert(cur[k as int] == pk);
                assert forall|i: int|
                    0 <= i < k + 1 && last_of_name(cur, i) implies (match proxy_name(
                    #[trigger] config.proxies@[i],
                ) {
                    Some(nm) => assoc::lookup(handlers@, nm) matches Some(h) && handler_matches(
                        config.proxies@[i],
                        h,
                    ),
                    None => true,
                }) by {
                    if i < k {
                        assert(cur[i] == config.proxies@[i]);
                        assert(last_of_name(pre, i)) by {
                            assert forall|j: int|
                                i < j < pre.len() implies proxy_name(pre[j]) != proxy_name(pre[i])
                            by {
                                assert(cur[j] == pre[j]);
                            }
                        }
                        if proxy_name(config.proxies@[i]) == proxy_name(pk) && proxy_name(pk)
                            is Some {
                            assert(!last_of_name(cur, i)) by {
                                assert(cur[k as int] == pk);
                                assert(proxy_name(cur[k as int]) == proxy_name(cur[i]));
                            }
                        } else {
                            match proxy_name(config.proxies@[i]) {
                                Some(nm) => {
                                    assert(nm != proxy_name(pk).unwrap() || proxy_name(pk)
                                        is None);
                                    assert(assoc::lookup(handlers@, nm) == assoc::lookup(
                                        pre_handlers,
                                        nm,
                                    ));
                                },
                                None => {},
                            }
                        }
                    }
                }
                assert forall|nm: Seq<char>|
                    (#[trigger] assoc::lookup(handlers@, nm)) is Some implies exists|i: int|
                    0 <= i < k + 1 && proxy_name(#[trigger] config.proxies@[i]) == Some(nm) by {
                    if proxy_name(pk) == Some(nm) {
                        assert(0 <= k < k + 1 && proxy_name(config.proxies@[k as int]) == Some(
                            nm,
                        ));
                    } else {
                        assert(assoc::lookup(handlers@, nm) == assoc::lookup(pre_handlers, nm));
                        let w = choose|i: int|
                            0 <= i < k && proxy_name(#[trigger] config.proxies@[i]) == Some(nm);
                        assert(0 <= w < k + 1 && proxy_name(config.proxies@[w]) == Some(nm));
                    }
                }
                if forall|i: int|
                    0 <= i < k + 1 ==> proxy_name(#[trigger] config.proxies@[i]) != Some(
                        direct_key(),
                    ) {
                    assert(proxy_name(pk) != Some(direct_key()));
                    assert(assoc::lookup(handlers@, direct_key()) == assoc::lookup(
                        pre_handlers,
                        direct_key(),
                    ));
                }
            }
            k = k + 1;
        }
        let ghost registered = handlers@;
        let missing = assoc::get(&handlers, "DIRECT").is_none();
        if missing {
            assoc::put(&mut handlers, "DIRECT", Handler::Direct(DirectProxy));
        }
        proof {
            assert(config.proxies@.take(n as int) =~= config.proxies@);
            // The registry is never empty: either the direct handler was just
            // added, or something already answers to its name.
            if missing {
                assert(handlers@.len() > 0);
            } else {
                assert(assoc::lookup(registered, direct_key()) is Some);
                if handlers@.len() == 0 {
                    assert(assoc::lookup(handlers@, direct_key()) is None);
                }
            }
            // When no configured outbound claims the name, the binding under
            // it is the direct handler that was just added.
            if forall|i: int|
                0 <= i < config.proxies@.len() ==> proxy_name(#[trigger] config.proxies@[i])
                    != Some(direct_key()) {
                assert(assoc::lookup(registered, direct_key()) is None);
                assert(assoc::lookup(handlers@, direct_key()) == Some(
                    Handler::Direct(DirectProxy),
                ));
            }
            // Nothing is bound beyond the configured names and the direct
            // handler's.
            assert forall|nm: Seq<char>|
                (#[trigger] assoc::lookup(handlers@, nm)) is Some implies (nm == direct_key()
                    || exists|i: int|
                    0 <= i < config.proxies@.len() && proxy_name(#[trigger] config.proxies@[i])
                        == Some(nm)) by {
                if nm != direct_key() {
                    assert(assoc::lookup(handlers@, nm) == assoc::lookup(registered, nm));
                    let w = choose|i: int|
                        0 <= i < n && proxy_name(#[trigger] config.proxies@[i]) == Some(nm);
                    assert(0 <= w < config.proxies@.len() && proxy_name(config.proxies@[w])
                        == Some(nm));
                }
            }
        }
        let m = ProxyManager { handlers };
        Ok(m)
    }

    /// The handler registered under `name`.
    pub fn get(&self, name: &str) -> (r: Option<&Handler>)
        ensures
            match r {
                Some(h) => self.spec_get(name@) == Some(*h),
                None => self.spec_get(name@) is None,
            },
    {
        assoc::get(&self.handlers, name)
    }

    /// The handler that [`Self::first`] yields: the most recently
    /// registered one, if any handler is registered.
    pub closed spec fn spec_first(&self) -> Option<Handler> {
        if self.handlers@.len() > 0 {
            Some(self.handlers@[0].1)
        } else {
            None
        }
    }

    /// The most recently registered handler, if any handler is registered.
    pub fn first(&self) -> (r: Option<&Handler>)
        ensures
            match r {
                Some(h) => self.spec_first() == Some(*h),
                None => self.spec_first() is None,
            },
    {
        if self.handlers.len() == 0 {
            None
        } else {
            Some(&self.handlers[0].1)
        }
    }
}

/// A deep copy of a header list.
fn clone_headers(h: &Vec<(String, String)>) -> (r: Vec<(String, String)>)
    ensures
        r@ == h@,
{
    let mut out: Vec<(String, String)> = Vec::new();
    let n = h.len();
    let mut i: usize = 0;
    while i < n
        invariant
            i <= n,
            n == h@.len(),
            out@ == h@.take(i as int),
        decreases n - i,
    {
        let pair = (h[i].0.clone(), h[i].1.clone());
        assert(pair == h@[i as int]);
        out.push(pair);
        i = i + 1;
        assert(out@ =~= h@.take(i as int));
    }
    assert(out@ =~= h@);
    out
}

/// Why a session could not be routed to an outbound.
#[derive(Clone, Copy, PartialEq, Eq, Structural, Debug)]
pub enum RouteError {
    /// The configured group key is not registered in the routing runtime.
    GroupMissing,
    /// The group's current selection names no registered handler.
    OutboundMissing,
}

/// The dispatcher's per-session choice: read the group registered under
/// `group_key`, then look its current selection up in the registry. Fails
/// exactly when the group is absent or its selection names no handler.
pub fn select_outbound<'a>(
    manager: &'a ProxyManager,
    runtime: &ProxyRuntime,
    group_key: &str,
) -> (r: Result<&'a Handler, RouteError>)
    ensures
        r matches Ok(h) ==> (runtime.spec_group(group_key@) matches Some(g) && manager.spec_get(
            g.selection(),
        ) == Some(*h)),
        (r matches Err(e) && e == RouteError::GroupMissing) <==> runtime.spec_group(group_key@)
            is None,
        (r matches Err(e) && e == RouteError::OutboundMissing) <==> (runtime.spec_group(group_key@)
            matches Some(g) && manager.spec_get(g.selection()) is None),
{
    match runtime.get_group(group_key) {
        None => Err(RouteError::GroupMissing),
        Some(group) => {
            let current = group.get();
            match manager.get(current.as_str()) {
                Some(h) => Ok(h),
                None => Err(RouteError::OutboundMissing),
            }
        },
    }
}

} // verus!
