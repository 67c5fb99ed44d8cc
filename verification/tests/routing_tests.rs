use proxy_gateway::config::{Config, Proxy, ProxyGroup as ConfigGroup};
use proxy_gateway::proxy_group::ProxyGroup as LocalGroup;
use proxy_gateway::proxy_manager::{select_outbound, Handler, ProxyManager, RouteError};
use proxy_gateway::runtime::{ProxyGroup, ProxyRuntime};

fn empty_config() -> Config {
    Config {
        socks_port: None,
        port: None,
        redir_port: None,
        tproxy_port: None,
        allow_lan: None,
        mode: None,
        log_level: None,
        external_controller: None,
        proxies: Vec::new(),
        proxy_groups: Vec::new(),
        rules: Vec::new(),
    }
}

fn trojan(name: &str) -> Proxy {
    Proxy::Trojan {
        name: name.to_string(),
        server: "srv.example".to_string(),
        port: 443,
        password: "pw".to_string(),
        sni: None,
    }
}

#[test]
fn group_set_then_get_returns_the_new_selection() {
    let mut g = ProxyGroup::new("A");
    assert_eq!(g.get(), "A");
    assert_eq!(g.get(), "A");
    g.set("B");
    assert_eq!(g.get(), "B");
    assert_eq!(g.get(), "B");
}

#[test]
fn local_group_set_then_get_returns_the_new_selection() {
    let mut g = LocalGroup::new("A".to_string());
    assert_eq!(g.get(), "A");
    g.set("B".to_string());
    assert_eq!(g.get(), "B");
}

#[test]
fn runtime_register_get_and_set_selection() {
    let mut rt = ProxyRuntime::new();
    assert!(rt.get_group("G").is_none());
    rt.register_group("G", "A");
    assert_eq!(rt.get_group("G").unwrap().get(), "A");
    assert!(rt.set_selection("G", "B"));
    assert_eq!(rt.get_group("G").unwrap().get(), "B");
    assert!(!rt.set_selection("H", "B"));
    assert!(rt.get_group("H").is_none());
    assert_eq!(rt.get_group("G").unwrap().get(), "B");
}

#[test]
fn manager_always_holds_direct() {
    let config = empty_config();
    let m = ProxyManager::new(&config).unwrap();
    assert!(matches!(m.get("DIRECT"), Some(Handler::Direct(_))));
    assert!(m.get("nowhere").is_none());
    // A fresh registry is never empty.
    assert!(m.first().is_some());
}

#[test]
fn configured_direct_name_keeps_the_configured_handler() {
    // A configured outbound may claim the name DIRECT; the direct handler is
    // only added when the name is free.
    let mut config = empty_config();
    config.proxies.push(trojan("DIRECT"));
    let m = ProxyManager::new(&config).unwrap();
    assert!(matches!(m.get("DIRECT"), Some(Handler::Trojan(_))));
    assert!(m.first().is_some());
}

#[test]
fn manager_registers_configured_outbounds() {
    let mut config = empty_config();
    config.proxies.push(trojan("alpha"));
    config.proxies.push(trojan("beta"));
    let m = ProxyManager::new(&config).unwrap();
    match m.get("alpha") {
        Some(Handler::Trojan(t)) => {
            assert_eq!(t.name, "alpha");
            assert_eq!(t.server, "srv.example");
            assert_eq!(t.port, 443);
            assert_eq!(t.password, "pw");
            assert!(t.sni.is_none());
        }
        _ => panic!("alpha should be a trojan handler"),
    }
    assert!(m.get("beta").is_some());
    assert!(m.get("DIRECT").is_some());
    assert!(m.first().is_some());
}

#[test]
fn manager_later_entry_shadows_earlier() {
    let mut config = empty_config();
    config.proxies.push(trojan("dup"));
    config.proxies.push(Proxy::Trojan {
        name: "dup".to_string(),
        server: "later.example".to_string(),
        port: 8443,
        password: "pw2".to_string(),
        sni: Some("sni.example".to_string()),
    });
    let m = ProxyManager::new(&config).unwrap();
    match m.get("dup") {
        Some(Handler::Trojan(t)) => {
            assert_eq!(t.server, "later.example");
            assert_eq!(t.port, 8443);
        }
        _ => panic!("dup should be a trojan handler"),
    }
}

#[test]
fn manager_rejects_bad_vmess_uuid() {
    let mut config = empty_config();
    config.proxies.push(Proxy::VMess {
        name: "v".to_string(),
        server: "srv".to_string(),
        port: 80,
        uuid: "not-a-uuid".to_string(),
        alter_id: None,
        cipher: None,
        udp: None,
        network: Some("ws".to_string()),
        ws_path: None,
        ws_headers: None,
    });
    assert!(ProxyManager::new(&config).is_err());
}

#[test]
fn group_switch_routes_later_sessions_to_the_new_handler() {
    let mut config = empty_config();
    config.proxies.push(trojan("A"));
    config.proxies.push(Proxy::Trojan {
        name: "B".to_string(),
        server: "b.example".to_string(),
        port: 443,
        password: "pwb".to_string(),
        sni: None,
    });
    let m = ProxyManager::new(&config).unwrap();
    let mut rt = ProxyRuntime::new();
    rt.register_group("G", "A");
    assert_eq!(rt.get_group("G").unwrap().get(), "A");
    match select_outbound(&m, &rt, "G") {
        Ok(Handler::Trojan(t)) => assert_eq!(t.name, "A"),
        _ => panic!("expected handler A"),
    }
    assert!(rt.set_selection("G", "B"));
    assert_eq!(rt.get_group("G").unwrap().get(), "B");
    match select_outbound(&m, &rt, "G") {
        Ok(Handler::Trojan(t)) => {
            assert_eq!(t.name, "B");
            assert_eq!(t.server, "b.example");
        }
        _ => panic!("expected handler B"),
    }
}

#[test]
fn select_outbound_reports_missing_group_and_handler() {
    let m = ProxyManager::new(&empty_config()).unwrap();
    let mut rt = ProxyRuntime::new();
    assert!(matches!(
        select_outbound(&m, &rt, "G"),
        Err(RouteError::GroupMissing)
    ));
    rt.register_group("G", "ghost");
    assert!(matches!(
        select_outbound(&m, &rt, "G"),
        Err(RouteError::OutboundMissing)
    ));
    assert!(rt.set_selection("G", "DIRECT"));
    assert!(matches!(select_outbound(&m, &rt, "G"), Ok(Handler::Direct(_))));
}

#[test]
fn group_key_may_be_any_configured_string() {
    let m = ProxyManager::new(&empty_config()).unwrap();
    let mut rt = ProxyRuntime::new();
    let key = "🔰国外流量";
    rt.register_group(key, "DIRECT");
    assert!(matches!(select_outbound(&m, &rt, key), Ok(Handler::Direct(_))));
    let _ = ConfigGroup {
        name: key.to_string(),
        group_type: "select".to_string(),
        proxies: vec!["DIRECT".to_string()],
    };
}
