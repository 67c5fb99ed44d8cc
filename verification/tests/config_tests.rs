use proxy_gateway::config::{socks_port, startup_selection, Config, ConfigError, ProxyGroup};

fn base_config() -> Config {
    Config {
        socks_port: None,
        port: None,
        redir_port: None,
        tproxy_port: None,
        allow_lan: None,
        mode: None,
        log_level: None,
        external_controller: None,
        proxies: Vec::new(),
        proxy_groups: Vec::new(),
        rules: Vec::new(),
    }
}

fn group(name: &str, members: &[&str]) -> ProxyGroup {
    ProxyGroup {
        name: name.to_string(),
        group_type: "select".to_string(),
        proxies: members.iter().map(|m| m.to_string()).collect(),
    }
}

#[test]
fn socks_port_defaults_to_7891() {
    let mut c = base_config();
    assert_eq!(socks_port(&c), 7891);
    c.socks_port = Some(1080);
    assert_eq!(socks_port(&c), 1080);
}

#[test]
fn startup_selection_takes_the_second_group_and_its_first_member() {
    let mut c = base_config();
    c.proxy_groups.push(group("first", &["X"]));
    c.proxy_groups.push(group("selector", &["A", "B", "C"]));
    let (name, default, candidates) = startup_selection(&c).unwrap();
    assert_eq!(name, "selector");
    assert_eq!(default, "A");
    assert_eq!(candidates, vec!["A".to_string(), "B".to_string(), "C".to_string()]);
}

#[test]
fn startup_selection_reports_what_is_missing() {
    let mut c = base_config();
    assert_eq!(startup_selection(&c).unwrap_err(), ConfigError::NoSelectorGroup);
    c.proxy_groups.push(group("only", &["X"]));
    assert_eq!(startup_selection(&c).unwrap_err(), ConfigError::NoSelectorGroup);
    c.proxy_groups.push(group("selector", &[]));
    assert_eq!(startup_selection(&c).unwrap_err(), ConfigError::EmptySelectorGroup);
}
