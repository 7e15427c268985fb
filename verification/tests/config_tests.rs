use nebula_rust::pool_config::PoolConfig;

#[test]
fn new_config_is_all_default() {
    let conf = PoolConfig::new();
    assert_eq!(conf.timeout, 0);
    assert_eq!(conf.idle_time, 0);
    assert_eq!(conf.max_connection_pool_size, 0);
    assert_eq!(conf.min_connection_pool_size, 0);
    assert!(conf.addresses.is_empty());
    assert_eq!(conf.username, "");
    assert_eq!(conf.password, "");
}

#[test]
fn setters_store_their_values() {
    let mut conf = PoolConfig::new();
    conf.timeout(1000);
    conf.idle_time(2000);
    conf.max_connection_pool_size(10);
    conf.min_connection_pool_size(2);
    conf.address("127.0.0.1:9669".to_string());
    conf.address("127.0.0.1:9670".to_string());
    conf.set_username("root".to_string());
    conf.set_password("nebula".to_string());
    assert_eq!(conf.timeout, 1000);
    assert_eq!(conf.idle_time, 2000);
    assert_eq!(conf.max_connection_pool_size, 10);
    assert_eq!(conf.min_connection_pool_size, 2);
    assert_eq!(conf.addresses, vec!["127.0.0.1:9669".to_string(), "127.0.0.1:9670".to_string()]);
    assert_eq!(conf.username, "root");
    assert_eq!(conf.password, "nebula");
}

#[test]
fn addresses_replaces_the_whole_list() {
    let mut conf = PoolConfig::new();
    conf.address("a:1".to_string());
    conf.addresses(vec!["b:2".to_string()]);
    assert_eq!(conf.addresses, vec!["b:2".to_string()]);
}

#[test]
fn new_conf_parses_a_url() {
    let conf = PoolConfig::new_conf("root:nebula@127.0.0.1:9669/test");
    assert_eq!(conf.username, "root");
    assert_eq!(conf.password, "nebula");
    assert_eq!(conf.addresses, vec!["127.0.0.1:9669".to_string()]);
    assert_eq!(conf.min_connection_pool_size, 2);
    assert_eq!(conf.max_connection_pool_size, 10);
    assert_eq!(conf.timeout, 0);
    assert_eq!(conf.idle_time, 0);
}

#[test]
fn new_conf_without_a_path_keeps_the_whole_host_part() {
    let conf = PoolConfig::new_conf("u:p@host:1");
    assert_eq!(conf.username, "u");
    assert_eq!(conf.password, "p");
    assert_eq!(conf.addresses, vec!["host:1".to_string()]);
}

#[test]
fn new_conf_cuts_at_the_second_separator_of_each_kind() {
    // The password runs to the second `:` of the userinfo; the address
    // runs to the second `@` of the URL, then to its first `/`.
    let conf = PoolConfig::new_conf("a:b:c@h:1@x:2/y");
    assert_eq!(conf.username, "a");
    assert_eq!(conf.password, "b");
    assert_eq!(conf.addresses, vec!["h:1".to_string()]);
}

#[test]
fn new_conf_empty_password() {
    let conf = PoolConfig::new_conf("root:@h:1/s");
    assert_eq!(conf.username, "root");
    assert_eq!(conf.password, "");
    assert_eq!(conf.addresses, vec!["h:1".to_string()]);
}
