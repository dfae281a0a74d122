use rust_http_server::config::{Config, ConfigBuilder};

fn args(list: &[&str]) -> Vec<String> {
    list.iter().map(|a| a.to_string()).collect()
}

#[test]
fn builder_defaults_host_and_port() {
    let config = ConfigBuilder::default().build();
    assert_eq!(config.host, "127.0.0.1");
    assert_eq!(config.port, "8080");
    assert!(config.app.is_none());
    assert!(config.static_folder.is_none());
    assert!(config.threads.is_none());
    assert!(!config.https());
}

#[test]
fn builder_setters_are_kept() {
    let mut builder = ConfigBuilder::default();
    builder
        .set_host("0.0.0.0")
        .set_port("9000")
        .set_app("hello:app")
        .set_static_folder("public")
        .set_https_cert("id.pfx")
        .set_cert_password("secret")
        .set_threads(4);
    let config = builder.build();
    assert_eq!(config.host, "0.0.0.0");
    assert_eq!(config.port, "9000");
    assert_eq!(config.app.as_deref(), Some("hello:app"));
    assert_eq!(config.static_folder.as_deref(), Some("public"));
    assert_eq!(config.https_cert.as_deref(), Some("id.pfx"));
    assert_eq!(config.cert_password.as_deref(), Some("secret"));
    assert!(config.app_path.is_none());
    assert_eq!(config.threads, Some(4));
    assert!(config.https());
}

#[test]
fn arguments_give_host_and_port() {
    let config = Config::new(None, &args(&["server", "port:9090", "host:10.0.0.1", "port:1"]));
    assert_eq!(config.host, "10.0.0.1");
    assert_eq!(config.port, "9090");
    assert!(config.https_cert.is_none());
}

#[test]
fn arguments_without_values_give_defaults() {
    let config = Config::new(None, &args(&["server", "hostname", "xport:1"]));
    assert_eq!(config.host, "127.0.0.1");
    assert_eq!(config.port, "8080");
}

#[test]
fn every_occurrence_of_the_key_is_removed() {
    let config = Config::new(None, &args(&["host:host:a", "port:80port:"]));
    assert_eq!(config.host, "a");
    assert_eq!(config.port, "80");
}

#[test]
fn a_configuration_file_wins_over_arguments() {
    let file = Config::from(Some(String::from("h")), None, None, None, None, None, None);
    let config = Config::new(Some(file), &args(&["host:other"]));
    assert_eq!(config.host, "h");
    assert_eq!(config.port, "8080");
}

#[test]
fn from_fills_defaults() {
    let config = Config::from(
        None,
        Some(String::from("81")),
        Some(String::from("m:c")),
        Some(String::from("www")),
        Some(String::from("c.pfx")),
        None,
        Some(String::from("/apps")),
    );
    assert_eq!(config.host, "127.0.0.1");
    assert_eq!(config.port, "81");
    assert_eq!(config.app_path.as_deref(), Some("/apps"));
    assert!(config.threads.is_none());
    assert!(config.https());
}

#[test]
fn thread_count_and_static_folder_defaults() {
    let config = ConfigBuilder::default().build();
    assert_eq!(config.thread_count(), 1);
    assert_eq!(config.static_folder_or_default(), "static");
    let mut builder = ConfigBuilder::default();
    builder.set_threads(8).set_static_folder("assets");
    let config = builder.build();
    assert_eq!(config.thread_count(), 8);
    assert_eq!(config.static_folder_or_default(), "assets");
}

#[test]
fn listening_addresses() {
    let mut builder = ConfigBuilder::default();
    builder.set_host("localhost").set_port("9999");
    let config = builder.build();
    assert_eq!(config.address(), "localhost:9999");
    assert_eq!(config.tls_address(), "localhost:8443");
}

#[test]
fn environment_password_takes_priority() {
    let mut builder = ConfigBuilder::default();
    builder.set_cert_password("from-config");
    let config = builder.build();
    assert_eq!(
        config.resolve_cert_password(Some(String::from("from-env"))).as_deref(),
        Some("from-env")
    );
    assert_eq!(config.resolve_cert_password(None).as_deref(), Some("from-config"));
    let bare = ConfigBuilder::default().build();
    assert!(bare.resolve_cert_password(None).is_none());
}
