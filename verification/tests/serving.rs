use server::configuration::ApplicationSettings;
use server::error::StatusCode;
use server::routes::health_check::health_check;
use server::startup::{default_log_filter, listen_address, static_files_dir, IpAddress};

fn application(static_dir: &str) -> ApplicationSettings {
    ApplicationSettings {
        log_level: "info".to_string(),
        addr: "::".to_string(),
        port: 3000,
        static_dir: static_dir.to_string(),
    }
}

#[test]
fn health_check_answers_ok() {
    let (status, body) = health_check();
    assert_eq!(status, StatusCode::Success);
    assert_eq!(status.as_u16(), 200);
    assert_eq!(body, "Ok");
}

#[test]
fn log_filter_adds_the_server_crates() {
    assert_eq!(default_log_filter("debug"), "debug,hyper=info,mio=info");
    assert_eq!(default_log_filter(""), ",hyper=info,mio=info");
}

#[test]
fn unparsable_address_listens_on_ipv6_loopback() {
    let address = listen_address(None, 8080);
    assert_eq!(address.port, 8080);
    assert!(matches!(address.ip, IpAddress::V6([0, 0, 0, 0, 0, 0, 0, 1])));
}

#[test]
fn parsed_address_is_listened_on() {
    let address = listen_address(Some(IpAddress::V4([127, 0, 0, 1])), 3000);
    assert_eq!(address.port, 3000);
    assert!(matches!(address.ip, IpAddress::V4([127, 0, 0, 1])));
}

#[test]
fn static_files_are_served_only_from_a_configured_dir() {
    assert_eq!(static_files_dir(&application("")), None);
    assert_eq!(static_files_dir(&application("dist")), Some("dist".to_string()));
}
