use devstackbox::inspect::{extract_version, service_version};
use devstackbox::service::ServiceName;

#[test]
fn database_banner_gives_version() {
    let banner = "mysqld  Ver 8.0.35 for Win64 on x86_64";
    assert_eq!(extract_version(banner, "Ver "), Some("8.0.35".to_string()));
    assert_eq!(service_version(ServiceName::Database, Some(banner)), Some("8.0.35".to_string()));
}

#[test]
fn banner_without_marker_gives_nothing() {
    assert_eq!(extract_version("mysqld 8.0.35 for Win64", "Ver "), None);
    assert_eq!(extract_version("", "Ver "), None);
    assert_eq!(service_version(ServiceName::Database, Some("no marker here")), None);
    assert_eq!(service_version(ServiceName::WebServer, Some("Server version: nginx/1.0")), None);
}

#[test]
fn missing_banner_gives_nothing() {
    assert_eq!(service_version(ServiceName::Database, None), None);
    assert_eq!(service_version(ServiceName::WebServer, None), None);
}

#[test]
fn web_server_banner_gives_version() {
    let banner = "Server version: Apache/2.4.58 (Win64)\nServer built:   Oct 18 2023 13:03:18\n";
    assert_eq!(service_version(ServiceName::WebServer, Some(banner)), Some("2.4.58".to_string()));
}

#[test]
fn interpreter_banner_gives_version() {
    let banner = "PHP 8.2.12 (cli) (built: Oct 24 2023 21:15:15) (ZTS Visual C++ 2019 x64)";
    assert_eq!(extract_version(banner, "PHP "), Some("8.2.12".to_string()));
}

#[test]
fn version_runs_to_any_whitespace() {
    assert_eq!(extract_version("Ver 1.2\nrest", "Ver "), Some("1.2".to_string()));
    assert_eq!(extract_version("Ver 1.2\trest", "Ver "), Some("1.2".to_string()));
    assert_eq!(extract_version("Ver 1.2\r\n", "Ver "), Some("1.2".to_string()));
}

#[test]
fn version_runs_to_the_end_of_the_banner() {
    assert_eq!(extract_version("mysqld  Ver 8.0.35", "Ver "), Some("8.0.35".to_string()));
}

#[test]
fn version_may_be_empty() {
    assert_eq!(extract_version("Ver  8.0.35", "Ver "), Some(String::new()));
    assert_eq!(extract_version("Ver ", "Ver "), Some(String::new()));
}

#[test]
fn first_marker_counts() {
    assert_eq!(extract_version("Ver 1 and Ver 2 ", "Ver "), Some("1".to_string()));
    assert_eq!(extract_version("xVer Ver 2 ", "Ver "), Some("Ver".to_string()));
}
