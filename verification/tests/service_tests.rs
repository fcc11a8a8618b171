use devstackbox::service::ServiceName;

#[test]
fn database_attributes() {
    let service = ServiceName::Database;
    assert_eq!(service.port(), 3306);
    assert_eq!(service.settle_seconds(), 5);
    assert_eq!(service.label(), "MySQL");
    assert_eq!(service.home(), "mysql");
    assert_eq!(service.binary(), "mysql/bin/mysqld.exe");
    assert_eq!(service.config_file(), "config/my.cnf");
    assert_eq!(service.version_marker(), "Ver ");
    assert_eq!(service.version_flag(), "--version");
}

#[test]
fn web_server_attributes() {
    let service = ServiceName::WebServer;
    assert_eq!(service.port(), 80);
    assert_eq!(service.settle_seconds(), 3);
    assert_eq!(service.label(), "Apache");
    assert_eq!(service.home(), "apache");
    assert_eq!(service.binary(), "apache/bin/httpd.exe");
    assert_eq!(service.config_file(), "config/httpd.conf");
    assert_eq!(service.version_marker(), "Apache/");
    assert_eq!(service.version_flag(), "-v");
}
