use devstackbox::config::{
    default_config_text, default_database_config, default_web_server_config, normalized,
};
use devstackbox::service::ServiceName;

fn expected_database_config(base: &str, data: &str) -> String {
    format!(
        "[mysqld]\nport=3306\nbasedir={}\ndatadir={}\ndefault-storage-engine=InnoDB\nsql-mode=\"STRICT_TRANS_TABLES,NO_ZERO_DATE,NO_ZERO_IN_DATE,ERROR_FOR_DIVISION_BY_ZERO\"\nmax_connections=100\ntable_open_cache=2000\ntmp_table_size=16M\nthread_cache_size=10\nkey_buffer_size=8M\nsort_buffer_size=256K\nskip-networking=false\nbind-address=127.0.0.1\n\n[mysql]\ndefault-character-set=utf8mb4\n\n[client]\nport=3306\ndefault-character-set=utf8mb4\n",
        base, data
    )
}

fn expected_web_server_config(server_root: &str, base: &str, documents: &str) -> String {
    format!(
        "# Apache Configuration for DevStackBox\nServerRoot \"{}\"\nPidFile \"{}/logs/httpd.pid\"\nListen 80\n\n# Essential modules\nLoadModule dir_module modules/mod_dir.so\nLoadModule mime_module modules/mod_mime.so\nLoadModule rewrite_module modules/mod_rewrite.so\nLoadModule authz_core_module modules/mod_authz_core.so\nLoadModule authz_host_module modules/mod_authz_host.so\nLoadModule access_compat_module modules/mod_access_compat.so\n\nServerName localhost:80\nDocumentRoot \"{}\"\n\n<Directory \"{}\">\n    Options Indexes FollowSymLinks\n    AllowOverride All\n    Require all granted\n    DirectoryIndex index.html index.htm index.php\n</Directory>\n\n# MIME Types\nTypesConfig conf/mime.types\nAddType text/html .html .htm\n\n# Error and Access logs\nErrorLog \"{}/logs/error.log\"\nCustomLog \"{}/logs/access.log\" common\n\n# Security\nServerTokens Prod\nServerSignature Off\n",
        server_root, base, documents, documents, base, base
    )
}

#[test]
fn database_config_for_a_root() {
    assert_eq!(
        default_database_config("C:/DevStackBox"),
        expected_database_config("C:/DevStackBox/mysql", "C:/DevStackBox/mysql/data")
    );
}

#[test]
fn database_config_has_forward_slashes() {
    let text = default_database_config("C:\\Users\\dev\\DevStackBox");
    assert_eq!(
        text,
        expected_database_config("C:/Users/dev/DevStackBox/mysql", "C:/Users/dev/DevStackBox/mysql/data")
    );
    assert!(!text.contains('\\'));
}

#[test]
fn web_server_config_for_a_root() {
    assert_eq!(
        default_web_server_config("C:/DevStackBox"),
        expected_web_server_config("C:/DevStackBox/apache", "C:/DevStackBox", "C:/DevStackBox/www")
    );
}

#[test]
fn web_server_config_has_forward_slashes() {
    let text = default_web_server_config("D:\\stack");
    assert_eq!(text, expected_web_server_config("D:/stack/apache", "D:/stack", "D:/stack/www"));
    assert!(!text.contains('\\'));
}

#[test]
fn config_is_the_same_for_the_same_root() {
    for root in ["C:/DevStackBox", "C:\\x\\y", "/opt/box", ""] {
        assert_eq!(default_database_config(root), default_database_config(root));
        assert_eq!(default_web_server_config(root), default_web_server_config(root));
    }
}

#[test]
fn config_by_service() {
    let root = "/opt/box";
    assert_eq!(default_config_text(root, ServiceName::Database), default_database_config(root));
    assert_eq!(default_config_text(root, ServiceName::WebServer), default_web_server_config(root));
    assert_ne!(default_config_text(root, ServiceName::Database), default_config_text(root, ServiceName::WebServer));
}

#[test]
fn config_names_the_service_port() {
    assert!(default_database_config("/opt/box").contains("port=3306\n"));
    assert!(default_web_server_config("/opt/box").contains("Listen 80\n"));
}

#[test]
fn normalized_turns_backslashes() {
    assert_eq!(normalized("C:\\a\\b"), "C:/a/b");
    assert_eq!(normalized("C:/a/b"), "C:/a/b");
    assert_eq!(normalized(""), "");
}
