use devstackbox::layout::{
    binary_path, config_directory_path, config_file_path, current_runtime_binary_path,
    current_runtime_path, data_directory_path, document_root_path, home_path, join_path,
    resolve_install_root, runtime_binary_path, runtime_directory_path, system_tables_path,
};
use devstackbox::service::ServiceName;

#[test]
fn root_is_parent_of_internal_directory() {
    assert_eq!(resolve_install_root("C:\\Users\\dev\\DevStackBox\\src-tauri"), "C:\\Users\\dev\\DevStackBox");
    assert_eq!(resolve_install_root("/home/dev/DevStackBox/src-tauri"), "/home/dev/DevStackBox");
    assert_eq!(resolve_install_root("C:/DevStackBox/src-tauri"), "C:/DevStackBox");
}

#[test]
fn root_is_working_directory_elsewhere() {
    assert_eq!(resolve_install_root("C:\\Users\\dev\\DevStackBox"), "C:\\Users\\dev\\DevStackBox");
    assert_eq!(resolve_install_root("/home/dev/DevStackBox"), "/home/dev/DevStackBox");
    assert_eq!(resolve_install_root("/home/dev/src-tauri/target"), "/home/dev/src-tauri/target");
    assert_eq!(resolve_install_root("/home/dev/my-src-tauri"), "/home/dev/my-src-tauri");
    assert_eq!(resolve_install_root("/home/dev/src-tauri2"), "/home/dev/src-tauri2");
    assert_eq!(resolve_install_root(""), "");
}

#[test]
fn root_keeps_trailing_separator_as_part_of_the_name() {
    assert_eq!(resolve_install_root("/home/dev/src-tauri/"), "/home/dev/src-tauri/");
}

#[test]
fn root_of_bare_name_is_unchanged() {
    assert_eq!(resolve_install_root("src-tauri"), "src-tauri");
}

#[test]
fn root_directory_keeps_its_separator() {
    assert_eq!(resolve_install_root("/src-tauri"), "/");
    assert_eq!(resolve_install_root("C:\\src-tauri"), "C:\\");
    assert_eq!(resolve_install_root("C:/src-tauri"), "C:/");
}

#[test]
fn join_adds_one_slash() {
    assert_eq!(join_path("C:/box", "mysql"), "C:/box/mysql");
    assert_eq!(join_path("C:\\box", "mysql"), "C:\\box/mysql");
}

#[test]
fn join_after_separator_adds_none() {
    assert_eq!(join_path("C:/", "mysql"), "C:/mysql");
    assert_eq!(join_path("C:\\", "mysql"), "C:\\mysql");
    assert_eq!(join_path("/", "mysql"), "/mysql");
}

#[test]
fn join_from_empty_base_is_relative() {
    assert_eq!(join_path("", "php/current"), "php/current");
}

#[test]
fn service_paths() {
    let root = "C:/DevStackBox";
    assert_eq!(binary_path(root, ServiceName::Database), "C:/DevStackBox/mysql/bin/mysqld.exe");
    assert_eq!(binary_path(root, ServiceName::WebServer), "C:/DevStackBox/apache/bin/httpd.exe");
    assert_eq!(config_file_path(root, ServiceName::Database), "C:/DevStackBox/config/my.cnf");
    assert_eq!(config_file_path(root, ServiceName::WebServer), "C:/DevStackBox/config/httpd.conf");
    assert_eq!(config_directory_path(root), "C:/DevStackBox/config");
    assert_eq!(home_path(root, ServiceName::Database), "C:/DevStackBox/mysql");
    assert_eq!(home_path(root, ServiceName::WebServer), "C:/DevStackBox/apache");
    assert_eq!(data_directory_path(root), "C:/DevStackBox/mysql/data");
    assert_eq!(system_tables_path(root), "C:/DevStackBox/mysql/data/mysql");
    assert_eq!(document_root_path(root), "C:/DevStackBox/www");
}

#[test]
fn runtime_paths() {
    let root = "C:/DevStackBox";
    assert_eq!(runtime_directory_path(root, "8.3"), "C:/DevStackBox/php/8.3");
    assert_eq!(runtime_binary_path(root, "8.3"), "C:/DevStackBox/php/8.3/php.exe");
    assert_eq!(current_runtime_path(root), "C:/DevStackBox/php/current");
    assert_eq!(current_runtime_binary_path(root), "C:/DevStackBox/php/current/php.exe");
    assert_eq!(runtime_binary_path("", "8.1"), "php/8.1/php.exe");
}
