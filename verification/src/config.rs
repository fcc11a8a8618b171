//! The default configuration of each service, written out when a service
//! is started and has no configuration file yet.
//!
//! The text is a function of the installation root alone: the same root
//! gives the same text. The paths in it carry forward slashes, whatever the
//! root carries, as the services expect them. A configuration file that is
//! already there is never replaced by this text: an operator may have
//! edited it.

use crate::layout::{data_directory, document_root, home, join_path};
use crate::service::ServiceName;
use crate::text::{
    from_chars, has_no_backslash, lemma_normalize_separators, normalize_separators, to_chars,
    with_forward_slashes,
};
use vstd::prelude::*;
use vstd::string::*;

verus! {

/// `path` with forward slashes.
pub fn normalized(path: &str) -> (out: String)
    ensures
        out@ == normalize_separators(path@),
        forall|i: int| 0 <= i < out@.len() ==> out@[i] != '\\',
{
    let chars = to_chars(path);
    let slashed = with_forward_slashes(&chars);
    from_chars(&slashed)
}

/// The database's configuration up to the base directory.
pub const DATABASE_BEFORE_BASE: &'static str = "[mysqld]\nport=3306\nbasedir=";

/// The database's configuration between the base and the data directory.
pub const DATABASE_BEFORE_DATA: &'static str = "\ndatadir=";

/// The database's configuration after the data directory.
pub const DATABASE_REST: &'static str =
    "\ndefault-storage-engine=InnoDB\nsql-mode=\"STRICT_TRANS_TABLES,NO_ZERO_DATE,NO_ZERO_IN_DATE,ERROR_FOR_DIVISION_BY_ZERO\"\nmax_connections=100\ntable_open_cache=2000\ntmp_table_size=16M\nthread_cache_size=10\nkey_buffer_size=8M\nsort_buffer_size=256K\nskip-networking=false\nbind-address=127.0.0.1\n\n[mysql]\ndefault-character-set=utf8mb4\n\n[client]\nport=3306\ndefault-character-set=utf8mb4\n";

/// The default configuration of the database for the installation at
/// `root`.
pub open spec fn database_config(root: Seq<char>) -> Seq<char> {
    DATABASE_BEFORE_BASE@ + normalize_separators(home(root, ServiceName::Database))
        + DATABASE_BEFORE_DATA@ + normalize_separators(data_directory(root)) + DATABASE_REST@
}

/// The default configuration of the database for the installation at
/// `root`.
pub fn default_database_config(root: &str) -> (text: String)
    ensures
        text@ == database_config(root@),
{
    let base = normalized(join_path(root, "mysql").as_str());
    let data = normalized(join_path(root, "mysql/data").as_str());
    let mut text = String::from_str(DATABASE_BEFORE_BASE);
    text.append(base.as_str());
    text.append(DATABASE_BEFORE_DATA);
    text.append(data.as_str());
    text.append(DATABASE_REST);
    text
}

/// The web server's configuration up to the server root.
pub const WEB_BEFORE_SERVER_ROOT: &'static str =
    "# Apache Configuration for DevStackBox\nServerRoot \"";

/// The web server's configuration between the server root and the file of the process identifier.
pub const WEB_BEFORE_PID_FILE: &'static str = "\"\nPidFile \"";

/// The web server's configuration from the file of the process identifier to the document root.
pub const WEB_BEFORE_DOCUMENT_ROOT: &'static str =
    "/logs/httpd.pid\"\nListen 80\n\n# Essential modules\nLoadModule dir_module modules/mod_dir.so\nLoadModule mime_module modules/mod_mime.so\nLoadModule rewrite_module modules/mod_rewrite.so\nLoadModule authz_core_module modules/mod_authz_core.so\nLoadModule authz_host_module modules/mod_authz_host.so\nLoadModule access_compat_module modules/mod_access_compat.so\n\nServerName localhost:80\nDocumentRoot \"";

/// The web server's configuration between the document root and the section on that directory.
pub const WEB_BEFORE_DIRECTORY: &'static str = "\"\n\n<Directory \"";

/// The web server's configuration from the section on the document root to the error log.
pub const WEB_BEFORE_ERROR_LOG: &'static str =
    "\">\n    Options Indexes FollowSymLinks\n    AllowOverride All\n    Require all granted\n    DirectoryIndex index.html index.htm index.php\n</Directory>\n\n# MIME Types\nTypesConfig conf/mime.types\nAddType text/html .html .htm\n\n# Error and Access logs\nErrorLog \"";

/// The web server's configuration between the error log and the access log.
pub const WEB_BEFORE_ACCESS_LOG: &'static str = "/logs/error.log\"\nCustomLog \"";

/// The web server's configuration after the access log.
pub const WEB_REST: &'static str =
    "/logs/access.log\" common\n\n# Security\nServerTokens Prod\nServerSignature Off\n";

/// The default configuration of the web server for the installation at
/// `root`.
pub open spec fn web_server_config(root: Seq<char>) -> Seq<char> {
    WEB_BEFORE_SERVER_ROOT@ + normalize_separators(home(root, ServiceName::WebServer))
        + WEB_BEFORE_PID_FILE@ + normalize_separators(root) + WEB_BEFORE_DOCUMENT_ROOT@
        + normalize_separators(document_root(root)) + WEB_BEFORE_DIRECTORY@ + normalize_separators(
        document_root(root),
    ) + WEB_BEFORE_ERROR_LOG@ + normalize_separators(root) + WEB_BEFORE_ACCESS_LOG@
        + normalize_separators(root) + WEB_REST@
}

/// The default configuration of the web server for the installation at
/// `root`.
pub fn default_web_server_config(root: &str) -> (text: String)
    ensures
        text@ == web_server_config(root@),
{
    let server_root = normalized(join_path(root, "apache").as_str());
    let base = normalized(root);
    let documents = normalized(join_path(root, "www").as_str());
    let mut text = String::from_str(WEB_BEFORE_SERVER_ROOT);
    text.append(server_root.as_str());
    text.append(WEB_BEFORE_PID_FILE);
    text.append(base.as_str());
    text.append(WEB_BEFORE_DOCUMENT_ROOT);
    text.append(documents.as_str());
    text.append(WEB_BEFORE_DIRECTORY);
    text.append(documents.as_str());
    text.append(WEB_BEFORE_ERROR_LOG);
    text.append(base.as_str());
    text.append(WEB_BEFORE_ACCESS_LOG);
    text.append(base.as_str());
    text.append(WEB_REST);
    text
}

/// The default configuration of `service` for the installation at `root`.
pub open spec fn default_config(root: Seq<char>, service: ServiceName) -> Seq<char> {
    match service {
        ServiceName::Database => database_config(root),
        ServiceName::WebServer => web_server_config(root),
    }
}

/// The default configuration of `service` for the installation at `root`.
pub fn default_config_text(root: &str, service: ServiceName) -> (text: String)
    ensures
        text@ == default_config(root@, service),
{
    match service {
        ServiceName::Database => default_database_config(root),
        ServiceName::WebServer => default_web_server_config(root),
    }
}

/// The fixed parts of the two configurations hold no backslash.
proof fn lemma_fixed_parts_hold_no_backslash()
    ensures
        has_no_backslash(DATABASE_BEFORE_BASE@),
        has_no_backslash(DATABASE_BEFORE_DATA@),
        has_no_backslash(DATABASE_REST@),
        has_no_backslash(WEB_BEFORE_SERVER_ROOT@),
        has_no_backslash(WEB_BEFORE_PID_FILE@),
        has_no_backslash(WEB_BEFORE_DOCUMENT_ROOT@),
        has_no_backslash(WEB_BEFORE_DIRECTORY@),
        has_no_backslash(WEB_BEFORE_ERROR_LOG@),
        has_no_backslash(WEB_BEFORE_ACCESS_LOG@),
        has_no_backslash(WEB_REST@),
{
    reveal_strlit(
        "[mysqld]\nport=3306\nbasedir=",
    );
    reveal_strlit(
        "\ndatadir=",
    );
    reveal_strlit(
        "\ndefault-storage-engine=InnoDB\nsql-mode=\"STRICT_TRANS_TABLES,NO_ZERO_DATE,NO_ZERO_IN_DATE,ERROR_FOR_DIVISION_BY_ZERO\"\nmax_connections=100\ntable_open_cache=2000\ntmp_table_size=16M\nthread_cache_size=10\nkey_buffer_size=8M\nsort_buffer_size=256K\nskip-networking=false\nbind-address=127.0.0.1\n\n[mysql]\ndefault-character-set=utf8mb4\n\n[client]\nport=3306\ndefault-character-set=utf8mb4\n",
    );
    reveal_strlit(
        "# Apache Configuration for DevStackBox\nServerRoot \"",
    );
    reveal_strlit(
        "\"\nPidFile \"",
    );
    reveal_strlit(
        "/logs/httpd.pid\"\nListen 80\n\n# Essential modules\nLoadModule dir_module modules/mod_dir.so\nLoadModule mime_module modules/mod_mime.so\nLoadModule rewrite_module modules/mod_rewrite.so\nLoadModule authz_core_module modules/mod_authz_core.so\nLoadModule authz_host_module modules/mod_authz_host.so\nLoadModule access_compat_module modules/mod_access_compat.so\n\nServerName localhost:80\nDocumentRoot \"",
    );
    reveal_strlit(
        "\"\n\n<Directory \"",
    );
    reveal_strlit(
        "\">\n    Options Indexes FollowSymLinks\n    AllowOverride All\n    Require all granted\n    DirectoryIndex index.html index.htm index.php\n</Directory>\n\n# MIME Types\nTypesConfig conf/mime.types\nAddType text/html .html .htm\n\n# Error and Access logs\nErrorLog \"",
    );
    reveal_strlit(
        "/logs/error.log\"\nCustomLog \"",
    );
    reveal_strlit(
        "/logs/access.log\" common\n\n# Security\nServerTokens Prod\nServerSignature Off\n",
    );
}

/// The default configuration holds no backslash, whatever the root
/// holds: the paths in it carry forward slashes.
pub proof fn law_config_has_forward_slashes(root: Seq<char>, service: ServiceName)
    ensures
        has_no_backslash(default_config(root, service)),
{
    lemma_fixed_parts_hold_no_backslash();
    lemma_normalize_separators(root);
    lemma_normalize_separators(home(root, service));
    lemma_normalize_separators(data_directory(root));
    lemma_normalize_separators(document_root(root));
}

} // verus!
