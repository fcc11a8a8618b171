//! Where things lie on disk: the installation root and the paths below it.
//!
//! Paths are text. Both the slash and the backslash separate components;
//! what this module appends, it appends with a slash.

use crate::service::ServiceName;
use crate::text::{from_chars, slice_chars, to_chars};
use vstd::prelude::*;
use vstd::string::*;

verus! {

/// Whether a character separates the components of a path.
pub open spec fn is_separator(c: char) -> bool {
    c == '/' || c == '\\'
}

/// The path `relative` taken from the directory `base`. An empty base names
/// the directory that relative paths start from.
pub open spec fn join(base: Seq<char>, relative: Seq<char>) -> Seq<char> {
    if base.len() == 0 {
        relative
    } else if is_separator(base.last()) {
        base + relative
    } else {
        base + seq!['/'] + relative
    }
}

/// The path `relative` taken from the directory `base`.
pub fn join_path(base: &str, relative: &str) -> (path: String)
    ensures
        path@ == join(base@, relative@),
{
    let base_chars = to_chars(base);
    let count = base_chars.len();
    if count == 0 {
        return String::from_str(relative);
    }
    let last = base_chars[count - 1];
    let mut path = String::from_str(base);
    if !(last == '/' || last == '\\') {
        path.push('/');
    }
    path.append(relative);
    path
}

/// The name of the application's internal subdirectory.
pub open spec fn internal_directory() -> Seq<char> {
    "src-tauri"@
}

/// Whether `cwd` names the internal subdirectory of some directory: it ends
/// with a separator and the internal directory's name.
pub open spec fn inside_internal_directory(cwd: Seq<char>) -> bool {
    let name = internal_directory();
    &&& cwd.len() > name.len()
    &&& cwd.subrange(cwd.len() - name.len(), cwd.len() as int) == name
    &&& is_separator(cwd[cwd.len() - name.len() - 1])
}

/// The directory that holds the last component of `cwd`, where `cwd` ends
/// with a separator and a name of `name_len` characters. The separator
/// stays where the directory is a root: where nothing or only a drive
/// designator stands before it.
pub open spec fn parent_directory(cwd: Seq<char>, name_len: int) -> Seq<char> {
    let cut = cwd.len() - name_len - 1;
    if cut == 0 || cwd[cut - 1] == ':' {
        cwd.subrange(0, cut + 1)
    } else {
        cwd.subrange(0, cut)
    }
}

/// The installation root, given the working directory: the parent
/// directory if the working directory is the internal subdirectory, else
/// the working directory itself.
pub open spec fn install_root(cwd: Seq<char>) -> Seq<char> {
    if inside_internal_directory(cwd) {
        parent_directory(cwd, internal_directory().len() as int)
    } else {
        cwd
    }
}

/// The installation root, given the working directory.
pub fn resolve_install_root(cwd: &str) -> (root: String)
    ensures
        root@ == install_root(cwd@),
{
    let chars = to_chars(cwd);
    let name = to_chars("src-tauri");
    let len = chars.len();
    let name_len = name.len();
    if len > name_len && crate::text::matches_at(&chars, &name, len - name_len) {
        let before = chars[len - name_len - 1];
        if before == '/' || before == '\\' {
            let cut = len - name_len - 1;
            let end = if cut == 0 || chars[cut - 1] == ':' {
                cut + 1
            } else {
                cut
            };
            let parent = slice_chars(&chars, 0, end);
            return from_chars(&parent);
        }
    }
    String::from_str(cwd)
}

/// The directory that holds the configuration files, relative to the
/// installation root.
pub open spec fn config_directory_name() -> Seq<char> {
    "config"@
}

/// The directory of the configuration files below `root`.
pub open spec fn config_directory(root: Seq<char>) -> Seq<char> {
    join(root, config_directory_name())
}

/// The directory of the configuration files below `root`.
pub fn config_directory_path(root: &str) -> (path: String)
    ensures
        path@ == config_directory(root@),
{
    join_path(root, "config")
}

/// The binary of `service` below `root`.
pub open spec fn binary(root: Seq<char>, service: ServiceName) -> Seq<char> {
    join(root, service.spec_binary())
}

/// The binary of `service` below `root`.
pub fn binary_path(root: &str, service: ServiceName) -> (path: String)
    ensures
        path@ == binary(root@, service),
{
    join_path(root, service.binary())
}

/// The configuration file of `service` below `root`.
pub open spec fn config_file(root: Seq<char>, service: ServiceName) -> Seq<char> {
    join(root, service.spec_config_file())
}

/// The configuration file of `service` below `root`.
pub fn config_file_path(root: &str, service: ServiceName) -> (path: String)
    ensures
        path@ == config_file(root@, service),
{
    join_path(root, service.config_file())
}

/// The directory of `service` below `root`.
pub open spec fn home(root: Seq<char>, service: ServiceName) -> Seq<char> {
    join(root, service.spec_home())
}

/// The directory of `service` below `root`.
pub fn home_path(root: &str, service: ServiceName) -> (path: String)
    ensures
        path@ == home(root@, service),
{
    join_path(root, service.home())
}

/// The directory in which the database keeps its data, below `root`.
pub open spec fn data_directory(root: Seq<char>) -> Seq<char> {
    join(root, "mysql/data"@)
}

/// The directory in which the database keeps its data, below `root`.
pub fn data_directory_path(root: &str) -> (path: String)
    ensures
        path@ == data_directory(root@),
{
    join_path(root, "mysql/data")
}

/// The directory of the database's system tables, below `root`. It is
/// there once the data directory has been initialized.
pub open spec fn system_tables(root: Seq<char>) -> Seq<char> {
    join(root, "mysql/data/mysql"@)
}

/// The directory of the database's system tables, below `root`.
pub fn system_tables_path(root: &str) -> (path: String)
    ensures
        path@ == system_tables(root@),
{
    join_path(root, "mysql/data/mysql")
}

/// The directory from which the web server serves documents, below `root`.
pub open spec fn document_root(root: Seq<char>) -> Seq<char> {
    join(root, "www"@)
}

/// The directory from which the web server serves documents, below `root`.
pub fn document_root_path(root: &str) -> (path: String)
    ensures
        path@ == document_root(root@),
{
    join_path(root, "www")
}

/// The directory of the runtime installation `version`, below `root`.
pub open spec fn runtime_directory(root: Seq<char>, version: Seq<char>) -> Seq<char> {
    join(root, "php/"@ + version)
}

/// The directory of the runtime installation `version`, below `root`.
pub fn runtime_directory_path(root: &str, version: &str) -> (path: String)
    ensures
        path@ == runtime_directory(root@, version@),
{
    let mut relative = String::from_str("php/");
    relative.append(version);
    join_path(root, relative.as_str())
}

/// The interpreter binary of the runtime installation `version`, below
/// `root`.
pub open spec fn runtime_binary(root: Seq<char>, version: Seq<char>) -> Seq<char> {
    join(root, "php/"@ + version + "/php.exe"@)
}

/// The interpreter binary of the runtime installation `version`, below
/// `root`.
pub fn runtime_binary_path(root: &str, version: &str) -> (path: String)
    ensures
        path@ == runtime_binary(root@, version@),
{
    let mut relative = String::from_str("php/");
    relative.append(version);
    relative.append("/php.exe");
    join_path(root, relative.as_str())
}

/// The indirection that names the active runtime installation, below
/// `root`.
pub open spec fn current_runtime(root: Seq<char>) -> Seq<char> {
    join(root, "php/current"@)
}

/// The indirection that names the active runtime installation, below
/// `root`.
pub fn current_runtime_path(root: &str) -> (path: String)
    ensures
        path@ == current_runtime(root@),
{
    join_path(root, "php/current")
}

/// The interpreter binary reached through the indirection, below `root`.
pub open spec fn current_runtime_binary(root: Seq<char>) -> Seq<char> {
    join(root, "php/current/php.exe"@)
}

/// The interpreter binary reached through the indirection, below `root`.
pub fn current_runtime_binary_path(root: &str) -> (path: String)
    ensures
        path@ == current_runtime_binary(root@),
{
    join_path(root, "php/current/php.exe")
}

} // verus!
