//! The services under supervision and what is fixed about each of them:
//! its port, how long it takes to come up, where it lives below the
//! installation root and how its binary reports its version.

use vstd::prelude::*;
use vstd::string::*;

verus! {

/// The services that the supervisor starts and stops.
#[derive(Clone, Copy, Debug, PartialEq, Eq, Hash, Structural)]
pub enum ServiceName {
    /// The database engine.
    Database,
    /// The HTTP server.
    WebServer,
}

impl ServiceName {
    /// The port on which the service listens.
    pub open spec fn spec_port(self) -> u16 {
        match self {
            ServiceName::Database => 3306,
            ServiceName::WebServer => 80,
        }
    }

    /// The port on which the service listens.
    #[verifier::when_used_as_spec(spec_port)]
    pub fn port(self) -> (port: u16)
        ensures
            port == self.spec_port(),
    {
        match self {
            ServiceName::Database => 3306,
            ServiceName::WebServer => 80,
        }
    }

    /// The seconds to wait after the spawn before the port is looked for.
    pub open spec fn spec_settle_seconds(self) -> u64 {
        match self {
            ServiceName::Database => 5,
            ServiceName::WebServer => 3,
        }
    }

    /// The seconds to wait after the spawn before the port is looked for.
    #[verifier::when_used_as_spec(spec_settle_seconds)]
    pub fn settle_seconds(self) -> (seconds: u64)
        ensures
            seconds == self.spec_settle_seconds(),
    {
        match self {
            ServiceName::Database => 5,
            ServiceName::WebServer => 3,
        }
    }

    /// The name under which messages speak of the service.
    pub open spec fn spec_label(self) -> Seq<char> {
        match self {
            ServiceName::Database => "MySQL"@,
            ServiceName::WebServer => "Apache"@,
        }
    }

    /// The name under which messages speak of the service.
    pub fn label(self) -> (label: &'static str)
        ensures
            label@ == self.spec_label(),
    {
        match self {
            ServiceName::Database => "MySQL",
            ServiceName::WebServer => "Apache",
        }
    }

    /// The directory of the service, relative to the installation root.
    pub open spec fn spec_home(self) -> Seq<char> {
        match self {
            ServiceName::Database => "mysql"@,
            ServiceName::WebServer => "apache"@,
        }
    }

    /// The directory of the service, relative to the installation root.
    pub fn home(self) -> (home: &'static str)
        ensures
            home@ == self.spec_home(),
    {
        match self {
            ServiceName::Database => "mysql",
            ServiceName::WebServer => "apache",
        }
    }

    /// The binary of the service, relative to the installation root.
    pub open spec fn spec_binary(self) -> Seq<char> {
        match self {
            ServiceName::Database => "mysql/bin/mysqld.exe"@,
            ServiceName::WebServer => "apache/bin/httpd.exe"@,
        }
    }

    /// The binary of the service, relative to the installation root.
    pub fn binary(self) -> (binary: &'static str)
        ensures
            binary@ == self.spec_binary(),
    {
        match self {
            ServiceName::Database => "mysql/bin/mysqld.exe",
            ServiceName::WebServer => "apache/bin/httpd.exe",
        }
    }

    /// The configuration file of the service, relative to the installation
    /// root.
    pub open spec fn spec_config_file(self) -> Seq<char> {
        match self {
            ServiceName::Database => "config/my.cnf"@,
            ServiceName::WebServer => "config/httpd.conf"@,
        }
    }

    /// The configuration file of the service, relative to the installation
    /// root.
    pub fn config_file(self) -> (file: &'static str)
        ensures
            file@ == self.spec_config_file(),
    {
        match self {
            ServiceName::Database => "config/my.cnf",
            ServiceName::WebServer => "config/httpd.conf",
        }
    }

    /// The text that stands before the version in the binary's banner.
    pub open spec fn spec_version_marker(self) -> Seq<char> {
        match self {
            ServiceName::Database => "Ver "@,
            ServiceName::WebServer => "Apache/"@,
        }
    }

    /// The text that stands before the version in the binary's banner.
    pub fn version_marker(self) -> (marker: &'static str)
        ensures
            marker@ == self.spec_version_marker(),
    {
        match self {
            ServiceName::Database => "Ver ",
            ServiceName::WebServer => "Apache/",
        }
    }

    /// The flag that makes the binary print its banner.
    pub open spec fn spec_version_flag(self) -> Seq<char> {
        match self {
            ServiceName::Database => "--version"@,
            ServiceName::WebServer => "-v"@,
        }
    }

    /// The flag that makes the binary print its banner.
    pub fn version_flag(self) -> (flag: &'static str)
        ensures
            flag@ == self.spec_version_flag(),
    {
        match self {
            ServiceName::Database => "--version",
            ServiceName::WebServer => "-v",
        }
    }
}

} // verus!
