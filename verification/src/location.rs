//! Where the persistent store is found when the cache is set up.

use vstd::prelude::*;
use vstd::string::StringExecFns;

verus! {

/// The kind of machine the server runs on, as far as the default place of
/// the database depends on it.
pub enum Host {
    /// Any host but Windows: the database lies in the working directory.
    Unix,
    /// The database lies in the installation directory, if one is known.
    Windows { install_dir: Option<String> },
}

/// The name of the database file.
pub open spec fn database_file() -> Seq<char> {
    "db_v2.sqlite3"@
}

/// The place of the database where none is configured: `./` and the file
/// name on Unix; on Windows the installation directory, a backslash and the
/// file name, or the bare file name where no such directory is known.
pub open spec fn default_database_url(host: Host) -> Seq<char> {
    match host {
        Host::Unix => "./"@ + database_file(),
        Host::Windows { install_dir: Some(dir) } => dir@ + "\\"@ + database_file(),
        Host::Windows { install_dir: None } => database_file(),
    }
}

/// The place of the database: the configured one if there is one, and else
/// the default of the host.
pub open spec fn database_url_of(configured: Option<String>, host: Host) -> Seq<char> {
    match configured {
        Some(url) => url@,
        None => default_database_url(host),
    }
}

/// Chooses the place of the database from the configured value, which is
/// taken as it stands, and the host's default.
pub fn database_url(configured: Option<String>, host: &Host) -> (url: String)
    ensures
        url@ == database_url_of(configured, *host),
{
    match configured {
        Some(url) => url,
        None => match host {
            Host::Unix => "./".to_owned().concat("db_v2.sqlite3"),
            Host::Windows { install_dir: Some(dir) } => {
                dir.clone().concat("\\").concat("db_v2.sqlite3")
            },
            Host::Windows { install_dir: None } => "db_v2.sqlite3".to_owned(),
        },
    }
}

} // verus!
