//! Connection profiles and credentials: the configuration that a session is
//! started with and never changes.

use vstd::prelude::*;
use vstd::string::*;

verus! {

/// Where a database listens and which kind of backend it is.
#[derive(Debug)]
pub struct Connection {
    /// The name by which credentials refer to the profile.
    pub name: String,
    /// The kind of backend, such as `mariadb`, `mysql` or `postgres`.
    pub kind: String,
    pub host: String,
    pub port: u16,
}

/// A `Connection` over sequences of characters.
pub struct ConnectionView {
    pub name: Seq<char>,
    pub kind: Seq<char>,
    pub host: Seq<char>,
    pub port: u16,
}

impl View for Connection {
    type V = ConnectionView;

    open spec fn view(&self) -> ConnectionView {
        ConnectionView { name: self.name@, kind: self.kind@, host: self.host@, port: self.port }
    }
}

impl DeepView for Connection {
    type V = ConnectionView;

    open spec fn deep_view(&self) -> ConnectionView {
        self@
    }
}

impl Clone for Connection {
    fn clone(&self) -> (r: Connection)
        ensures
            r == *self,
    {
        Connection {
            name: self.name.clone(),
            kind: self.kind.clone(),
            host: self.host.clone(),
            port: self.port,
        }
    }
}

/// A user of a database: the login and the connection profile it is for.
///
/// The password is kept as plain text, in memory as in the configuration
/// file. Anyone who can read either can read the password.
#[derive(Debug)]
pub struct Credential {
    pub name: String,
    /// The name of the connection profile that the login is for.
    pub connection: String,
    pub username: String,
    pub password: String,
}

/// A `Credential` over sequences of characters.
pub struct CredentialView {
    pub name: Seq<char>,
    pub connection: Seq<char>,
    pub username: Seq<char>,
    pub password: Seq<char>,
}

impl View for Credential {
    type V = CredentialView;

    open spec fn view(&self) -> CredentialView {
        CredentialView {
            name: self.name@,
            connection: self.connection@,
            username: self.username@,
            password: self.password@,
        }
    }
}

impl DeepView for Credential {
    type V = CredentialView;

    open spec fn deep_view(&self) -> CredentialView {
        self@
    }
}

impl Clone for Credential {
    fn clone(&self) -> (r: Credential)
        ensures
            r == *self,
    {
        Credential {
            name: self.name.clone(),
            connection: self.connection.clone(),
            username: self.username.clone(),
            password: self.password.clone(),
        }
    }
}

/// The configuration of a session: connection profiles and credentials, each
/// in the order of the configuration file.
#[derive(Debug)]
pub struct Config {
    pub schema: Option<String>,
    pub connections: Vec<Connection>,
    pub credentials: Vec<Credential>,
}

/// A `Config` over sequences.
pub struct ConfigView {
    pub schema: Option<Seq<char>>,
    pub connections: Seq<ConnectionView>,
    pub credentials: Seq<CredentialView>,
}

impl View for Config {
    type V = ConfigView;

    open spec fn view(&self) -> ConfigView {
        ConfigView {
            schema: match self.schema {
                Some(s) => Some(s@),
                None => None,
            },
            connections: self.connections.deep_view(),
            credentials: self.credentials.deep_view(),
        }
    }
}

/// The first position at or after `from` of a connection profile called
/// `name`.
pub open spec fn connection_position(
    connections: Seq<ConnectionView>,
    name: Seq<char>,
    from: int,
) -> Option<int>
    decreases connections.len() - from,
{
    if from < 0 || from >= connections.len() {
        None
    } else if connections[from].name == name {
        Some(from)
    } else {
        connection_position(connections, name, from + 1)
    }
}

/// The first position at or after `from` of a credential called `name`.
pub open spec fn credential_position(
    credentials: Seq<CredentialView>,
    name: Seq<char>,
    from: int,
) -> Option<int>
    decreases credentials.len() - from,
{
    if from < 0 || from >= credentials.len() {
        None
    } else if credentials[from].name == name {
        Some(from)
    } else {
        credential_position(credentials, name, from + 1)
    }
}

/// Why a configuration cannot start a session.
#[derive(Clone, Copy, Debug, PartialEq, Eq, Structural)]
pub enum ConfigError {
    /// There is no credential to log in with.
    NoCredentials,
    /// Two connection profiles share a name.
    DuplicateConnection,
    /// Two credentials share a name.
    DuplicateCredential,
    /// A credential names a connection profile that does not exist.
    UnknownConnection,
}

impl ConfigView {
    /// There is a credential.
    pub open spec fn has_credentials(self) -> bool {
        self.credentials.len() > 0
    }

    /// No two connection profiles share a name.
    pub open spec fn connection_names_distinct(self) -> bool {
        forall|i: int, j: int|
            0 <= i < j < self.connections.len() ==> (#[trigger] self.connections[i]).name != (
            #[trigger] self.connections[j]).name
    }

    /// No two credentials share a name.
    pub open spec fn credential_names_distinct(self) -> bool {
        forall|i: int, j: int|
            0 <= i < j < self.credentials.len() ==> (#[trigger] self.credentials[i]).name != (
            #[trigger] self.credentials[j]).name
    }

    /// Every credential names a connection profile that exists.
    pub open spec fn connections_resolve(self) -> bool {
        forall|i: int|
            0 <= i < self.credentials.len() ==> connection_position(
                self.connections,
                (#[trigger] self.credentials[i]).connection,
                0,
            ) is Some
    }

    /// The configuration can start a session.
    pub open spec fn valid(self) -> bool {
        &&& self.has_credentials()
        &&& self.connection_names_distinct()
        &&& self.credential_names_distinct()
        &&& self.connections_resolve()
    }

    /// What is wrong with the configuration, if anything: the first of the
    /// four conditions of `valid` that fails, in the order of `ConfigError`.
    pub open spec fn fault(self) -> Option<ConfigError> {
        if !self.has_credentials() {
            Some(ConfigError::NoCredentials)
        } else if !self.connection_names_distinct() {
            Some(ConfigError::DuplicateConnection)
        } else if !self.credential_names_distinct() {
            Some(ConfigError::DuplicateCredential)
        } else if !self.connections_resolve() {
            Some(ConfigError::UnknownConnection)
        } else {
            None
        }
    }
}

/// A position found from `from` on lies at or after `from`, holds the name,
/// and no earlier position from `from` on holds it.
pub proof fn lemma_connection_position(connections: Seq<ConnectionView>, name: Seq<char>, from: int)
    requires
        0 <= from,
    ensures
        match connection_position(connections, name, from) {
            Some(p) => from <= p < connections.len() && connections[p].name == name && forall|
                k: int,
            | from <= k < p ==> (#[trigger] connections[k]).name != name,
            None => forall|k: int|
                from <= k < connections.len() ==> (#[trigger] connections[k]).name != name,
        },
    decreases connections.len() - from,
{
    if from < connections.len() && connections[from].name != name {
        lemma_connection_position(connections, name, from + 1);
    }
}

/// A position found from `from` on lies at or after `from`, holds the name,
/// and no earlier position from `from` on holds it.
pub proof fn lemma_credential_position(credentials: Seq<CredentialView>, name: Seq<char>, from: int)
    requires
        0 <= from,
    ensures
        match credential_position(credentials, name, from) {
            Some(p) => from <= p < credentials.len() && credentials[p].name == name && forall|
                k: int,
            | from <= k < p ==> (#[trigger] credentials[k]).name != name,
            None => forall|k: int|
                from <= k < credentials.len() ==> (#[trigger] credentials[k]).name != name,
        },
    decreases credentials.len() - from,
{
    if from < credentials.len() && credentials[from].name != name {
        lemma_credential_position(credentials, name, from + 1);
    }
}

impl Config {
    /// Finds the first connection profile called `name`.
    pub fn find_connection(&self, name: &String) -> (r: Option<usize>)
        ensures
            match r {
                Some(p) => p < self.connections.len() && self.connections[p as int].name@ == name@
                    && connection_position(self@.connections, name@, 0) == Some(p as int),
                None => connection_position(self@.connections, name@, 0) is None,
            },
    {
        let mut i: usize = 0;
        while i < self.connections.len()
            invariant
                i <= self.connections.len(),
                connection_position(self@.connections, name@, 0) == connection_position(
                    self@.connections,
                    name@,
                    i as int,
                ),
            decreases self.connections.len() - i,
        {
            if self.connections[i].name == *name {
                return Some(i);
            }
            i = i + 1;
        }
        None
    }

    /// Finds the first credential called `name`.
    pub fn find_credential(&self, name: &String) -> (r: Option<usize>)
        ensures
            match r {
                Some(p) => p < self.credentials.len() && self.credentials[p as int].name@ == name@
                    && credential_position(self@.credentials, name@, 0) == Some(p as int),
                None => credential_position(self@.credentials, name@, 0) is None,
            },
    {
        let mut i: usize = 0;
        while i < self.credentials.len()
            invariant
                i <= self.credentials.len(),
                credential_position(self@.credentials, name@, 0) == credential_position(
                    self@.credentials,
                    name@,
                    i as int,
                ),
            decreases self.credentials.len() - i,
        {
            if self.credentials[i].name == *name {
                return Some(i);
            }
            i = i + 1;
        }
        None
    }

    /// Whether no two connection profiles share a name.
    fn connection_names_distinct(&self) -> (r: bool)
        ensures
            r == self@.connection_names_distinct(),
    {
        let n = self.connections.len();
        let mut j: usize = 0;
        while j < n
            invariant
                j <= n,
                n == self.connections.len(),
                forall|a: int, b: int|
                    0 <= a < b < j ==> (#[trigger] self@.connections[a]).name != (
                    #[trigger] self@.connections[b]).name,
            decreases n - j,
        {
            let mut i: usize = 0;
            while i < j
                invariant
                    i <= j,
                    j < n,
                    n == self.connections.len(),
                    forall|a: int|
                        0 <= a < i ==> (#[trigger] self@.connections[a]).name
                            != self@.connections[j as int].name,
                decreases j - i,
            {
                if self.connections[i].name == self.connections[j].name {
                    assert(self@.connections[i as int].name == self@.connections[j as int].name);
                    return false;
                }
                i = i + 1;
            }
            j = j + 1;
        }
        true
    }

    /// Whether no two credentials share a name.
    fn credential_names_distinct(&self) -> (r: bool)
        ensures
            r == self@.credential_names_distinct(),
    {
        let n = self.credentials.len();
        let mut j: usize = 0;
        while j < n
            invariant
                j <= n,
                n == self.credentials.len(),
                forall|a: int, b: int|
                    0 <= a < b < j ==> (#[trigger] self@.credentials[a]).name != (
                    #[trigger] self@.credentials[b]).name,
            decreases n - j,
        {
            let mut i: usize = 0;
            while i < j
                invariant
                    i <= j,
                    j < n,
                    n == self.credentials.len(),
                    forall|a: int|
                        0 <= a < i ==> (#[trigger] self@.credentials[a]).name
                            != self@.credentials[j as int].name,
                decreases j - i,
            {
                if self.credentials[i].name == self.credentials[j].name {
                    assert(self@.credentials[i as int].name == self@.credentials[j as int].name);
                    return false;
                }
                i = i + 1;
            }
            j = j + 1;
        }
        true
    }

    /// Whether every credential names a connection profile that exists.
    fn connections_resolve(&self) -> (r: bool)
        ensures
            r == self@.connections_resolve(),
    {
        let mut i: usize = 0;
        while i < self.credentials.len()
            invariant
                i <= self.credentials.len(),
                forall|a: int|
                    0 <= a < i ==> connection_position(
                        self@.connections,
                        (#[trigger] self@.credentials[a]).connection,
                        0,
                    ) is Some,
            decreases self.credentials.len() - i,
        {
            if self.find_connection(&self.credentials[i].connection).is_none() {
                assert(connection_position(
                    self@.connections,
                    self@.credentials[i as int].connection,
                    0,
                ) is None);
                return false;
            }
            i = i + 1;
        }
        true
    }

    /// Checks that the configuration can start a session: that it has a
    /// credential, that names are not used twice, and that each credential's
    /// connection profile exists. Reports the first of these that fails.
    pub fn validate(&self) -> (r: Result<(), ConfigError>)
        ensures
            r is Ok <==> self@.valid(),
            r matches Err(e) ==> self@.fault() == Some(e),
    {
        if self.credentials.len() == 0 {
            Err(ConfigError::NoCredentials)
        } else if !self.connection_names_distinct() {
            Err(ConfigError::DuplicateConnection)
        } else if !self.credential_names_distinct() {
            Err(ConfigError::DuplicateCredential)
        } else if !self.connections_resolve() {
            Err(ConfigError::UnknownConnection)
        } else {
            Ok(())
        }
    }
}

/// The configuration that a session starts with where no configuration file
/// is found: three local databases, and a login for two of them.
pub open spec fn default_config_view() -> ConfigView {
    ConfigView {
        schema: None,
        connections: seq![
            ConnectionView {
                name: "Local mariaDB"@,
                kind: "mariadb"@,
                host: "localhost"@,
                port: 3306,
            },
            ConnectionView {
                name: "Local MySQL"@,
                kind: "mysql"@,
                host: "localhost"@,
                port: 3306,
            },
            ConnectionView {
                name: "Local PostgreSQL"@,
                kind: "postgresql"@,
                host: "localhost"@,
                port: 5432,
            },
        ],
        credentials: seq![
            CredentialView {
                name: "mysql_default"@,
                connection: "Local mariaDB"@,
                username: "root"@,
                password: ""@,
            },
            CredentialView {
                name: "postgresql_default"@,
                connection: "Local PostgreSQL"@,
                username: "postgres"@,
                password: ""@,
            },
        ],
    }
}

/// The default configuration can start a session.
pub proof fn lemma_default_config_valid()
    ensures
        default_config_view().valid(),
{
    reveal_strlit("Local mariaDB");
    reveal_strlit("Local MySQL");
    reveal_strlit("Local PostgreSQL");
    reveal_strlit("mysql_default");
    reveal_strlit("postgresql_default");
    let c = default_config_view();
    assert(c.connections[1].name.len() == 11);
    assert(c.connections[2].name.len() == 16);
    assert(c.credentials[1].name.len() == 18);
    assert(connection_position(c.connections, c.credentials[1].connection, 0) == Some(2int)) by {
        reveal_with_fuel(connection_position, 4);
    }
}

/// Makes a connection profile.
fn connection(name: &str, kind: &str, host: &str, port: u16) -> (r: Connection)
    ensures
        r@ == (ConnectionView { name: name@, kind: kind@, host: host@, port }),
{
    Connection { name: name.to_owned(), kind: kind.to_owned(), host: host.to_owned(), port }
}

/// Makes a credential.
fn credential(name: &str, connection: &str, username: &str, password: &str) -> (r: Credential)
    ensures
        r@ == (CredentialView {
            name: name@,
            connection: connection@,
            username: username@,
            password: password@,
        }),
{
    Credential {
        name: name.to_owned(),
        connection: connection.to_owned(),
        username: username.to_owned(),
        password: password.to_owned(),
    }
}

/// The configuration that a session starts with where no configuration file
/// is found.
pub fn default_config() -> (r: Config)
    ensures
        r@ == default_config_view(),
        r@.valid(),
{
    let mut connections: Vec<Connection> = Vec::new();
    connections.push(connection("Local mariaDB", "mariadb", "localhost", 3306));
    connections.push(connection("Local MySQL", "mysql", "localhost", 3306));
    connections.push(connection("Local PostgreSQL", "postgresql", "localhost", 5432));
    let mut credentials: Vec<Credential> = Vec::new();
    credentials.push(credential("mysql_default", "Local mariaDB", "root", ""));
    credentials.push(credential("postgresql_default", "Local PostgreSQL", "postgres", ""));
    let config = Config { schema: None, connections, credentials };
    proof {
        assert(config@.connections =~= default_config_view().connections);
        assert(config@.credentials =~= default_config_view().credentials);
        lemma_default_config_valid();
    }
    config
}

} // verus!
