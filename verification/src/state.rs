//! The state of a session that every front end shares: the configuration,
//! the active credential, the query text, the database name and the result
//! table.

use vstd::prelude::*;
use vstd::string::*;
use vstd::arithmetic::div_mod::{lemma_add_mod_noop, lemma_mod_self_0, lemma_small_mod};
use crate::config::{
    connection_position,
    credential_position,
    lemma_credential_position,
    Config,
    ConfigError,
    ConfigView,
    Connection,
    ConnectionView,
    Credential,
    CredentialView,
};
use crate::tab::Tab;
use crate::table::{Table, TableView};

verus! {

/// The shared state of a session.
#[derive(Debug)]
pub struct AppState {
    pub current_tab: Tab,
    pub config: Config,
    pub sql_query: String,
    /// The active credential: the one that the next query logs in with.
    pub user: Credential,
    pub table: Table,
    /// The name of the database that the next query goes to.
    pub db: String,
}

/// An `AppState` over sequences.
pub struct AppStateView {
    pub current_tab: Tab,
    pub config: ConfigView,
    pub sql_query: Seq<char>,
    pub user: CredentialView,
    pub table: TableView,
    pub db: Seq<char>,
}

impl View for AppState {
    type V = AppStateView;

    open spec fn view(&self) -> AppStateView {
        AppStateView {
            current_tab: self.current_tab,
            config: self.config@,
            sql_query: self.sql_query@,
            user: self.user@,
            table: self.table@,
            db: self.db@,
        }
    }
}

impl AppStateView {
    /// The position of the credential that becomes active next: one past the
    /// first credential with the active one's name, around the end of the
    /// list; where no credential has that name, one past the first.
    pub open spec fn next_user_index(self) -> int {
        let current = match credential_position(self.config.credentials, self.user.name, 0) {
            Some(p) => p,
            None => 0,
        };
        (current + 1) % (self.config.credentials.len() as int)
    }

    /// The state after the active credential has given way to the next.
    pub open spec fn rotated(self) -> AppStateView {
        AppStateView { user: self.config.credentials[self.next_user_index()], ..self }
    }

    /// The state after `times` rotations.
    pub open spec fn rotated_times(self, times: nat) -> AppStateView
        decreases times,
    {
        if times == 0 {
            self
        } else {
            self.rotated_times((times - 1) as nat).rotated()
        }
    }

    /// The connection profile that a credential is for: the first profile
    /// with the name that the credential gives.
    pub open spec fn resolved(self, credential: CredentialView) -> Option<ConnectionView> {
        match connection_position(self.config.connections, credential.connection, 0) {
            Some(p) => Some(self.config.connections[p]),
            None => None,
        }
    }

    /// The state is one that a session can be in: the configuration is
    /// valid, the active credential is one of its credentials, and the rows
    /// of the table line up with its headers.
    pub open spec fn wf(self) -> bool {
        &&& self.config.valid()
        &&& self.config.credentials.contains(self.user)
        &&& self.table.aligned()
    }
}

/// With distinct names, rotating from the credential at `position` makes
/// the one after it active, around the end of the list.
pub proof fn lemma_rotated_from(s: AppStateView, position: int)
    requires
        s.config.credential_names_distinct(),
        0 <= position < s.config.credentials.len(),
        s.user == s.config.credentials[position],
    ensures
        s.next_user_index() == (position + 1) % (s.config.credentials.len() as int),
        s.rotated().user == s.config.credentials[(position + 1) % (s.config.credentials.len() as int)],
        0 <= s.next_user_index() < s.config.credentials.len(),
{
    lemma_credential_position(s.config.credentials, s.user.name, 0);
}

/// With distinct names, `times` rotations from the credential at `position`
/// make the one `times` places further active, around the end of the list.
pub proof fn lemma_rotated_times_from(s: AppStateView, position: int, times: nat)
    requires
        s.config.credential_names_distinct(),
        0 <= position < s.config.credentials.len(),
        s.user == s.config.credentials[position],
    ensures
        s.rotated_times(times) == (AppStateView {
            user: s.config.credentials[(position + times) % (s.config.credentials.len() as int)],
            ..s
        }),
    decreases times,
{
    let n = s.config.credentials.len() as int;
    if times == 0 {
        lemma_small_mod(position as nat, n as nat);
    } else {
        lemma_rotated_times_from(s, position, (times - 1) as nat);
        let before = s.rotated_times((times - 1) as nat);
        let p = (position + times - 1) % n;
        lemma_rotated_from(before, p);
        lemma_add_mod_noop(position + times - 1, 1, n);
        if n == 1 {
        } else {
            lemma_small_mod(1, n as nat);
        }
    }
}

/// Rotating as many times as there are credentials leads back to the
/// credential that was active at the start, and changes nothing else;
/// provided that no two credentials share a name and that the active
/// credential is one of the list.
pub proof fn lemma_full_rotation_is_identity(s: AppStateView)
    requires
        s.config.credential_names_distinct(),
        s.config.credentials.contains(s.user),
    ensures
        s.rotated_times(s.config.credentials.len()) == s,
{
    let n = s.config.credentials.len() as int;
    let position = choose|i: int| 0 <= i < n && s.config.credentials[i] == s.user;
    lemma_rotated_times_from(s, position, n as nat);
    lemma_add_mod_noop(position, n, n);
    lemma_mod_self_0(n);
    lemma_small_mod(position as nat, n as nat);
}

/// A rotation keeps a well-formed state well formed.
pub proof fn lemma_rotated_wf(s: AppStateView)
    requires
        s.wf(),
    ensures
        s.rotated().wf(),
{
    let n = s.config.credentials.len() as int;
    let position = choose|i: int| 0 <= i < n && s.config.credentials[i] == s.user;
    lemma_rotated_from(s, position);
}

impl AppState {
    /// The state is one that a session can be in.
    pub open spec fn wf(&self) -> bool {
        self@.wf()
    }

    /// The state that a session starts in: the first credential is active,
    /// the editor shows a sample query, and there is no result yet.
    pub fn new(config: Config) -> (s: AppState)
        requires
            config@.credentials.len() > 0,
        ensures
            s@.config == config@,
            s@.user == config@.credentials[0],
            s@.current_tab == Tab::SqlEditor,
            s@.sql_query == "select * from data;"@,
            s@.db == "bewerbungen"@,
            s@.table.is_empty(),
            s@.table.raw_data is None,
            config@.valid() ==> s.wf(),
    {
        let user = config.credentials[0].clone();
        AppState {
            current_tab: Tab::default(),
            config,
            sql_query: "select * from data;".to_owned(),
            user,
            table: Table::default(),
            db: "bewerbungen".to_owned(),
        }
    }

    /// Starts a session from a configuration, if the configuration can
    /// start one; else says what is wrong with it.
    pub fn from_config(config: Config) -> (r: Result<AppState, ConfigError>)
        ensures
            r is Ok <==> config@.valid(),
            r matches Ok(s) ==> s.wf() && s@.config == config@ && s@.user == config@.credentials[0],
            r matches Err(e) ==> config@.fault() == Some(e),
    {
        match config.validate() {
            Ok(()) => Ok(AppState::new(config)),
            Err(e) => Err(e),
        }
    }

    /// The active credential.
    pub fn active(&self) -> (c: &Credential)
        ensures
            c@ == self@.user,
    {
        &self.user
    }

    /// Makes the next credential of the list the active one; after the last
    /// comes the first.
    pub fn set_next_user(&mut self)
        requires
            old(self).config.credentials.len() > 0,
        ensures
            final(self)@ == old(self)@.rotated(),
            old(self).wf() ==> final(self).wf(),
    {
        let current = match self.config.find_credential(&self.user.name) {
            Some(p) => p,
            None => 0,
        };
        proof {
            lemma_credential_position(self@.config.credentials, self@.user.name, 0);
        }
        let next = (current + 1) % self.config.credentials.len();
        self.user = self.config.credentials[next].clone();
        proof {
            if old(self).wf() {
                lemma_rotated_wf(old(self)@);
            }
        }
    }

    /// Looks up the connection profile that `credential` is for.
    pub fn resolve(&self, credential: &Credential) -> (r: Option<&Connection>)
        ensures
            match r {
                Some(c) => self@.resolved(credential@) == Some(c@),
                None => self@.resolved(credential@) is None,
            },
    {
        match self.config.find_connection(&credential.connection) {
            Some(p) => Some(&self.config.connections[p]),
            None => None,
        }
    }
}

} // verus!
