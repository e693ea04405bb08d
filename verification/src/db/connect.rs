//! Reaching a database: connection settings, SSH tunnels and the metadata queries.
use vstd::prelude::*;
use vstd::string::*;

use crate::db::{
    cancelled_error, outcome_view, plain_error, Error, ErrorView, Output, OutputView, Request,
    RequestView, ResultColumn, ResultColumnView, TableRef, TableRefView,
};
use crate::keyed::KeyedMap;
use crate::storage::{ConnectionProfile, ConnectionProfileView, SshConfig, SshConfigView};
use crate::text::{
    concat, concat3, contains_char, decimal, decimal_text, trim, trimmed,
};
use crate::value::Value;

verus! {

/// Everything that a new database connection is configured with.
#[derive(PartialEq, Eq)]
pub struct ConnectSettings {
    pub host: String,
    /// Whether TCP goes to the local end of a tunnel, while `host` stays the name that TLS verifies.
    pub through_localhost: bool,
    pub port: u16,
    pub database: String,
    pub user: String,
    pub password: Option<String>,
    pub require_tls: bool,
}

/// What a `ConnectSettings` denotes.
pub ghost struct ConnectSettingsView {
    pub host: Seq<char>,
    pub through_localhost: bool,
    pub port: u16,
    pub database: Seq<char>,
    pub user: Seq<char>,
    pub password: Option<Seq<char>>,
    pub require_tls: bool,
}

impl DeepView for ConnectSettings {
    type V = ConnectSettingsView;

    open spec fn deep_view(&self) -> ConnectSettingsView {
        ConnectSettingsView {
            host: self.host@,
            through_localhost: self.through_localhost,
            port: self.port,
            database: self.database@,
            user: self.user@,
            password: self.password.deep_view(),
            require_tls: self.require_tls,
        }
    }
}

impl Clone for ConnectSettings {
    fn clone(&self) -> (copy: ConnectSettings)
        ensures
            copy@ == self@,
    {
        self.duplicate()
    }
}

impl View for ConnectSettings {
    type V = ConnectSettingsView;

    open spec fn view(&self) -> ConnectSettingsView {
        self.deep_view()
    }
}

impl Value for ConnectSettings {
    fn duplicate(&self) -> (copy: ConnectSettings) {
        ConnectSettings {
            host: self.host.duplicate(),
            through_localhost: self.through_localhost,
            port: self.port,
            database: self.database.duplicate(),
            user: self.user.duplicate(),
            password: self.password.duplicate(),
            require_tls: self.require_tls,
        }
    }

    fn same(&self, other: &ConnectSettings) -> (same: bool) {
        self.host.same(&other.host)
            && self.through_localhost == other.through_localhost
            && self.port == other.port
            && self.database.same(&other.database)
            && self.user.same(&other.user)
            && self.password.same(&other.password)
            && self.require_tls == other.require_tls
    }
}

/// The settings of a connection to one database of a profile. A given password that is not empty comes
/// before that of the environment.
pub open spec fn settings_for(
    profile: ConnectionProfileView,
    password: Option<Seq<char>>,
    environment_password: Option<Seq<char>>,
    database: Seq<char>,
    tunnel_port: Option<u16>,
) -> ConnectSettingsView {
    ConnectSettingsView {
        host: profile.host,
        through_localhost: tunnel_port is Some,
        port: match tunnel_port {
            Some(port) => port,
            None => profile.port,
        },
        database,
        user: profile.user,
        password: if password is Some && password->Some_0.len() > 0 {
            password
        } else {
            environment_password
        },
        require_tls: profile.require_tls,
    }
}

/// The settings of a connection to one database of a profile.
pub fn connect_settings(
    profile: &ConnectionProfile,
    password: &Option<String>,
    environment_password: &Option<String>,
    database: &str,
    tunnel_port: Option<u16>,
) -> (settings: ConnectSettings)
    ensures
        settings@ == settings_for(
            profile@,
            password.deep_view(),
            environment_password.deep_view(),
            database@,
            tunnel_port,
        ),
{
    let given = match password {
        Some(text) => text.as_str().unicode_len() > 0,
        None => false,
    };
    ConnectSettings {
        host: profile.host.clone(),
        through_localhost: tunnel_port.is_some(),
        port: match tunnel_port {
            Some(port) => port,
            None => profile.port,
        },
        database: database.to_owned(),
        user: profile.user.clone(),
        password: if given {
            password.duplicate()
        } else {
            environment_password.duplicate()
        },
        require_tls: profile.require_tls,
    }
}

/// What a tunnel is opened for; a tunnel serves only requests with equal settings.
#[derive(Debug, PartialEq, Eq)]
pub struct TunnelSettings {
    pub database_host: String,
    pub database_port: u16,
    pub ssh: SshConfig,
}

/// What a `TunnelSettings` denotes.
pub ghost struct TunnelSettingsView {
    pub database_host: Seq<char>,
    pub database_port: u16,
    pub ssh: SshConfigView,
}

impl DeepView for TunnelSettings {
    type V = TunnelSettingsView;

    open spec fn deep_view(&self) -> TunnelSettingsView {
        TunnelSettingsView {
            database_host: self.database_host@,
            database_port: self.database_port,
            ssh: self.ssh.deep_view(),
        }
    }
}

impl Clone for TunnelSettings {
    fn clone(&self) -> (copy: TunnelSettings)
        ensures
            copy@ == self@,
    {
        self.duplicate()
    }
}

impl View for TunnelSettings {
    type V = TunnelSettingsView;

    open spec fn view(&self) -> TunnelSettingsView {
        self.deep_view()
    }
}

impl Value for TunnelSettings {
    fn duplicate(&self) -> (copy: TunnelSettings) {
        TunnelSettings {
            database_host: self.database_host.duplicate(),
            database_port: self.database_port,
            ssh: self.ssh.duplicate(),
        }
    }

    fn same(&self, other: &TunnelSettings) -> (same: bool) {
        self.database_host.same(&other.database_host)
            && self.database_port == other.database_port
            && self.ssh.same(&other.ssh)
    }
}

/// The tunnel that a profile needs.
pub open spec fn tunnel_for(profile: ConnectionProfileView) -> Option<TunnelSettingsView> {
    match profile.ssh {
        Some(ssh) => Some(
            TunnelSettingsView { database_host: profile.host, database_port: profile.port, ssh },
        ),
        None => None,
    }
}

/// The tunnel that a profile needs, where it has an SSH gateway.
pub fn tunnel_settings(profile: &ConnectionProfile) -> (settings: Option<TunnelSettings>)
    ensures
        settings.deep_view() == tunnel_for(profile@),
{
    match &profile.ssh {
        Some(ssh) => Some(
            TunnelSettings {
                database_host: profile.host.clone(),
                database_port: profile.port,
                ssh: ssh.duplicate(),
            },
        ),
        None => None,
    }
}

/// An open tunnel: what it was opened for, and its local end.
#[derive(Debug, PartialEq, Eq)]
pub struct ActiveTunnel {
    pub settings: TunnelSettings,
    pub local_port: u16,
}

/// What a `ActiveTunnel` denotes.
pub ghost struct ActiveTunnelView {
    pub settings: TunnelSettingsView,
    pub local_port: u16,
}

impl DeepView for ActiveTunnel {
    type V = ActiveTunnelView;

    open spec fn deep_view(&self) -> ActiveTunnelView {
        ActiveTunnelView {
            settings: self.settings.deep_view(),
            local_port: self.local_port,
        }
    }
}

impl Clone for ActiveTunnel {
    fn clone(&self) -> (copy: ActiveTunnel)
        ensures
            copy@ == self@,
    {
        self.duplicate()
    }
}

impl View for ActiveTunnel {
    type V = ActiveTunnelView;

    open spec fn view(&self) -> ActiveTunnelView {
        self.deep_view()
    }
}

impl Value for ActiveTunnel {
    fn duplicate(&self) -> (copy: ActiveTunnel) {
        ActiveTunnel {
            settings: self.settings.duplicate(),
            local_port: self.local_port,
        }
    }

    fn same(&self, other: &ActiveTunnel) -> (same: bool) {
        self.settings.same(&other.settings)
            && self.local_port == other.local_port
    }
}

/// The open tunnels, one per profile. Sharing them avoids a new SSH login for each explorer request.
pub struct TunnelManager {
    tunnels: KeyedMap<String, ActiveTunnel>,
}

impl View for TunnelManager {
    type V = Map<Seq<char>, ActiveTunnelView>;

    closed spec fn view(&self) -> Map<Seq<char>, ActiveTunnelView> {
        self.tunnels@
    }
}

/// The local port of an open tunnel that serves a request: it was opened with the same settings and still
/// runs.
pub open spec fn reusable_port(
    tunnels: Map<Seq<char>, ActiveTunnelView>,
    profile_id: Seq<char>,
    settings: TunnelSettingsView,
    running: bool,
) -> Option<u16> {
    if tunnels.contains_key(profile_id) && tunnels[profile_id].settings == settings && running {
        Some(tunnels[profile_id].local_port)
    } else {
        None
    }
}

impl TunnelManager {
    /// No tunnels.
    pub fn new() -> (manager: TunnelManager)
        ensures
            manager@ == Map::<Seq<char>, ActiveTunnelView>::empty(),
    {
        TunnelManager { tunnels: KeyedMap::new() }
    }

    /// Forgets the tunnel of a profile that changes or is removed.
    pub fn invalidate(&mut self, profile_id: &str)
        ensures
            final(self)@ == old(self)@.remove(profile_id@),
    {
        let _ = self.tunnels.remove(&profile_id.to_owned());
    }

    /// The local port of a tunnel that serves a request. A stale tunnel is forgotten, before another one
    /// takes a port. `running` says whether the process of the profile's tunnel still runs.
    pub fn endpoint(&mut self, profile_id: &str, settings: &TunnelSettings, running: bool) -> (port: Option<
        u16,
    >)
        ensures
            port == reusable_port(old(self)@, profile_id@, settings@, running),
            final(self)@ == (if port is Some {
                old(self)@
            } else {
                old(self)@.remove(profile_id@)
            }),
    {
        let key = profile_id.to_owned();
        let found = match self.tunnels.get(&key) {
            Some(tunnel) => if tunnel.settings.same(settings) && running {
                Some(tunnel.local_port)
            } else {
                None
            },
            None => None,
        };
        if found.is_none() {
            let _ = self.tunnels.remove(&key);
        }
        found
    }

    /// Remembers a tunnel that is ready.
    pub fn opened(&mut self, profile_id: &str, settings: TunnelSettings, local_port: u16)
        ensures
            final(self)@ == old(self)@.insert(
                profile_id@,
                ActiveTunnelView { settings: settings@, local_port },
            ),
    {
        self.tunnels.insert(profile_id.to_owned(), ActiveTunnel { settings, local_port });
    }
}

/// A tunnel serves later requests with the same settings, and none with others.
pub proof fn tunnels_serve_equal_settings(
    tunnels: Map<Seq<char>, ActiveTunnelView>,
    profile_id: Seq<char>,
    settings: TunnelSettingsView,
    other: TunnelSettingsView,
    local_port: u16,
)
    requires
        other != settings,
    ensures
        reusable_port(
            tunnels.insert(profile_id, ActiveTunnelView { settings, local_port }),
            profile_id,
            settings,
            true,
        ) == Some(local_port),
        reusable_port(
            tunnels.insert(profile_id, ActiveTunnelView { settings, local_port }),
            profile_id,
            other,
            true,
        ) is None,
{
}

/// The local forward that a tunnel opens. An IPv6 host stands in brackets.
pub open spec fn forward(settings: TunnelSettingsView, local_port: u16) -> Seq<char> {
    let host = if settings.database_host.contains(':') {
        "["@ + settings.database_host + "]"@
    } else {
        settings.database_host
    };
    "127.0.0.1:"@ + decimal(local_port as nat) + ":"@ + host + ":"@ + decimal(
        settings.database_port as nat,
    )
}

/// The command line of a tunnel: no command, no terminal, no prompts, known hosts only.
pub open spec fn tunnel_arguments(settings: TunnelSettingsView, local_port: u16) -> Seq<Seq<char>> {
    seq![
        "-N"@,
        "-T"@,
        "-o"@,
        "BatchMode=yes"@,
        "-o"@,
        "StrictHostKeyChecking=yes"@,
        "-o"@,
        "ExitOnForwardFailure=yes"@,
        "-o"@,
        "ConnectTimeout=10"@,
        "-o"@,
        "ServerAliveInterval=30"@,
        "-o"@,
        "ServerAliveCountMax=3"@,
        "-L"@,
        forward(settings, local_port),
        "-p"@,
        decimal(settings.ssh.port as nat),
        "-l"@,
        settings.ssh.user,
    ] + (match settings.ssh.identity_file {
        Some(file) => if file.len() > 0 {
            seq!["-i"@, file]
        } else {
            Seq::empty()
        },
        None => Seq::empty(),
    }) + seq![settings.ssh.host]
}

fn forward_text(settings: &TunnelSettings, local_port: u16) -> (text: String)
    ensures
        text@ == forward(settings@, local_port),
{
    let host = if contains_char(settings.database_host.as_str(), ':') {
        concat3("[", settings.database_host.as_str(), "]")
    } else {
        settings.database_host.clone()
    };
    let mut text = concat3("127.0.0.1:", decimal_text(local_port as u64).as_str(), ":");
    text.append(host.as_str());
    text.append(":");
    text.append(decimal_text(settings.database_port as u64).as_str());
    text
}

/// The command line of a tunnel.
pub fn ssh_arguments(settings: &TunnelSettings, local_port: u16) -> (arguments: Vec<String>)
    ensures
        arguments.deep_view() == tunnel_arguments(settings@, local_port),
{
    let mut arguments: Vec<String> = Vec::new();
    arguments.push("-N".to_owned());
    arguments.push("-T".to_owned());
    arguments.push("-o".to_owned());
    arguments.push("BatchMode=yes".to_owned());
    arguments.push("-o".to_owned());
    arguments.push("StrictHostKeyChecking=yes".to_owned());
    arguments.push("-o".to_owned());
    arguments.push("ExitOnForwardFailure=yes".to_owned());
    arguments.push("-o".to_owned());
    arguments.push("ConnectTimeout=10".to_owned());
    arguments.push("-o".to_owned());
    arguments.push("ServerAliveInterval=30".to_owned());
    arguments.push("-o".to_owned());
    arguments.push("ServerAliveCountMax=3".to_owned());
    arguments.push("-L".to_owned());
    arguments.push(forward_text(settings, local_port));
    arguments.push("-p".to_owned());
    arguments.push(decimal_text(settings.ssh.port as u64));
    arguments.push("-l".to_owned());
    arguments.push(settings.ssh.user.clone());
    match &settings.ssh.identity_file {
        Some(file) => {
            if file.as_str().unicode_len() > 0 {
                arguments.push("-i".to_owned());
                arguments.push(file.clone());
            }
        },
        None => {},
    }
    arguments.push(settings.ssh.host.clone());
    assert(arguments.deep_view() =~= tunnel_arguments(settings@, local_port));
    arguments
}

/// What was seen of a tunnel that is being opened.
#[derive(Debug, PartialEq, Eq)]
pub enum TunnelEvent {
    Cancelled,
    Exited {
        status: String,
        diagnostics: String,
    },
    Ready,
    /// The time for opening it is over.
    Expired {
        diagnostics: String,
    },
    Pending,
}

/// What a `TunnelEvent` denotes.
pub ghost enum TunnelEventView {
    Cancelled,
    Exited {
        status: Seq<char>,
        diagnostics: Seq<char>,
    },
    Ready,
    Expired {
        diagnostics: Seq<char>,
    },
    Pending,
}

impl DeepView for TunnelEvent {
    type V = TunnelEventView;

    open spec fn deep_view(&self) -> TunnelEventView {
        match self {
            TunnelEvent::Cancelled => TunnelEventView::Cancelled,
            TunnelEvent::Exited { status, diagnostics } => TunnelEventView::Exited {
                status: status@,
                diagnostics: diagnostics@,
            },
            TunnelEvent::Ready => TunnelEventView::Ready,
            TunnelEvent::Expired { diagnostics } => TunnelEventView::Expired {
                diagnostics: diagnostics@,
            },
            TunnelEvent::Pending => TunnelEventView::Pending,
        }
    }
}

impl Clone for TunnelEvent {
    fn clone(&self) -> (copy: TunnelEvent)
        ensures
            copy@ == self@,
    {
        self.duplicate()
    }
}

impl View for TunnelEvent {
    type V = TunnelEventView;

    open spec fn view(&self) -> TunnelEventView {
        self.deep_view()
    }
}

impl Value for TunnelEvent {
    fn duplicate(&self) -> (copy: TunnelEvent) {
        match self {
            TunnelEvent::Cancelled => TunnelEvent::Cancelled,
            TunnelEvent::Exited { status, diagnostics } => TunnelEvent::Exited {
                status: status.duplicate(),
                diagnostics: diagnostics.duplicate(),
            },
            TunnelEvent::Ready => TunnelEvent::Ready,
            TunnelEvent::Expired { diagnostics } => TunnelEvent::Expired {
                diagnostics: diagnostics.duplicate(),
            },
            TunnelEvent::Pending => TunnelEvent::Pending,
        }
    }

    fn same(&self, other: &TunnelEvent) -> (same: bool) {
        match (self, other) {
            (TunnelEvent::Cancelled, TunnelEvent::Cancelled) => true,
            (
                TunnelEvent::Exited { status: status_a, diagnostics: diagnostics_a },
                TunnelEvent::Exited { status: status_b, diagnostics: diagnostics_b },
            ) => {
                status_a.same(status_b) && diagnostics_a.same(diagnostics_b)
            },
            (TunnelEvent::Ready, TunnelEvent::Ready) => true,
            (
                TunnelEvent::Expired { diagnostics: diagnostics_a },
                TunnelEvent::Expired { diagnostics: diagnostics_b },
            ) => {
                diagnostics_a.same(diagnostics_b)
            },
            (TunnelEvent::Pending, TunnelEvent::Pending) => true,
            _ => false,
        }
    }
}

/// What to do with a tunnel that is being opened.
#[derive(Debug, PartialEq, Eq)]
pub enum TunnelAction {
    Use,
    /// Look again a little later.
    Wait,
    /// Stop the process and report.
    Kill(Error),
    /// The process is gone already.
    Report(Error),
}

/// What a `TunnelAction` denotes.
pub ghost enum TunnelActionView {
    Use,
    Wait,
    Kill(ErrorView),
    Report(ErrorView),
}

impl DeepView for TunnelAction {
    type V = TunnelActionView;

    open spec fn deep_view(&self) -> TunnelActionView {
        match self {
            TunnelAction::Use => TunnelActionView::Use,
            TunnelAction::Wait => TunnelActionView::Wait,
            TunnelAction::Kill(value) => TunnelActionView::Kill(value.deep_view()),
            TunnelAction::Report(value) => TunnelActionView::Report(value.deep_view()),
        }
    }
}

impl Clone for TunnelAction {
    fn clone(&self) -> (copy: TunnelAction)
        ensures
            copy@ == self@,
    {
        self.duplicate()
    }
}

impl View for TunnelAction {
    type V = TunnelActionView;

    open spec fn view(&self) -> TunnelActionView {
        self.deep_view()
    }
}

impl Value for TunnelAction {
    fn duplicate(&self) -> (copy: TunnelAction) {
        match self {
            TunnelAction::Use => TunnelAction::Use,
            TunnelAction::Wait => TunnelAction::Wait,
            TunnelAction::Kill(value) => TunnelAction::Kill(value.duplicate()),
            TunnelAction::Report(value) => TunnelAction::Report(value.duplicate()),
        }
    }

    fn same(&self, other: &TunnelAction) -> (same: bool) {
        match (self, other) {
            (TunnelAction::Use, TunnelAction::Use) => true,
            (TunnelAction::Wait, TunnelAction::Wait) => true,
            (TunnelAction::Kill(value_a), TunnelAction::Kill(value_b)) => value_a.same(value_b),
            (TunnelAction::Report(value_a), TunnelAction::Report(value_b)) => value_a.same(value_b),
            _ => false,
        }
    }
}

/// The diagnostics to report.
pub open spec fn reported_diagnostics(text: Seq<char>) -> Seq<char> {
    if trimmed(text).len() == 0 {
        "no diagnostic output"@
    } else {
        trimmed(text)
    }
}

fn diagnostics_text(text: &str) -> (reported: String)
    ensures
        reported@ == reported_diagnostics(text@),
{
    let text = trim(text);
    if text.as_str().unicode_len() == 0 {
        "no diagnostic output".to_owned()
    } else {
        text
    }
}

/// What follows from what was seen of a tunnel.
pub open spec fn tunnel_action(event: TunnelEventView) -> TunnelActionView {
    match event {
        TunnelEventView::Cancelled => TunnelActionView::Kill(
            plain_error("SSH connection was cancelled"@),
        ),
        TunnelEventView::Exited { status, diagnostics } => TunnelActionView::Report(
            plain_error(
                "SSH tunnel failed with "@ + status + ": "@ + reported_diagnostics(diagnostics),
            ),
        ),
        TunnelEventView::Ready => TunnelActionView::Use,
        TunnelEventView::Expired { diagnostics } => TunnelActionView::Kill(
            plain_error(
                "SSH tunnel did not become ready within 10 seconds: "@ + reported_diagnostics(
                    diagnostics,
                ),
            ),
        ),
        TunnelEventView::Pending => TunnelActionView::Wait,
    }
}

/// What follows from what was seen of a tunnel.
pub fn watch_tunnel(event: &TunnelEvent) -> (action: TunnelAction)
    ensures
        action@ == tunnel_action(event@),
{
    match event {
        TunnelEvent::Cancelled => TunnelAction::Kill(Error::new("SSH connection was cancelled")),
        TunnelEvent::Exited { status, diagnostics } => {
            let mut text = concat3("SSH tunnel failed with ", status.as_str(), ": ");
            text.append(diagnostics_text(diagnostics.as_str()).as_str());
            TunnelAction::Report(Error::new(text.as_str()))
        },
        TunnelEvent::Ready => TunnelAction::Use,
        TunnelEvent::Expired { diagnostics } => {
            let text = concat(
                "SSH tunnel did not become ready within 10 seconds: ",
                diagnostics_text(diagnostics.as_str()).as_str(),
            );
            TunnelAction::Kill(Error::new(text.as_str()))
        },
        TunnelEvent::Pending => TunnelAction::Wait,
    }
}

/// Refuses to begin work that was cancelled already.
pub fn ensure_not_cancelled(cancelled: bool) -> (result: Result<(), Error>)
    ensures
        match result {
            Ok(_) => !cancelled,
            Err(error) => cancelled && error@ == cancelled_error(),
        },
{
    if cancelled {
        return Err(Error::cancelled());
    }
    Ok(())
}

/// The query that lists databases.
pub open spec fn databases_sql() -> Seq<char> {
    "SELECT datname FROM pg_database WHERE datallowconn AND NOT datistemplate ORDER BY datname"@
}

/// The query that lists schemas; preferences filter them when they are shown.
pub open spec fn schemas_sql() -> Seq<char> {
    "SELECT nspname FROM pg_namespace ORDER BY nspname"@
}

/// The query that lists the relations of a schema, each with its kind.
pub open spec fn tables_sql() -> Seq<char> {
    "SELECT c.relname, CASE c.relkind WHEN 'r' THEN 'table' WHEN 'p' THEN 'partitioned table' WHEN 'v' THEN 'view' WHEN 'm' THEN 'materialized view' WHEN 'f' THEN 'foreign table' ELSE c.relkind::text END FROM pg_class c JOIN pg_namespace n ON n.oid = c.relnamespace WHERE n.nspname = $1 AND c.relkind IN ('r', 'p', 'v', 'm', 'f') ORDER BY c.relname"@
}

/// The query that reads the columns of a table, by schema and name: name, type, whether it is stored, whether it
/// belongs to the primary key, and whether a value may be inserted.
pub open spec fn columns_sql() -> Seq<char> {
    "SELECT a.attname, pg_catalog.format_type(a.atttypid, a.atttypmod), a.attgenerated = '', EXISTS (SELECT 1 FROM pg_index i WHERE i.indrelid = c.oid AND i.indisprimary AND a.attnum = ANY(i.indkey::smallint[])), a.attgenerated = '' AND a.attidentity <> 'a' FROM pg_class c JOIN pg_namespace n ON n.oid = c.relnamespace JOIN pg_attribute a ON a.attrelid = c.oid WHERE n.nspname = $1 AND c.relname = $2 AND a.attnum > 0 AND NOT a.attisdropped ORDER BY a.attnum"@
}

/// The query that reads the columns of a table, by schema and name: name, type, whether it is stored, whether it
/// belongs to the primary key, and whether a value may be inserted.
pub fn columns_query() -> (sql: &'static str)
    ensures
        sql@ == columns_sql(),
{
    "SELECT a.attname, pg_catalog.format_type(a.atttypid, a.atttypmod), a.attgenerated = '', EXISTS (SELECT 1 FROM pg_index i WHERE i.indrelid = c.oid AND i.indisprimary AND a.attnum = ANY(i.indkey::smallint[])), a.attgenerated = '' AND a.attidentity <> 'a' FROM pg_class c JOIN pg_namespace n ON n.oid = c.relnamespace JOIN pg_attribute a ON a.attrelid = c.oid WHERE n.nspname = $1 AND c.relname = $2 AND a.attnum > 0 AND NOT a.attisdropped ORDER BY a.attnum"
}

/// The query that reads the attribute numbers of a table, by its object id.
pub open spec fn attributes_sql() -> Seq<char> {
    "SELECT attnum FROM pg_catalog.pg_attribute WHERE attrelid = $1 AND attnum > 0 AND NOT attisdropped ORDER BY attnum"@
}

/// The query that reads the attribute numbers of a table, by its object id.
pub fn attributes_query() -> (sql: &'static str)
    ensures
        sql@ == attributes_sql(),
{
    "SELECT attnum FROM pg_catalog.pg_attribute WHERE attrelid = $1 AND attnum > 0 AND NOT attisdropped ORDER BY attnum"
}

/// The query that reads what a relation is, by its object id: schema, name, kind, and whether others inherit it.
pub open spec fn relation_sql() -> Seq<char> {
    "SELECT n.nspname, c.relname, c.relkind::text, EXISTS (SELECT 1 FROM pg_catalog.pg_inherits WHERE inhparent = c.oid) FROM pg_catalog.pg_class c JOIN pg_catalog.pg_namespace n ON n.oid = c.relnamespace WHERE c.oid = $1"@
}

/// The query that reads what a relation is, by its object id: schema, name, kind, and whether others inherit it.
pub fn relation_query() -> (sql: &'static str)
    ensures
        sql@ == relation_sql(),
{
    "SELECT n.nspname, c.relname, c.relkind::text, EXISTS (SELECT 1 FROM pg_catalog.pg_inherits WHERE inhparent = c.oid) FROM pg_catalog.pg_class c JOIN pg_catalog.pg_namespace n ON n.oid = c.relnamespace WHERE c.oid = $1"
}

/// The query that reads the object id of a table, by its quoted name.
pub open spec fn table_oid_sql() -> Seq<char> {
    "SELECT $1::text::regclass::oid"@
}

/// The query that reads the object id of a table, by its quoted name.
pub fn table_oid_query() -> (sql: &'static str)
    ensures
        sql@ == table_oid_sql(),
{
    "SELECT $1::text::regclass::oid"
}

/// The query that reads the process id of a session.
pub open spec fn backend_pid_sql() -> Seq<char> {
    "SELECT pg_backend_pid()"@
}

/// The query that reads the process id of a session.
pub fn backend_pid_query() -> (sql: &'static str)
    ensures
        sql@ == backend_pid_sql(),
{
    "SELECT pg_backend_pid()"
}

/// The query that reads the activity of a session, by its process id.
pub open spec fn activity_sql() -> Seq<char> {
    "SELECT state FROM pg_catalog.pg_stat_activity WHERE pid = $1"@
}

/// The query that reads the activity of a session, by its process id.
pub fn activity_query() -> (sql: &'static str)
    ensures
        sql@ == activity_sql(),
{
    "SELECT state FROM pg_catalog.pg_stat_activity WHERE pid = $1"
}

/// A catalog query on a connection of its own.
#[derive(PartialEq, Eq)]
pub struct MetadataQuery {
    pub profile: ConnectionProfile,
    pub password: Option<String>,
    pub database: String,
    pub sql: String,
    pub parameters: Vec<String>,
}

/// What a `MetadataQuery` denotes.
pub ghost struct MetadataQueryView {
    pub profile: ConnectionProfileView,
    pub password: Option<Seq<char>>,
    pub database: Seq<char>,
    pub sql: Seq<char>,
    pub parameters: Seq<Seq<char>>,
}

impl DeepView for MetadataQuery {
    type V = MetadataQueryView;

    open spec fn deep_view(&self) -> MetadataQueryView {
        MetadataQueryView {
            profile: self.profile.deep_view(),
            password: self.password.deep_view(),
            database: self.database@,
            sql: self.sql@,
            parameters: self.parameters.deep_view(),
        }
    }
}

impl Clone for MetadataQuery {
    fn clone(&self) -> (copy: MetadataQuery)
        ensures
            copy@ == self@,
    {
        self.duplicate()
    }
}

impl View for MetadataQuery {
    type V = MetadataQueryView;

    open spec fn view(&self) -> MetadataQueryView {
        self.deep_view()
    }
}

impl Value for MetadataQuery {
    fn duplicate(&self) -> (copy: MetadataQuery) {
        MetadataQuery {
            profile: self.profile.duplicate(),
            password: self.password.duplicate(),
            database: self.database.duplicate(),
            sql: self.sql.duplicate(),
            parameters: self.parameters.duplicate(),
        }
    }

    fn same(&self, other: &MetadataQuery) -> (same: bool) {
        self.profile.same(&other.profile)
            && self.password.same(&other.password)
            && self.database.same(&other.database)
            && self.sql.same(&other.sql)
            && self.parameters.same(&other.parameters)
    }
}

/// The catalog query of a request, or why there is none.
pub open spec fn metadata_plan(request: RequestView) -> Result<MetadataQueryView, ErrorView> {
    match request {
        RequestView::Databases { profile, password } => Ok(
            MetadataQueryView {
                profile,
                password,
                database: profile.database,
                sql: databases_sql(),
                parameters: Seq::empty(),
            },
        ),
        RequestView::Schemas { profile, password, database } => Ok(
            MetadataQueryView {
                profile,
                password,
                database,
                sql: schemas_sql(),
                parameters: Seq::empty(),
            },
        ),
        RequestView::Tables { profile, password, database, schema } => Ok(
            MetadataQueryView {
                profile,
                password,
                database,
                sql: tables_sql(),
                parameters: seq![schema],
            },
        ),
        RequestView::Preview { .. } | RequestView::SaveChanges { .. } => Err(
            plain_error("table results require a cursor manager"@),
        ),
        _ => Err(plain_error("session lifecycle requests require a session manager"@)),
    }
}

/// The catalog query of a request, or why there is none.
pub fn plan_metadata(request: &Request) -> (plan: Result<MetadataQuery, Error>)
    ensures
        outcome_view(plan) == metadata_plan(request@),
{
    match request {
        Request::Databases { profile, password } => {
            let query = MetadataQuery {
                profile: profile.duplicate(),
                password: password.duplicate(),
                database: profile.database.clone(),
                sql: "SELECT datname FROM pg_database WHERE datallowconn AND NOT datistemplate ORDER BY datname".to_owned(),
                parameters: Vec::new(),
            };
            assert(query@.parameters =~= Seq::empty());
            Ok(query)
        },
        Request::Schemas { profile, password, database } => {
            let query = MetadataQuery {
                profile: profile.duplicate(),
                password: password.duplicate(),
                database: database.clone(),
                sql: "SELECT nspname FROM pg_namespace ORDER BY nspname".to_owned(),
                parameters: Vec::new(),
            };
            assert(query@.parameters =~= Seq::empty());
            Ok(query)
        },
        Request::Tables { profile, password, database, schema } => {
            let mut parameters: Vec<String> = Vec::new();
            parameters.push(schema.clone());
            let query = MetadataQuery {
                profile: profile.duplicate(),
                password: password.duplicate(),
                database: database.clone(),
                sql: "SELECT c.relname, CASE c.relkind WHEN 'r' THEN 'table' WHEN 'p' THEN 'partitioned table' WHEN 'v' THEN 'view' WHEN 'm' THEN 'materialized view' WHEN 'f' THEN 'foreign table' ELSE c.relkind::text END FROM pg_class c JOIN pg_namespace n ON n.oid = c.relnamespace WHERE n.nspname = $1 AND c.relkind IN ('r', 'p', 'v', 'm', 'f') ORDER BY c.relname".to_owned(),
                parameters,
            };
            assert(query@.parameters =~= seq![schema@]);
            Ok(query)
        },
        Request::Preview { .. } => Err(Error::new("table results require a cursor manager")),
        Request::SaveChanges { .. } => Err(Error::new("table results require a cursor manager")),
        _ => Err(Error::new("session lifecycle requests require a session manager")),
    }
}

/// The rows of a catalog query.
#[derive(Debug, PartialEq, Eq)]
pub enum MetadataReply {
    Names(Vec<String>),
    /// Names with their kinds.
    Relations(Vec<(String, String)>),
}

/// What a `MetadataReply` denotes.
pub ghost enum MetadataReplyView {
    Names(Seq<Seq<char>>),
    Relations(Seq<(Seq<char>, Seq<char>)>),
}

impl DeepView for MetadataReply {
    type V = MetadataReplyView;

    open spec fn deep_view(&self) -> MetadataReplyView {
        match self {
            MetadataReply::Names(value) => MetadataReplyView::Names(value.deep_view()),
            MetadataReply::Relations(value) => MetadataReplyView::Relations(value.deep_view()),
        }
    }
}

impl Clone for MetadataReply {
    fn clone(&self) -> (copy: MetadataReply)
        ensures
            copy@ == self@,
    {
        self.duplicate()
    }
}

impl View for MetadataReply {
    type V = MetadataReplyView;

    open spec fn view(&self) -> MetadataReplyView {
        self.deep_view()
    }
}

impl Value for MetadataReply {
    fn duplicate(&self) -> (copy: MetadataReply) {
        match self {
            MetadataReply::Names(value) => MetadataReply::Names(value.duplicate()),
            MetadataReply::Relations(value) => MetadataReply::Relations(value.duplicate()),
        }
    }

    fn same(&self, other: &MetadataReply) -> (same: bool) {
        match (self, other) {
            (MetadataReply::Names(value_a), MetadataReply::Names(value_b)) => value_a.same(value_b),
            (MetadataReply::Relations(value_a), MetadataReply::Relations(value_b)) => {
                value_a.same(value_b)
            },
            _ => false,
        }
    }
}

/// The tables that relations of a schema stand for.
pub open spec fn tables_of(
    profile_id: Seq<char>,
    database: Seq<char>,
    schema: Seq<char>,
    relations: Seq<(Seq<char>, Seq<char>)>,
) -> Seq<TableRefView> {
    Seq::new(
        relations.len(),
        |i: int|
            TableRefView {
                profile_id,
                database,
                schema,
                name: relations[i].0,
                kind: relations[i].1,
            },
    )
}

/// The output of a catalog query. Rows of another query than the request's are refused.
pub open spec fn metadata_result(request: RequestView, reply: MetadataReplyView) -> Result<
    OutputView,
    ErrorView,
> {
    match (request, reply) {
        (RequestView::Databases { profile, .. }, MetadataReplyView::Names(names)) => Ok(
            OutputView::Databases { profile_id: profile.id, names },
        ),
        (RequestView::Schemas { profile, database, .. }, MetadataReplyView::Names(names)) => Ok(
            OutputView::Schemas { profile_id: profile.id, database, names },
        ),
        (
            RequestView::Tables { profile, database, schema, .. },
            MetadataReplyView::Relations(relations),
        ) => Ok(
            OutputView::Tables {
                profile_id: profile.id,
                database,
                schema,
                tables: tables_of(profile.id, database, schema, relations),
            },
        ),
        _ => Err(plain_error("The server answered another question"@)),
    }
}

fn build_tables(
    profile_id: &String,
    database: &String,
    schema: &String,
    relations: &Vec<(String, String)>,
) -> (tables: Vec<TableRef>)
    ensures
        tables.deep_view() == tables_of(profile_id@, database@, schema@, relations.deep_view()),
{
    let ghost all = tables_of(profile_id@, database@, schema@, relations.deep_view());
    let mut tables: Vec<TableRef> = Vec::new();
    let mut i: usize = 0;
    while i < relations.len()
        invariant
            i <= relations@.len(),
            all == tables_of(profile_id@, database@, schema@, relations.deep_view()),
            tables.deep_view() =~= all.take(i as int),
        decreases relations@.len() - i,
    {
        let table = TableRef {
            profile_id: profile_id.clone(),
            database: database.clone(),
            schema: schema.clone(),
            name: relations[i].0.clone(),
            kind: relations[i].1.clone(),
        };
        let ghost before = tables.deep_view();
        tables.push(table);
        assert(tables.deep_view() =~= before.push(table@));
        i += 1;
    }
    assert(all.take(i as int) =~= all);
    tables
}

/// The output of a catalog query.
pub fn metadata_output(request: &Request, reply: MetadataReply) -> (output: Result<Output, Error>)
    ensures
        outcome_view(output) == metadata_result(request@, reply@),
{
    match (request, reply) {
        (Request::Databases { profile, .. }, MetadataReply::Names(names)) => Ok(
            Output::Databases { profile_id: profile.id.clone(), names },
        ),
        (Request::Schemas { profile, database, .. }, MetadataReply::Names(names)) => Ok(
            Output::Schemas { profile_id: profile.id.clone(), database: database.clone(), names },
        ),
        (
            Request::Tables { profile, database, schema, .. },
            MetadataReply::Relations(relations),
        ) => Ok(
            Output::Tables {
                profile_id: profile.id.clone(),
                database: database.clone(),
                schema: schema.clone(),
                tables: build_tables(&profile.id, database, schema, &relations),
            },
        ),
        _ => Err(Error::new("The server answered another question")),
    }
}

/// What the catalog says of one column.
#[derive(Debug, PartialEq, Eq)]
pub struct CatalogColumn {
    pub name: String,
    pub data_type: String,
    /// Whether the column is not generated.
    pub stored: bool,
    pub primary_key: bool,
    /// Whether the column is neither generated nor always an identity.
    pub insertable: bool,
}

/// What a `CatalogColumn` denotes.
pub ghost struct CatalogColumnView {
    pub name: Seq<char>,
    pub data_type: Seq<char>,
    pub stored: bool,
    pub primary_key: bool,
    pub insertable: bool,
}

impl DeepView for CatalogColumn {
    type V = CatalogColumnView;

    open spec fn deep_view(&self) -> CatalogColumnView {
        CatalogColumnView {
            name: self.name@,
            data_type: self.data_type@,
            stored: self.stored,
            primary_key: self.primary_key,
            insertable: self.insertable,
        }
    }
}

impl Clone for CatalogColumn {
    fn clone(&self) -> (copy: CatalogColumn)
        ensures
            copy@ == self@,
    {
        self.duplicate()
    }
}

impl View for CatalogColumn {
    type V = CatalogColumnView;

    open spec fn view(&self) -> CatalogColumnView {
        self.deep_view()
    }
}

impl Value for CatalogColumn {
    fn duplicate(&self) -> (copy: CatalogColumn) {
        CatalogColumn {
            name: self.name.duplicate(),
            data_type: self.data_type.duplicate(),
            stored: self.stored,
            primary_key: self.primary_key,
            insertable: self.insertable,
        }
    }

    fn same(&self, other: &CatalogColumn) -> (same: bool) {
        self.name.same(&other.name)
            && self.data_type.same(&other.data_type)
            && self.stored == other.stored
            && self.primary_key == other.primary_key
            && self.insertable == other.insertable
    }
}

/// The columns of a table as results know them: only rows of tables can be written.
pub open spec fn columns_of(table: TableRefView, catalog: Seq<CatalogColumnView>) -> Seq<
    ResultColumnView,
> {
    Seq::new(
        catalog.len(),
        |i: int|
            ResultColumnView {
                name: catalog[i].name,
                data_type: catalog[i].data_type,
                editable: table.writable() && catalog[i].stored,
                insertable: table.writable() && catalog[i].insertable,
                primary_key: catalog[i].primary_key,
            },
    )
}

/// The columns of a table as results know them.
pub fn table_columns(table: &TableRef, catalog: &Vec<CatalogColumn>) -> (columns: Vec<ResultColumn>)
    ensures
        columns.deep_view() == columns_of(table@, catalog.deep_view()),
{
    let ghost all = columns_of(table@, catalog.deep_view());
    let writable = table.is_writable();
    let mut columns: Vec<ResultColumn> = Vec::new();
    let mut i: usize = 0;
    while i < catalog.len()
        invariant
            i <= catalog@.len(),
            writable == table@.writable(),
            all == columns_of(table@, catalog.deep_view()),
            columns.deep_view() =~= all.take(i as int),
        decreases catalog@.len() - i,
    {
        let column = ResultColumn {
            name: catalog[i].name.clone(),
            data_type: catalog[i].data_type.clone(),
            editable: writable && catalog[i].stored,
            insertable: writable && catalog[i].insertable,
            primary_key: catalog[i].primary_key,
        };
        let ghost before = columns.deep_view();
        columns.push(column);
        assert(columns.deep_view() =~= before.push(column@));
        i += 1;
    }
    assert(all.take(i as int) =~= all);
    columns
}

/// A blank password leaves the choice to the environment, and a given one comes first.
pub proof fn blank_passwords_use_the_environment(
    profile: ConnectionProfileView,
    password: Option<Seq<char>>,
    environment_password: Option<Seq<char>>,
    database: Seq<char>,
    tunnel_port: Option<u16>,
)
    ensures
        password is None || password->Some_0.len() == 0 ==> settings_for(
            profile,
            password,
            environment_password,
            database,
            tunnel_port,
        ).password == environment_password,
        password is Some && password->Some_0.len() > 0 ==> settings_for(
            profile,
            password,
            environment_password,
            database,
            tunnel_port,
        ).password == password,
{
}

} // verus!
