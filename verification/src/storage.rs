//! Durable data: connection profiles, preferences and SQL scripts, and where they are kept.
use vstd::prelude::*;
use vstd::string::*;

use crate::text::{
    concat, concat3, debug_quoted, debug_text, decimal, decimal_text, is_before, is_blank,
    lowercase, same_text, starts_with, text_before, text_before_transitive, to_lowercase,
};
use crate::text::{begins_with, blank, chars_of, text_of};
use crate::value::Value;

verus! {

/// How to reach a database host through an SSH gateway.
#[derive(Debug, PartialEq, Eq)]
pub struct SshConfig {
    pub host: String,
    pub port: u16,
    pub user: String,
    /// A private key file; none leaves the choice to the SSH client.
    pub identity_file: Option<String>,
}

/// What a `SshConfig` denotes.
pub ghost struct SshConfigView {
    pub host: Seq<char>,
    pub port: u16,
    pub user: Seq<char>,
    pub identity_file: Option<Seq<char>>,
}

impl DeepView for SshConfig {
    type V = SshConfigView;

    open spec fn deep_view(&self) -> SshConfigView {
        SshConfigView {
            host: self.host@,
            port: self.port,
            user: self.user@,
            identity_file: self.identity_file.deep_view(),
        }
    }
}

impl Clone for SshConfig {
    fn clone(&self) -> (copy: SshConfig)
        ensures
            copy@ == self@,
    {
        self.duplicate()
    }
}

impl View for SshConfig {
    type V = SshConfigView;

    open spec fn view(&self) -> SshConfigView {
        self.deep_view()
    }
}

impl Value for SshConfig {
    fn duplicate(&self) -> (copy: SshConfig) {
        SshConfig {
            host: self.host.duplicate(),
            port: self.port,
            user: self.user.duplicate(),
            identity_file: self.identity_file.duplicate(),
        }
    }

    fn same(&self, other: &SshConfig) -> (same: bool) {
        self.host.same(&other.host)
            && self.port == other.port
            && self.user.same(&other.user)
            && self.identity_file.same(&other.identity_file)
    }
}

/// A reusable connection, including its optional saved password.
#[derive(PartialEq, Eq)]
pub struct ConnectionProfile {
    pub id: String,
    pub name: String,
    pub host: String,
    pub port: u16,
    pub database: String,
    pub user: String,
    pub password: Option<String>,
    pub ssh: Option<SshConfig>,
    pub require_tls: bool,
}

/// What a `ConnectionProfile` denotes.
pub ghost struct ConnectionProfileView {
    pub id: Seq<char>,
    pub name: Seq<char>,
    pub host: Seq<char>,
    pub port: u16,
    pub database: Seq<char>,
    pub user: Seq<char>,
    pub password: Option<Seq<char>>,
    pub ssh: Option<SshConfigView>,
    pub require_tls: bool,
}

impl DeepView for ConnectionProfile {
    type V = ConnectionProfileView;

    open spec fn deep_view(&self) -> ConnectionProfileView {
        ConnectionProfileView {
            id: self.id@,
            name: self.name@,
            host: self.host@,
            port: self.port,
            database: self.database@,
            user: self.user@,
            password: self.password.deep_view(),
            ssh: self.ssh.deep_view(),
            require_tls: self.require_tls,
        }
    }
}

impl Clone for ConnectionProfile {
    fn clone(&self) -> (copy: ConnectionProfile)
        ensures
            copy@ == self@,
    {
        self.duplicate()
    }
}

impl View for ConnectionProfile {
    type V = ConnectionProfileView;

    open spec fn view(&self) -> ConnectionProfileView {
        self.deep_view()
    }
}

impl Value for ConnectionProfile {
    fn duplicate(&self) -> (copy: ConnectionProfile) {
        ConnectionProfile {
            id: self.id.duplicate(),
            name: self.name.duplicate(),
            host: self.host.duplicate(),
            port: self.port,
            database: self.database.duplicate(),
            user: self.user.duplicate(),
            password: self.password.duplicate(),
            ssh: self.ssh.duplicate(),
            require_tls: self.require_tls,
        }
    }

    fn same(&self, other: &ConnectionProfile) -> (same: bool) {
        self.id.same(&other.id)
            && self.name.same(&other.name)
            && self.host.same(&other.host)
            && self.port == other.port
            && self.database.same(&other.database)
            && self.user.same(&other.user)
            && self.password.same(&other.password)
            && self.ssh.same(&other.ssh)
            && self.require_tls == other.require_tls
    }
}

/// A saved SQL script and its editable contents.
#[derive(Debug, PartialEq, Eq)]
pub struct Script {
    pub name: String,
    pub sql: String,
}

/// What a `Script` denotes.
pub ghost struct ScriptView {
    pub name: Seq<char>,
    pub sql: Seq<char>,
}

impl DeepView for Script {
    type V = ScriptView;

    open spec fn deep_view(&self) -> ScriptView {
        ScriptView {
            name: self.name@,
            sql: self.sql@,
        }
    }
}

impl Clone for Script {
    fn clone(&self) -> (copy: Script)
        ensures
            copy@ == self@,
    {
        self.duplicate()
    }
}

impl View for Script {
    type V = ScriptView;

    open spec fn view(&self) -> ScriptView {
        self.deep_view()
    }
}

impl Value for Script {
    fn duplicate(&self) -> (copy: Script) {
        Script {
            name: self.name.duplicate(),
            sql: self.sql.duplicate(),
        }
    }

    fn same(&self, other: &Script) -> (same: bool) {
        self.name.same(&other.name)
            && self.sql.same(&other.sql)
    }
}

/// Explorer preferences, shared by all connections.
#[derive(Clone, Copy, Debug, PartialEq, Eq, Structural)]
pub struct Settings {
    pub show_all_databases: bool,
    pub show_system_schemas: bool,
    pub show_utility_schemas: bool,
}

impl DeepView for Settings {
    type V = Settings;

    open spec fn deep_view(&self) -> Settings {
        *self
    }
}

impl Value for Settings {
    fn duplicate(&self) -> (copy: Settings) {
        *self
    }

    fn same(&self, other: &Settings) -> (same: bool) {
        *self == *other
    }
}

/// The preferences of a fresh installation: every database, and neither system nor utility schemas.
pub open spec fn default_settings() -> Settings {
    Settings { show_all_databases: true, show_system_schemas: false, show_utility_schemas: false }
}

impl Default for Settings {
    fn default() -> (settings: Settings)
        ensures
            settings == default_settings(),
    {
        Settings {
            show_all_databases: true,
            show_system_schemas: false,
            show_utility_schemas: false,
        }
    }
}

/// Schemas that hold temporary and oversized-value storage.
pub open spec fn utility_schema(name: Seq<char>) -> bool {
    begins_with(name, "pg_temp_"@) || begins_with(name, "pg_toast"@)
}

/// Schemas that the server itself defines, other than the utility ones.
pub open spec fn system_schema(name: Seq<char>) -> bool {
    !utility_schema(name) && (name == "information_schema"@ || begins_with(name, "pg_"@))
}

impl Settings {
    /// Whether a schema is visible under these preferences.
    pub open spec fn shows(self, name: Seq<char>) -> bool {
        if utility_schema(name) {
            self.show_utility_schemas
        } else if system_schema(name) {
            self.show_system_schemas
        } else {
            true
        }
    }

    /// Whether the explorer lists a schema of this name.
    pub fn shows_schema(&self, name: &str) -> (shown: bool)
        ensures
            shown == self.shows(name@),
    {
        if starts_with(name, "pg_temp_") || starts_with(name, "pg_toast") {
            self.show_utility_schemas
        } else if same_text(name, "information_schema") || starts_with(name, "pg_") {
            self.show_system_schemas
        } else {
            true
        }
    }
}

/// A schema that is neither a system nor a utility schema is shown whatever the preferences.
pub proof fn ordinary_schemas_are_always_shown(settings: Settings, name: Seq<char>)
    requires
        !utility_schema(name),
        !system_schema(name),
    ensures
        settings.shows(name),
{
}

impl ConnectionProfileView {
    /// Whether a required text is blank.
    pub open spec fn incomplete(self) -> bool {
        blank(self.id) || blank(self.name) || blank(self.host) || blank(self.database) || blank(
            self.user,
        )
    }

    /// Why the profile cannot be stored.
    pub open spec fn problem(self) -> Option<Seq<char>> {
        if self.incomplete() {
            Some("connection id, name, host, database, and user must not be empty"@)
        } else if self.port == 0 {
            Some("connection port must be greater than zero"@)
        } else {
            None
        }
    }

    /// The diagnostic text, in which a saved password is replaced by a marker.
    pub open spec fn diagnostic(self) -> Seq<char> {
        "ConnectionProfile { id: "@ + debug_text(self.id) + ", name: "@ + debug_text(self.name)
            + ", host: "@ + debug_text(self.host) + ", port: "@ + decimal(self.port as nat)
            + ", database: "@ + debug_text(self.database) + ", user: "@ + debug_text(self.user)
            + ", password: "@ + (if self.password is Some {
            "Some(\"<redacted>\")"@
        } else {
            "None"@
        }) + ", ssh: "@ + ssh_diagnostic(self.ssh) + ", require_tls: "@ + (if self.require_tls {
            "true"@
        } else {
            "false"@
        }) + " }"@
    }
}

/// The diagnostic text of an optional SSH gateway.
pub open spec fn ssh_diagnostic(ssh: Option<SshConfigView>) -> Seq<char> {
    match ssh {
        Some(ssh) => "Some(SshConfig { host: "@ + debug_text(ssh.host) + ", port: "@ + decimal(
            ssh.port as nat,
        ) + ", user: "@ + debug_text(ssh.user) + ", identity_file: "@ + (match ssh.identity_file {
            Some(file) => "Some("@ + debug_text(file) + ")"@,
            None => "None"@,
        }) + " })"@,
        None => "None"@,
    }
}

fn ssh_debug_text(ssh: &Option<SshConfig>) -> (text: String)
    ensures
        text@ == ssh_diagnostic(ssh.deep_view()),
{
    match ssh {
        Some(ssh) => {
            let mut text = "Some(SshConfig { host: ".to_owned();
            text.append(debug_quoted(ssh.host.as_str()).as_str());
            text.append(", port: ");
            text.append(decimal_text(ssh.port as u64).as_str());
            text.append(", user: ");
            text.append(debug_quoted(ssh.user.as_str()).as_str());
            text.append(", identity_file: ");
            let file = match &ssh.identity_file {
                Some(file) => concat3("Some(", debug_quoted(file.as_str()).as_str(), ")"),
                None => "None".to_owned(),
            };
            text.append(file.as_str());
            text.append(" })");
            text
        },
        None => "None".to_owned(),
    }
}

impl ConnectionProfile {
    /// Describes the profile for diagnostics without copying a saved password.
    pub fn debug_text(&self) -> (text: String)
        ensures
            text@ == self@.diagnostic(),
    {
        let mut text = "ConnectionProfile { id: ".to_owned();
        text.append(debug_quoted(self.id.as_str()).as_str());
        text.append(", name: ");
        text.append(debug_quoted(self.name.as_str()).as_str());
        text.append(", host: ");
        text.append(debug_quoted(self.host.as_str()).as_str());
        text.append(", port: ");
        text.append(decimal_text(self.port as u64).as_str());
        text.append(", database: ");
        text.append(debug_quoted(self.database.as_str()).as_str());
        text.append(", user: ");
        text.append(debug_quoted(self.user.as_str()).as_str());
        text.append(", password: ");
        text.append(
            match self.password {
                Some(_) => "Some(\"<redacted>\")",
                None => "None",
            },
        );
        text.append(", ssh: ");
        text.append(ssh_debug_text(&self.ssh).as_str());
        text.append(", require_tls: ");
        text.append(
            if self.require_tls {
                "true"
            } else {
                "false"
            },
        );
        text.append(" }");
        text
    }
}

/// The diagnostic text of a profile does not depend on which password is saved.
pub proof fn diagnostics_hide_passwords(
    profile: ConnectionProfileView,
    password: Seq<char>,
    other: Seq<char>,
)
    ensures
        (ConnectionProfileView { password: Some(password), ..profile }).diagnostic() == (
        ConnectionProfileView { password: Some(other), ..profile }).diagnostic(),
{
}

/// Checks that a profile has the fields a connection needs.
pub fn validate_profile(profile: &ConnectionProfile) -> (result: Result<(), String>)
    ensures
        match result {
            Ok(_) => profile@.problem() is None,
            Err(message) => profile@.problem() == Some(message@),
        },
{
    if is_blank(profile.id.as_str()) || is_blank(profile.name.as_str()) || is_blank(
        profile.host.as_str(),
    ) || is_blank(profile.database.as_str()) || is_blank(profile.user.as_str()) {
        return Err(
            "connection id, name, host, database, and user must not be empty".to_owned(),
        );
    }
    if profile.port == 0 {
        return Err("connection port must be greater than zero".to_owned());
    }
    Ok(())
}

/// Whether a profile with this id occurs in the list.
pub open spec fn has_profile(profiles: Seq<ConnectionProfileView>, id: Seq<char>) -> bool {
    exists|i: int| 0 <= i < profiles.len() && (#[trigger] profiles[i]).id == id
}

/// The first problem in a list of profiles: one that cannot be stored, or an id that came before.
pub open spec fn profiles_problem(profiles: Seq<ConnectionProfileView>) -> Option<Seq<char>>
    decreases profiles.len(),
{
    if profiles.len() == 0 {
        None
    } else {
        let earlier = profiles_problem(profiles.drop_last());
        let last = profiles.last();
        if earlier is Some {
            earlier
        } else if last.problem() is Some {
            last.problem()
        } else if has_profile(profiles.drop_last(), last.id) {
            Some("duplicate connection id "@ + debug_text(last.id))
        } else {
            None
        }
    }
}

proof fn lemma_first_problem(profiles: Seq<ConnectionProfileView>, count: int)
    requires
        0 <= count <= profiles.len(),
        profiles_problem(profiles.take(count)) is Some,
    ensures
        profiles_problem(profiles) == profiles_problem(profiles.take(count)),
    decreases profiles.len(),
{
    if count < profiles.len() {
        assert(profiles.drop_last().take(count) =~= profiles.take(count));
        lemma_first_problem(profiles.drop_last(), count);
    } else {
        assert(profiles.take(count) =~= profiles);
    }
}

/// Checks every profile, and that no two share an id.
pub fn validate_profiles(profiles: &Vec<ConnectionProfile>) -> (result: Result<(), String>)
    ensures
        match result {
            Ok(_) => profiles_problem(profiles.deep_view()) is None,
            Err(message) => profiles_problem(profiles.deep_view()) == Some(message@),
        },
{
    let ghost all = profiles.deep_view();
    let mut i: usize = 0;
    while i < profiles.len()
        invariant
            i <= profiles@.len(),
            all == profiles.deep_view(),
            profiles_problem(all.take(i as int)) is None,
        decreases profiles@.len() - i,
    {
        let ghost next = all.take(i + 1);
        proof {
            assert(next.drop_last() =~= all.take(i as int));
            assert(next.last() == profiles@[i as int]@);
            if profiles_problem(next) is Some {
                lemma_first_problem(all, i + 1);
            }
        }
        match validate_profile(&profiles[i]) {
            Ok(_) => {},
            Err(message) => {
                return Err(message);
            },
        }
        let mut j: usize = 0;
        while j < i
            invariant
                j <= i < profiles@.len(),
                all == profiles.deep_view(),
                next == all.take(i + 1),
                next.drop_last() == all.take(i as int),
                next.last() == profiles@[i as int]@,
                next.last().problem() is None,
                profiles_problem(all.take(i as int)) is None,
                profiles_problem(next) is Some ==> profiles_problem(all) == profiles_problem(next),
                forall|k: int| 0 <= k < j ==> (#[trigger] all[k]).id != profiles@[i as int]@.id,
            decreases i - j,
        {
            if profiles[j].id.same(&profiles[i].id) {
                proof {
                    assert(next.drop_last()[j as int].id == next.last().id);
                    assert(has_profile(next.drop_last(), next.last().id));
                }
                return Err(
                    concat(
                        "duplicate connection id ",
                        debug_quoted(profiles[i].id.as_str()).as_str(),
                    ),
                );
            }
            j += 1;
        }
        i += 1;
    }
    proof {
        assert(all.take(i as int) =~= all);
    }
    Ok(())
}

/// The version written to the connection file.
pub const FORMAT_VERSION: u8 = 2;

/// Why the contents of a connection file are refused.
pub open spec fn connections_problem(
    version: u8,
    profiles: Seq<ConnectionProfileView>,
    path: Seq<char>,
) -> Option<Seq<char>> {
    if version != 1 && version != 2 {
        Some(
            "unsupported connection format version "@ + decimal(version as nat) + " in "@ + path,
        )
    } else {
        profiles_problem(profiles)
    }
}

/// Checks the decoded contents of the connection file at `path`.
///
/// Version 1 profiles have no password; they decode with none.
pub fn validate_connections(
    version: u8,
    profiles: &Vec<ConnectionProfile>,
    path: &str,
) -> (result: Result<(), String>)
    ensures
        match result {
            Ok(_) => connections_problem(version, profiles.deep_view(), path@) is None,
            Err(message) => connections_problem(version, profiles.deep_view(), path@) == Some(
                message@,
            ),
        },
{
    if version != 1 && version != 2 {
        let mut message = "unsupported connection format version ".to_owned();
        message.append(decimal_text(version as u64).as_str());
        message.append(" in ");
        message.append(path);
        return Err(message);
    }
    validate_profiles(profiles)
}

/// A list of profiles that may be saved is accepted when it is loaded again.
pub proof fn saved_connections_load(profiles: Seq<ConnectionProfileView>, path: Seq<char>)
    requires
        profiles_problem(profiles) is None,
    ensures
        connections_problem(FORMAT_VERSION, profiles, path) is None,
{
}

/// In an accepted list every profile is complete, and no two profiles have the same id.
pub proof fn accepted_profiles_are_distinct(profiles: Seq<ConnectionProfileView>)
    requires
        profiles_problem(profiles) is None,
    ensures
        forall|i: int| 0 <= i < profiles.len() ==> (#[trigger] profiles[i]).problem() is None,
        forall|i: int, j: int|
            0 <= i < j < profiles.len() ==> (#[trigger] profiles[i]).id != (
            #[trigger] profiles[j]).id,
    decreases profiles.len(),
{
    if profiles.len() > 0 {
        let front = profiles.drop_last();
        accepted_profiles_are_distinct(front);
        assert forall|i: int| 0 <= i < profiles.len() implies (
        #[trigger] profiles[i]).problem() is None by {
            if i < front.len() {
                assert(front[i] == profiles[i]);
            }
        }
        assert forall|i: int, j: int| 0 <= i < j < profiles.len() implies (
        #[trigger] profiles[i]).id != (#[trigger] profiles[j]).id by {
            assert(front[i] == profiles[i]);
            if j < front.len() {
                assert(front[j] == profiles[j]);
            } else if profiles[i].id == profiles[j].id {
                assert(front[i].id == profiles.last().id);
                assert(has_profile(front, profiles.last().id));
            }
        }
    }
}

/// The characters that a script name may hold.
pub open spec fn script_character(c: char) -> bool {
    'a' <= c <= 'z' || 'A' <= c <= 'Z' || '0' <= c <= '9' || c == '-' || c == '_'
}

/// Names of one to a hundred letters, digits, hyphens and underscores.
pub open spec fn valid_script_name(name: Seq<char>) -> bool {
    0 < name.len() <= 100 && forall|i: int|
        0 <= i < name.len() ==> script_character(#[trigger] name[i])
}

/// Checks that a script name cannot leave the script directory.
pub fn validate_script_name(name: &str) -> (result: Result<(), String>)
    ensures
        match result {
            Ok(_) => valid_script_name(name@),
            Err(message) => !valid_script_name(name@) && message@
                == "script names may contain only letters, numbers, '-' and '_'"@,
        },
{
    let chars = chars_of(name);
    let mut valid = chars.len() > 0 && chars.len() <= 100;
    let mut i: usize = 0;
    while valid && i < chars.len()
        invariant
            i <= chars@.len(),
            chars@ == name@,
            valid ==> 0 < name@.len() <= 100 && forall|k: int|
                0 <= k < i ==> script_character(#[trigger] name@[k]),
            !valid ==> !valid_script_name(name@),
        decreases chars@.len() - i + if valid { 1int } else { 0 },
    {
        let c = chars[i];
        if ('a' <= c && c <= 'z') || ('A' <= c && c <= 'Z') || ('0' <= c && c <= '9') || c == '-'
            || c == '_' {
            i += 1;
        } else {
            assert(!script_character(name@[i as int]));
            valid = false;
        }
    }
    if !valid {
        return Err("script names may contain only letters, numbers, '-' and '_'".to_owned());
    }
    Ok(())
}

/// A valid script name holds no path separator and no dot.
pub proof fn script_names_do_not_traverse(name: Seq<char>)
    requires
        valid_script_name(name),
    ensures
        !name.contains('/'),
        !name.contains('\\'),
        !name.contains('.'),
{
    assert forall|i: int| 0 <= i < name.len() implies name[i] != '/' && name[i] != '\\' && name[i]
        != '.' by {
        assert(script_character(name[i]));
    }
}

/// The script name behind a file name, where the file is a script.
pub open spec fn script_stem(file: Seq<char>) -> Option<Seq<char>> {
    if file.len() > 4 && file.skip(file.len() - 4) == ".sql"@ {
        Some(file.take(file.len() - 4))
    } else {
        None
    }
}

/// The script names behind a list of file names, in their order.
pub open spec fn script_stems(files: Seq<Seq<char>>) -> Seq<Seq<char>>
    decreases files.len(),
{
    if files.len() == 0 {
        Seq::empty()
    } else {
        match script_stem(files.last()) {
            Some(stem) => script_stems(files.drop_last()).push(stem),
            None => script_stems(files.drop_last()),
        }
    }
}

/// Whether the names ascend when letter case is ignored.
pub open spec fn ascending_names(names: Seq<Seq<char>>) -> bool {
    forall|i: int, j: int|
        0 <= i < j < names.len() ==> !text_before(
            lowercase(#[trigger] names[j]),
            lowercase(#[trigger] names[i]),
        )
}

fn stem_of(file: &str) -> (stem: Option<String>)
    ensures
        stem.deep_view() == script_stem(file@),
{
    proof {
        reveal_strlit(".sql");
    }
    let chars = chars_of(file);
    let count: usize = chars.len();
    if count <= 4 {
        return None;
    }
    let ending = text_of(&chars, count - 4, count);
    proof {
        assert(ending@ =~= file@.skip(file@.len() - 4));
    }
    if same_text(ending.as_str(), ".sql") {
        let stem = text_of(&chars, 0, count - 4);
        proof {
            assert(stem@ =~= file@.take(file@.len() - 4));
        }
        Some(stem)
    } else {
        None
    }
}

/// Whether sort keys ascend; equal ones may follow each other.
pub open spec fn ascending_keys(keys: Seq<Seq<char>>) -> bool {
    forall|i: int, j: int|
        0 <= i < j < keys.len() ==> !text_before(#[trigger] keys[j], #[trigger] keys[i])
}

/// Whether a key belongs at a position: behind every key that does not come after it.
pub open spec fn belongs_at(keys: Seq<Seq<char>>, key: Seq<char>, at: int) -> bool {
    0 <= at <= keys.len() && (forall|k: int| 0 <= k < at ==> !text_before(key, #[trigger] keys[k])) && (
    at < keys.len() ==> text_before(key, keys[at]))
}

proof fn lemma_inserted_ascends(keys: Seq<Seq<char>>, key: Seq<char>, at: int)
    requires
        ascending_keys(keys),
        belongs_at(keys, key, at),
    ensures
        ascending_keys(keys.insert(at, key)),
{
    let after = keys.insert(at, key);
    assert forall|i: int, j: int| 0 <= i < j < after.len() implies !text_before(
        #[trigger] after[j],
        #[trigger] after[i],
    ) by {
        if i == at {
            assert(after[j] == keys[j - 1]);
            if text_before(after[j], key) {
                text_before_transitive(keys[j - 1], key, keys[at]);
                if j - 1 == at {
                    crate::text::text_before_irreflexive(keys[at]);
                }
            }
        } else if j == at {
            assert(after[i] == keys[i]);
        } else {
            let x = if i < at { i } else { i - 1 };
            let y = if j < at { j } else { j - 1 };
            assert(after[i] == keys[x] && after[j] == keys[y]);
        }
    }
}

/// The position of a new key among ascending ones: behind every key that does not come after it.
pub fn position_of(keys: &Vec<String>, key: &str) -> (at: usize)
    ensures
        belongs_at(keys.deep_view(), key@, at as int),
{
    let ghost all = keys.deep_view();
    let mut at: usize = 0;
    let mut searching = true;
    while searching && at < keys.len()
        invariant
            at <= keys@.len(),
            all == keys.deep_view(),
            forall|k: int| 0 <= k < at ==> !text_before(key@, #[trigger] all[k]),
            !searching ==> at < keys@.len() && text_before(key@, all[at as int]),
        decreases keys@.len() - at + if searching { 1int } else { 0 },
    {
        assert(all[at as int] == keys@[at as int]@);
        if is_before(key, keys[at].as_str()) {
            searching = false;
        } else {
            at += 1;
        }
    }
    at
}

/// The extension-free names of the scripts among a directory's files, in a stable order.
pub fn script_names(files: &Vec<String>) -> (names: Vec<String>)
    ensures
        ascending_names(names.deep_view()),
        names.deep_view().to_multiset() == script_stems(files.deep_view()).to_multiset(),
{
    let ghost all = files.deep_view();
    let mut names: Vec<String> = Vec::new();
    let mut keys: Vec<String> = Vec::new();
    let mut i: usize = 0;
    proof {
        assert(names.deep_view() =~= script_stems(all.take(0)));
    }
    while i < files.len()
        invariant
            i <= files@.len(),
            all == files.deep_view(),
            keys@.len() == names@.len(),
            ascending_keys(keys.deep_view()),
            keys.deep_view() =~= names.deep_view().map_values(|name: Seq<char>| lowercase(name)),
            names.deep_view().to_multiset() == script_stems(all.take(i as int)).to_multiset(),
        decreases files@.len() - i,
    {
        proof {
            let next = all.take(i + 1);
            assert(next.drop_last() =~= all.take(i as int));
            assert(next.last() == files@[i as int]@);
            script_stems(next.drop_last()).to_multiset_ensures();
        }
        match stem_of(files[i].as_str()) {
            Some(stem) => {
                let key = to_lowercase(stem.as_str());
                let at = position_of(&keys, key.as_str());
                let ghost before = names.deep_view();
                let ghost earlier = keys.deep_view();
                let ghost word = stem@;
                proof {
                    assert(earlier.len() == keys@.len());
                    lemma_inserted_ascends(earlier, key@, at as int);
                    vstd::seq_lib::to_multiset_insert(before, at as int, word);
                }
                let ghost sorted = earlier.insert(at as int, key@);
                names.insert(at, stem);
                keys.insert(at, key);
                assert(names.deep_view() =~= before.insert(at as int, word));
                assert(keys.deep_view() =~= sorted);
            },
            None => {},
        }
        i += 1;
    }
    proof {
        assert(all.take(i as int) =~= all);
        let sorted = keys.deep_view();
        let found = names.deep_view();
        assert forall|i: int, j: int| 0 <= i < j < found.len() implies !text_before(
            lowercase(#[trigger] found[j]),
            lowercase(#[trigger] found[i]),
        ) by {
            assert(sorted[i] == lowercase(found[i]));
            assert(sorted[j] == lowercase(found[j]));
        }
    }
    names
}

/// A path below a directory; a separator is added where the directory does not end in one.
pub open spec fn path_below(directory: Seq<char>, name: Seq<char>) -> Seq<char> {
    if directory.len() == 0 || directory.last() == '/' {
        directory + name
    } else {
        directory + "/"@ + name
    }
}

fn join_path(directory: &str, name: &str) -> (path: String)
    ensures
        path@ == path_below(directory@, name@),
{
    let count = directory.unicode_len();
    if count == 0 || directory.get_char(count - 1) == '/' {
        concat(directory, name)
    } else {
        concat3(directory, "/", name)
    }
}

/// Names all durable files below one root directory.
#[derive(Debug)]
pub struct Storage {
    root: String,
}

impl View for Storage {
    type V = Seq<char>;

    closed spec fn view(&self) -> Seq<char> {
        self.root@
    }
}

impl Storage {
    /// Storage below `root`.
    pub fn new(root: String) -> (storage: Storage)
        ensures
            storage@ == root@,
    {
        Storage { root }
    }

    /// The root directory.
    pub fn root(&self) -> (root: &str)
        ensures
            root@ == self@,
    {
        self.root.as_str()
    }

    /// Where connections are kept.
    pub fn connections_path(&self) -> (path: String)
        ensures
            path@ == path_below(self@, "connections.toml"@),
    {
        join_path(self.root.as_str(), "connections.toml")
    }

    /// Where connections are written before they replace the connection file.
    pub fn temporary_connections_path(&self) -> (path: String)
        ensures
            path@ == path_below(self@, "connections.toml.tmp"@),
    {
        join_path(self.root.as_str(), "connections.toml.tmp")
    }

    /// Where preferences are kept.
    pub fn settings_path(&self) -> (path: String)
        ensures
            path@ == path_below(self@, "settings.toml"@),
    {
        join_path(self.root.as_str(), "settings.toml")
    }

    /// Where scripts are kept.
    pub fn scripts_path(&self) -> (path: String)
        ensures
            path@ == path_below(self@, "scripts"@),
    {
        join_path(self.root.as_str(), "scripts")
    }

    /// The file of a script, after checking that its name cannot escape the script directory.
    pub fn script_path(&self, name: &str) -> (result: Result<String, String>)
        ensures
            match result {
                Ok(path) => valid_script_name(name@) && path@ == path_below(
                    path_below(self@, "scripts"@),
                    name@ + ".sql"@,
                ),
                Err(message) => !valid_script_name(name@) && message@
                    == "script names may contain only letters, numbers, '-' and '_'"@,
            },
    {
        match validate_script_name(name) {
            Ok(_) => {
                let file = concat(name, ".sql");
                Ok(join_path(self.scripts_path().as_str(), file.as_str()))
            },
            Err(message) => Err(message),
        }
    }
}

/// Saving a script under a valid name lists it under that name.
pub proof fn saved_scripts_are_listed(name: Seq<char>)
    requires
        valid_script_name(name),
    ensures
        script_stem(name + ".sql"@) == Some(name),
{
    reveal_strlit(".sql");
    let file = name + ".sql"@;
    assert(file.skip(file.len() - 4) =~= ".sql"@);
    assert(file.take(file.len() - 4) =~= name);
}

} // verus!
