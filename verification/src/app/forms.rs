//! The connection form, and single-line text fields.
use vstd::prelude::*;
use vstd::string::*;

use crate::keys::{KeyCode, KeyEvent};
use crate::storage::{ConnectionProfile, ConnectionProfileView, SshConfig, SshConfigView};
use crate::text::{
    blank, chars_of, decimal, decimal_parses_back, decimal_text, is_blank, parse_port,
    port_value, text_of, trim, trimmed,
};
use crate::value::Value;

verus! {

/// The fields of the connection form, in a fixed order that keeps keyboard behaviour predictable.
#[derive(Clone, Copy, Debug, PartialEq, Eq, Structural)]
pub enum ConnectionField {
    Name,
    Host,
    Port,
    Database,
    User,
    Password,
    RequireTls,
    SshTunnel,
    SshHost,
    SshPort,
    SshUser,
    SshIdentityFile,
}

impl DeepView for ConnectionField {
    type V = ConnectionField;

    open spec fn deep_view(&self) -> ConnectionField {
        *self
    }
}

impl Value for ConnectionField {
    fn duplicate(&self) -> (copy: ConnectionField) {
        *self
    }

    fn same(&self, other: &ConnectionField) -> (same: bool) {
        *self == *other
    }
}

/// The number of fields.
pub const FIELD_COUNT: usize = 12;

/// The field at a position of the form.
pub open spec fn field_at(index: int) -> ConnectionField {
    if index == 0 {
        ConnectionField::Name
    } else if index == 1 {
        ConnectionField::Host
    } else if index == 2 {
        ConnectionField::Port
    } else if index == 3 {
        ConnectionField::Database
    } else if index == 4 {
        ConnectionField::User
    } else if index == 5 {
        ConnectionField::Password
    } else if index == 6 {
        ConnectionField::RequireTls
    } else if index == 7 {
        ConnectionField::SshTunnel
    } else if index == 8 {
        ConnectionField::SshHost
    } else if index == 9 {
        ConnectionField::SshPort
    } else if index == 10 {
        ConnectionField::SshUser
    } else {
        ConnectionField::SshIdentityFile
    }
}

impl ConnectionField {
    /// The label of the field.
    pub open spec fn text(self) -> Seq<char> {
        match self {
            ConnectionField::Name => "Name"@,
            ConnectionField::Host => "Host"@,
            ConnectionField::Port => "Port"@,
            ConnectionField::Database => "Default database"@,
            ConnectionField::User => "User"@,
            ConnectionField::Password => "Password (saved)"@,
            ConnectionField::RequireTls => "TLS"@,
            ConnectionField::SshTunnel => "Enabled"@,
            ConnectionField::SshHost => "Host"@,
            ConnectionField::SshPort => "Port"@,
            ConnectionField::SshUser => "User"@,
            ConnectionField::SshIdentityFile => "Identity file"@,
        }
    }

    /// The position of the field's text among the form's texts. Toggle fields live outside them.
    pub open spec fn position(self) -> Option<usize> {
        match self {
            ConnectionField::Name => Some(0),
            ConnectionField::Host => Some(1),
            ConnectionField::Port => Some(2),
            ConnectionField::Database => Some(3),
            ConnectionField::User => Some(4),
            ConnectionField::Password => Some(5),
            ConnectionField::SshHost => Some(6),
            ConnectionField::SshPort => Some(7),
            ConnectionField::SshUser => Some(8),
            ConnectionField::SshIdentityFile => Some(9),
            ConnectionField::RequireTls | ConnectionField::SshTunnel => None,
        }
    }

    /// The label of the field.
    pub fn label(self) -> (label: &'static str)
        ensures
            label@ == self.text(),
    {
        match self {
            ConnectionField::Name => "Name",
            ConnectionField::Host => "Host",
            ConnectionField::Port => "Port",
            ConnectionField::Database => "Default database",
            ConnectionField::User => "User",
            ConnectionField::Password => "Password (saved)",
            ConnectionField::RequireTls => "TLS",
            ConnectionField::SshTunnel => "Enabled",
            ConnectionField::SshHost => "Host",
            ConnectionField::SshPort => "Port",
            ConnectionField::SshUser => "User",
            ConnectionField::SshIdentityFile => "Identity file",
        }
    }

    /// The position of the field's text among the form's texts.
    pub fn text_index(self) -> (index: Option<usize>)
        ensures
            index == self.position(),
            index matches Some(i) ==> i < 10,
    {
        match self {
            ConnectionField::Name => Some(0),
            ConnectionField::Host => Some(1),
            ConnectionField::Port => Some(2),
            ConnectionField::Database => Some(3),
            ConnectionField::User => Some(4),
            ConnectionField::Password => Some(5),
            ConnectionField::SshHost => Some(6),
            ConnectionField::SshPort => Some(7),
            ConnectionField::SshUser => Some(8),
            ConnectionField::SshIdentityFile => Some(9),
            ConnectionField::RequireTls => None,
            ConnectionField::SshTunnel => None,
        }
    }

    /// Whether the field is switched on and off instead of typed.
    pub fn is_toggle(self) -> (toggle: bool)
        ensures
            toggle == (self == ConnectionField::RequireTls || self == ConnectionField::SshTunnel),
    {
        matches!(self, ConnectionField::RequireTls | ConnectionField::SshTunnel)
    }
}

/// A field is a toggle exactly when it has no text.
pub proof fn toggles_have_no_text(field: ConnectionField)
    ensures
        (field == ConnectionField::RequireTls || field == ConnectionField::SshTunnel)
            == field.position() is None,
{
}

/// What a key does to a line of text and to the cursor in it. Positions count characters, so that
/// non-ASCII input cannot corrupt a field.
pub open spec fn line_edited(value: Seq<char>, cursor: int, key: KeyEvent) -> (Seq<char>, int) {
    let end = value.len() as int;
    match key.code {
        KeyCode::Char(c) => if !key.modifiers.control && !key.modifiers.alt {
            (value.insert(cursor, c), cursor + 1)
        } else {
            (value, cursor)
        },
        KeyCode::Backspace => if cursor > 0 {
            (value.remove(cursor - 1), cursor - 1)
        } else {
            (value, cursor)
        },
        KeyCode::Delete => if cursor < end {
            (value.remove(cursor), cursor)
        } else {
            (value, cursor)
        },
        KeyCode::Left => (value, if cursor > 0 { cursor - 1 } else { 0 }),
        KeyCode::Right => (value, if cursor < end { cursor + 1 } else { end }),
        KeyCode::Home => (value, 0),
        KeyCode::End => (value, end),
        _ => (value, cursor),
    }
}

/// Lets a key edit a line of text.
pub fn edit_single_line(value: &mut String, cursor: &mut usize, key: KeyEvent)
    requires
        *old(cursor) <= old(value)@.len(),
    ensures
        (final(value)@, *final(cursor) as int) == line_edited(
            old(value)@,
            *old(cursor) as int,
            key,
        ),
        *final(cursor) <= final(value)@.len(),
{
    match key.code {
        KeyCode::Char(c) => {
            if !key.modifiers.control && !key.modifiers.alt {
                let mut chars = chars_of(value.as_str());
                chars.insert(*cursor, c);
                let count: usize = chars.len();
                *value = text_of(&chars, 0, count);
                assert(value@ =~= old(value)@.insert(*cursor as int, c));
                *cursor = *cursor + 1;
            }
        },
        KeyCode::Backspace => {
            if *cursor > 0 {
                let mut chars = chars_of(value.as_str());
                let _ = chars.remove(*cursor - 1);
                let count: usize = chars.len();
                *value = text_of(&chars, 0, count);
                assert(value@ =~= old(value)@.remove(*cursor - 1));
                *cursor = *cursor - 1;
            }
        },
        KeyCode::Delete => {
            let mut chars = chars_of(value.as_str());
            if *cursor < chars.len() {
                let _ = chars.remove(*cursor);
                let count: usize = chars.len();
                *value = text_of(&chars, 0, count);
                assert(value@ =~= old(value)@.remove(*cursor as int));
            }
        },
        KeyCode::Left => {
            if *cursor > 0 {
                *cursor = *cursor - 1;
            }
        },
        KeyCode::Right => {
            if *cursor < value.as_str().unicode_len() {
                *cursor = *cursor + 1;
            }
        },
        KeyCode::Home => {
            *cursor = 0;
        },
        KeyCode::End => {
            *cursor = value.as_str().unicode_len();
        },
        _ => {},
    }
}

/// Typing a character and pressing Backspace leaves a line and its cursor as they were.
pub proof fn backspace_undoes_typing(value: Seq<char>, cursor: int, key: KeyEvent, back: KeyEvent)
    requires
        0 <= cursor <= value.len(),
        key.code is Char,
        !key.modifiers.control,
        !key.modifiers.alt,
        back.code == KeyCode::Backspace,
    ensures
        ({
            let (typed, at) = line_edited(value, cursor, key);
            line_edited(typed, at, back) == (value, cursor)
        }),
{
    assert(value.insert(cursor, key.code->Char_0).remove(cursor) =~= value);
}

proof fn lemma_whole_rounds(position: int, rounds: int)
    ensures
        (position + 12 * rounds) % 12 == position % 12,
{
}

/// The position of the field that lies some fields further on, or back, in the ring of fields.
fn ring_position(field: usize, change: isize) -> (next: usize)
    requires
        field < FIELD_COUNT,
    ensures
        next == (field + change) % (FIELD_COUNT as int),
        next < FIELD_COUNT,
{
    let forward = change >= 0;
    let distance: u128 = if forward {
        change as u128
    } else {
        (-(change as i128)) as u128
    };
    let rest: usize = (distance % 12) as usize;
    let ghost rounds = distance as int / 12;
    assert(distance == 12 * rounds + rest);
    if forward {
        proof {
            lemma_whole_rounds(field + rest, rounds);
        }
        (field + rest) % FIELD_COUNT
    } else {
        proof {
            lemma_whole_rounds(field - rest, -rounds);
            lemma_whole_rounds(field - rest, 1);
        }
        (field + FIELD_COUNT - rest) % FIELD_COUNT
    }
}

/// The form masks the password while allowing it to be saved with the profile.
#[derive(PartialEq, Eq)]
pub struct ConnectionForm {
    pub editing_id: Option<String>,
    pub values: [String; 10],
    pub require_tls: bool,
    pub ssh_enabled: bool,
    pub field: usize,
    pub cursor: usize,
}

/// What a `ConnectionForm` denotes.
pub ghost struct ConnectionFormView {
    pub editing_id: Option<Seq<char>>,
    pub values: Seq<Seq<char>>,
    pub require_tls: bool,
    pub ssh_enabled: bool,
    pub field: usize,
    pub cursor: usize,
}

impl DeepView for ConnectionForm {
    type V = ConnectionFormView;

    open spec fn deep_view(&self) -> ConnectionFormView {
        ConnectionFormView {
            editing_id: self.editing_id.deep_view(),
            values: Seq::new(10, |i: int| self.values@[i]@),
            require_tls: self.require_tls,
            ssh_enabled: self.ssh_enabled,
            field: self.field,
            cursor: self.cursor,
        }
    }
}

impl View for ConnectionForm {
    type V = ConnectionFormView;

    open spec fn view(&self) -> ConnectionFormView {
        self.deep_view()
    }
}

impl ConnectionFormView {
    /// The field that has the focus.
    pub open spec fn selected(self) -> ConnectionField {
        field_at(self.field as int)
    }

    /// The text of a field; toggles have none.
    pub open spec fn text(self, field: ConnectionField) -> Option<Seq<char>> {
        match field.position() {
            Some(index) => Some(self.values[index as int]),
            None => None,
        }
    }

    /// The number of characters of a field; none for a toggle.
    pub open spec fn field_length(self, field: ConnectionField) -> nat {
        match self.text(field) {
            Some(text) => text.len(),
            None => 0,
        }
    }

    /// The focus is on a field, and the cursor in its text.
    pub open spec fn valid(self) -> bool {
        self.values.len() == 10 && self.field < FIELD_COUNT && self.cursor <= self.field_length(
            self.selected(),
        )
    }

    /// The form with the focus on another field, behind its text.
    pub open spec fn focused(self, field: int) -> ConnectionFormView {
        ConnectionFormView {
            field: field as usize,
            cursor: self.field_length(field_at(field)) as usize,
            ..self
        }
    }

    /// The form with the focus some fields further on, or back; the fields form a ring.
    pub open spec fn moved(self, change: int) -> ConnectionFormView {
        self.focused((self.field + change) % (FIELD_COUNT as int))
    }

    /// The form after a key for the text of the focused field.
    pub open spec fn typed(self, key: KeyEvent) -> ConnectionFormView {
        match self.selected().position() {
            Some(index) => {
                let (text, cursor) = line_edited(
                    self.values[index as int],
                    self.cursor as int,
                    key,
                );
                ConnectionFormView {
                    values: self.values.update(index as int, text),
                    cursor: cursor as usize,
                    ..self
                }
            },
            None => self,
        }
    }

    /// The form after a key that neither saves nor closes it.
    pub open spec fn pressed(self, key: KeyEvent) -> ConnectionFormView {
        match key.code {
            KeyCode::Tab | KeyCode::Down | KeyCode::Enter => self.moved(1),
            KeyCode::BackTab | KeyCode::Up => self.moved(-1),
            _ => if key.code == KeyCode::Char(' ') && self.selected()
                == ConnectionField::RequireTls {
                ConnectionFormView { require_tls: !self.require_tls, ..self }
            } else if key.code == KeyCode::Char(' ') && self.selected()
                == ConnectionField::SshTunnel {
                ConnectionFormView { ssh_enabled: !self.ssh_enabled, ..self }
            } else {
                self.typed(key)
            },
        }
    }

    /// The SSH gateway that the form describes.
    pub open spec fn gateway(self) -> Result<Option<SshConfigView>, Seq<char>> {
        if !self.ssh_enabled {
            Ok(None)
        } else if blank(self.values[6]) || blank(self.values[8]) {
            Err("SSH host and user are required"@)
        } else {
            match port_value(self.values[7]) {
                None => Err("SSH port must be an integer from 1 through 65535"@),
                Some(port) => Ok(
                    Some(
                        SshConfigView {
                            host: trimmed(self.values[6]),
                            port: port as u16,
                            user: trimmed(self.values[8]),
                            identity_file: if blank(self.values[9]) {
                                None
                            } else {
                                Some(trimmed(self.values[9]))
                            },
                        },
                    ),
                ),
            }
        }
    }

    /// The profile that the form describes, under an id.
    pub open spec fn profile(self, id: Seq<char>) -> Result<ConnectionProfileView, Seq<char>> {
        match port_value(self.values[2]) {
            None => Err("Port must be an integer from 1 through 65535"@),
            Some(port) => if blank(self.values[0]) || blank(self.values[1]) || blank(self.values[2])
                || blank(self.values[3]) || blank(self.values[4]) {
                Err("Name, host, port, database, and user are required"@)
            } else {
                match self.gateway() {
                    Err(problem) => Err(problem),
                    Ok(ssh) => Ok(
                        ConnectionProfileView {
                            id,
                            name: trimmed(self.values[0]),
                            host: trimmed(self.values[1]),
                            port: port as u16,
                            database: trimmed(self.values[3]),
                            user: trimmed(self.values[4]),
                            password: if self.values[5].len() == 0 {
                                None
                            } else {
                                Some(self.values[5])
                            },
                            ssh,
                            require_tls: self.require_tls,
                        },
                    ),
                }
            },
        }
    }
}

/// The form for a new connection of a user.
pub open spec fn new_form(user: Seq<char>) -> ConnectionFormView {
    ConnectionFormView {
        editing_id: None,
        values: seq![
            Seq::empty(),
            "localhost"@,
            "5432"@,
            "postgres"@,
            user,
            Seq::empty(),
            Seq::empty(),
            "22"@,
            user,
            Seq::empty(),
        ],
        require_tls: false,
        ssh_enabled: false,
        field: 0,
        cursor: 0,
    }
}

/// The form for an existing connection. The masked password is preloaded, so that saving preserves it.
pub open spec fn form_of(profile: ConnectionProfileView, user: Seq<char>) -> ConnectionFormView {
    let empty = Seq::<char>::empty();
    ConnectionFormView {
        editing_id: Some(profile.id),
        values: seq![
            profile.name,
            profile.host,
            decimal(profile.port as nat),
            profile.database,
            profile.user,
            match profile.password {
                Some(password) => password,
                None => empty,
            },
            match profile.ssh {
                Some(ssh) => ssh.host,
                None => empty,
            },
            match profile.ssh {
                Some(ssh) => decimal(ssh.port as nat),
                None => "22"@,
            },
            match profile.ssh {
                Some(ssh) => ssh.user,
                None => user,
            },
            match profile.ssh {
                Some(ssh) => match ssh.identity_file {
                    Some(file) => file,
                    None => empty,
                },
                None => empty,
            },
        ],
        require_tls: profile.require_tls,
        ssh_enabled: profile.ssh is Some,
        field: 0,
        cursor: profile.name.len() as usize,
    }
}

fn text_or_empty(text: &Option<String>) -> (result: String)
    ensures
        result@ == (match text.deep_view() {
            Some(text) => text,
            None => Seq::empty(),
        }),
{
    match text {
        Some(text) => text.clone(),
        None => {
            let empty = String::new();
            assert(empty@ =~= Seq::empty());
            empty
        },
    }
}

fn empty_text() -> (text: String)
    ensures
        text@ == Seq::<char>::empty(),
{
    let text = String::new();
    assert(text@ =~= Seq::empty());
    text
}

impl ConnectionForm {
    /// The form for a new connection of a user.
    pub fn new(user: &str) -> (form: ConnectionForm)
        ensures
            form@ == new_form(user@),
            form@.valid(),
    {
        let form = ConnectionForm {
            editing_id: None,
            values: [
                empty_text(),
                "localhost".to_owned(),
                "5432".to_owned(),
                "postgres".to_owned(),
                user.to_owned(),
                empty_text(),
                empty_text(),
                "22".to_owned(),
                user.to_owned(),
                empty_text(),
            ],
            require_tls: false,
            ssh_enabled: false,
            field: 0,
            cursor: 0,
        };
        assert(form@.values =~= new_form(user@).values);
        form
    }

    /// The form for an existing connection.
    pub fn edit(profile: &ConnectionProfile, user: &str) -> (form: ConnectionForm)
        ensures
            form@ == form_of(profile@, user@),
            form@.valid(),
    {
        let (host, port, ssh_user, file) = match &profile.ssh {
            Some(ssh) => (
                ssh.host.clone(),
                decimal_text(ssh.port as u64),
                ssh.user.clone(),
                text_or_empty(&ssh.identity_file),
            ),
            None => (empty_text(), "22".to_owned(), user.to_owned(), empty_text()),
        };
        let form = ConnectionForm {
            editing_id: Some(profile.id.clone()),
            values: [
                profile.name.clone(),
                profile.host.clone(),
                decimal_text(profile.port as u64),
                profile.database.clone(),
                profile.user.clone(),
                text_or_empty(&profile.password),
                host,
                port,
                ssh_user,
                file,
            ],
            require_tls: profile.require_tls,
            ssh_enabled: profile.ssh.is_some(),
            field: 0,
            cursor: profile.name.as_str().unicode_len(),
        };
        assert(form@.values =~= form_of(profile@, user@).values);
        form
    }

    /// The field that has the focus.
    pub fn selected_field(&self) -> (field: ConnectionField)
        requires
            self.field < FIELD_COUNT,
        ensures
            field == self@.selected(),
    {
        match self.field {
            0 => ConnectionField::Name,
            1 => ConnectionField::Host,
            2 => ConnectionField::Port,
            3 => ConnectionField::Database,
            4 => ConnectionField::User,
            5 => ConnectionField::Password,
            6 => ConnectionField::RequireTls,
            7 => ConnectionField::SshTunnel,
            8 => ConnectionField::SshHost,
            9 => ConnectionField::SshPort,
            10 => ConnectionField::SshUser,
            _ => ConnectionField::SshIdentityFile,
        }
    }

    /// The text of a field; toggles have none.
    pub fn value(&self, field: ConnectionField) -> (value: Option<&str>)
        ensures
            match value {
                Some(text) => self@.text(field) == Some(text@),
                None => self@.text(field) is None,
            },
    {
        match field.text_index() {
            Some(index) => Some(self.values[index].as_str()),
            None => None,
        }
    }

    fn focus(&mut self, field: usize)
        requires
            field < FIELD_COUNT,
        ensures
            final(self)@ == old(self)@.focused(field as int),
            final(self)@.valid(),
    {
        self.field = field;
        let selected = self.selected_field();
        let cursor = match self.value(selected) {
            Some(text) => text.unicode_len(),
            None => 0,
        };
        self.cursor = cursor;
    }

    /// Moves the focus some fields further on, or back.
    pub fn move_field(&mut self, change: isize)
        requires
            old(self).field < FIELD_COUNT,
        ensures
            final(self)@ == old(self)@.moved(change as int),
            final(self)@.valid(),
    {
        let next = ring_position(self.field, change);
        self.focus(next);
    }

    fn handle_text_key(&mut self, key: KeyEvent)
        requires
            old(self)@.valid(),
        ensures
            final(self)@ == old(self)@.typed(key),
            final(self)@.valid(),
    {
        match self.selected_field().text_index() {
            Some(index) => {
                let ghost before = self@;
                let mut text = self.values[index].clone();
                let mut cursor = self.cursor;
                edit_single_line(&mut text, &mut cursor, key);
                self.values[index] = text;
                self.cursor = cursor;
                assert(self@.values =~= before.values.update(index as int, text@));
            },
            None => {},
        }
    }

    /// Takes a key that neither saves nor closes the form.
    pub fn press(&mut self, key: KeyEvent)
        requires
            old(self)@.valid(),
        ensures
            final(self)@ == old(self)@.pressed(key),
            final(self)@.valid(),
    {
        match key.code {
            KeyCode::Tab | KeyCode::Down | KeyCode::Enter => {
                self.move_field(1);
            },
            KeyCode::BackTab | KeyCode::Up => {
                self.move_field(-1);
            },
            _ => {
                if key.code == KeyCode::Char(' ') && self.selected_field()
                    == ConnectionField::RequireTls {
                    self.require_tls = !self.require_tls;
                } else if key.code == KeyCode::Char(' ') && self.selected_field()
                    == ConnectionField::SshTunnel {
                    self.ssh_enabled = !self.ssh_enabled;
                } else {
                    self.handle_text_key(key);
                }
            },
        }
    }

    fn build_gateway(&self) -> (result: Result<Option<SshConfig>, String>)
        ensures
            match result {
                Ok(ssh) => self@.gateway() == Ok::<Option<SshConfigView>, Seq<char>>(
                    ssh.deep_view(),
                ),
                Err(problem) => self@.gateway() == Err::<Option<SshConfigView>, Seq<char>>(
                    problem@,
                ),
            },
    {
        if !self.ssh_enabled {
            return Ok(None);
        }
        if is_blank(self.values[6].as_str()) || is_blank(self.values[8].as_str()) {
            return Err("SSH host and user are required".to_owned());
        }
        match parse_port(self.values[7].as_str()) {
            None => Err("SSH port must be an integer from 1 through 65535".to_owned()),
            Some(port) => Ok(
                Some(
                    SshConfig {
                        host: trim(self.values[6].as_str()),
                        port,
                        user: trim(self.values[8].as_str()),
                        identity_file: if is_blank(self.values[9].as_str()) {
                            None
                        } else {
                            Some(trim(self.values[9].as_str()))
                        },
                    },
                ),
            ),
        }
    }

    /// The profile that the form describes, or why it describes none.
    pub fn build_profile(&self, id: &str) -> (result: Result<ConnectionProfile, String>)
        ensures
            match result {
                Ok(profile) => self@.profile(id@) == Ok::<ConnectionProfileView, Seq<char>>(
                    profile@,
                ),
                Err(problem) => self@.profile(id@) == Err::<ConnectionProfileView, Seq<char>>(
                    problem@,
                ),
            },
    {
        let port = match parse_port(self.values[2].as_str()) {
            Some(port) => port,
            None => {
                return Err("Port must be an integer from 1 through 65535".to_owned());
            },
        };
        if is_blank(self.values[0].as_str()) || is_blank(self.values[1].as_str()) || is_blank(
            self.values[2].as_str(),
        ) || is_blank(self.values[3].as_str()) || is_blank(self.values[4].as_str()) {
            return Err("Name, host, port, database, and user are required".to_owned());
        }
        match self.build_gateway() {
            Err(problem) => Err(problem),
            Ok(ssh) => Ok(
                ConnectionProfile {
                    id: id.to_owned(),
                    name: trim(self.values[0].as_str()),
                    host: trim(self.values[1].as_str()),
                    port,
                    database: trim(self.values[3].as_str()),
                    user: trim(self.values[4].as_str()),
                    password: if self.values[5].as_str().unicode_len() == 0 {
                        None
                    } else {
                        Some(self.values[5].clone())
                    },
                    ssh,
                    require_tls: self.require_tls,
                },
            ),
        }
    }
}

/// Whether a text is what remains of it without surrounding white space, and something remains.
pub open spec fn tidy(text: Seq<char>) -> bool {
    !blank(text) && trimmed(text) == text
}

/// Whether a profile is as the form saves it: tidy texts, and no empty optional texts.
pub open spec fn tidy_profile(profile: ConnectionProfileView) -> bool {
    &&& tidy(profile.name) && tidy(profile.host) && tidy(profile.database) && tidy(profile.user)
    &&& profile.password matches Some(password) ==> password.len() > 0
    &&& profile.ssh matches Some(ssh) ==> tidy(ssh.host) && tidy(ssh.user) && (
    ssh.identity_file matches Some(file) ==> tidy(file))
}

/// Opening a saved profile in the form and saving it unchanged gives the same profile, with its password
/// and its SSH settings.
pub proof fn saving_an_unchanged_form_keeps_the_profile(
    profile: ConnectionProfileView,
    user: Seq<char>,
)
    requires
        tidy_profile(profile),
    ensures
        form_of(profile, user).profile(profile.id) == Ok::<ConnectionProfileView, Seq<char>>(
            profile,
        ),
{
    let form = form_of(profile, user);
    decimal_parses_back(profile.port as nat);
    if let Some(ssh) = profile.ssh {
        decimal_parses_back(ssh.port as nat);
        assert(form.gateway() == Ok::<Option<SshConfigView>, Seq<char>>(Some(ssh)));
    }
}

/// Moving the focus changes the focused field and the cursor alone: the cursor stands behind the text of the
/// field, and the field is one of the form.
pub proof fn moving_keeps_the_form(form: ConnectionFormView, change: int)
    requires
        form.values.len() == 10,
        forall|i: int| 0 <= i < 10 ==> (#[trigger] form.values[i]).len() <= usize::MAX,
    ensures
        form.moved(change).field == (form.field + change) % 12,
        form.moved(change).field < FIELD_COUNT,
        form.moved(change).cursor == form.field_length(form.moved(change).selected()),
        form.moved(change) == (ConnectionFormView {
            field: form.moved(change).field,
            cursor: form.moved(change).cursor,
            ..form
        }),
{
}

proof fn lemma_moves_add(form: ConnectionFormView, first: int, second: int)
    requires
        form.field < FIELD_COUNT,
    ensures
        form.moved(first).moved(second) == form.moved(first + second),
{
    let middle = (form.field + first) % 12;
    assert((middle + second) % 12 == (form.field + first + second) % 12);
    let a = form.moved(first).moved(second);
    let b = form.moved(first + second);
    assert(a.field == b.field);
    assert(form.moved(first).values == form.values);
}

/// Moving the focus and moving it back by as much returns to the field.
pub proof fn moving_back_returns_to_the_field(form: ConnectionFormView, change: int)
    requires
        form.field < FIELD_COUNT,
    ensures
        form.moved(change).moved(-change) == form.focused(form.field as int),
        form.moved(change).moved(-change).field == form.field,
{
    lemma_moves_add(form, change, -change);
}

/// The form behind a number of presses of one key.
pub open spec fn pressed_times(form: ConnectionFormView, key: KeyEvent, count: nat) -> ConnectionFormView
    decreases count,
{
    if count == 0 {
        form
    } else {
        pressed_times(form, key, (count - 1) as nat).pressed(key)
    }
}

proof fn lemma_tabs(form: ConnectionFormView, tab: KeyEvent, count: nat)
    requires
        form.field < FIELD_COUNT,
        tab.code == KeyCode::Tab,
    ensures
        count > 0 ==> pressed_times(form, tab, count) == form.moved(count as int),
    decreases count,
{
    if count == 1 {
        assert(pressed_times(form, tab, 0) == form);
    } else if count > 1 {
        let earlier = (count - 1) as nat;
        let prior = pressed_times(form, tab, earlier);
        lemma_tabs(form, tab, earlier);
        lemma_moves_add(form, earlier as int, 1);
        assert(pressed_times(form, tab, count) == prior.pressed(tab));
    }
}

/// Shift+Tab undoes Tab, and Tab undoes Shift+Tab: the focus returns to the field.
pub proof fn back_tab_undoes_tab(form: ConnectionFormView, tab: KeyEvent, back: KeyEvent)
    requires
        form.field < FIELD_COUNT,
        tab.code == KeyCode::Tab,
        back.code == KeyCode::BackTab,
    ensures
        form.pressed(tab).pressed(back) == form.focused(form.field as int),
        form.pressed(back).pressed(tab) == form.focused(form.field as int),
{
    assert(form.pressed(tab) == form.moved(1));
    assert(form.pressed(back) == form.moved(-1));
    moving_back_returns_to_the_field(form, 1);
    moving_back_returns_to_the_field(form, -1);
}

/// As many Tabs as the form has fields return to the field.
pub proof fn tabs_go_round_the_form(form: ConnectionFormView, tab: KeyEvent)
    requires
        form.field < FIELD_COUNT,
        tab.code == KeyCode::Tab,
    ensures
        pressed_times(form, tab, FIELD_COUNT as nat) == form.focused(form.field as int),
        pressed_times(form, tab, FIELD_COUNT as nat).field == form.field,
{
    let count = FIELD_COUNT as nat;
    lemma_tabs(form, tab, count);
    assert((form.field + count) % 12 == form.field);
    assert(form.moved(count as int) == form.focused(form.field as int));
}

} // verus!
