//! Connections are saved as they were entered.
use vstd::prelude::*;
use vstd::string::*;

use crate::app::connections::{
    fresh_id, with_profile, without_profile, ProfileOutcomeView,
};
use crate::app::forms::{form_of, ConnectionField, ConnectionFormView};
use crate::app::{is_profile_at, AppView, EffectView};
use crate::storage::{profiles_problem, ConnectionProfileView};
use crate::text::{blank, decimal, port_value, trimmed};

verus! {

/// A saved profile holds, under its own name, what was entered in each field, without surrounding white space;
/// the password is kept as it was typed.
pub proof fn forms_save_each_field_as_itself(
    form: ConnectionFormView,
    id: Seq<char>,
    profile: ConnectionProfileView,
)
    requires
        form.values.len() == 10,
        form.profile(id) == Ok::<ConnectionProfileView, Seq<char>>(profile),
    ensures
        profile.id == id,
        form.text(ConnectionField::Name) matches Some(text) && profile.name == trimmed(text),
        form.text(ConnectionField::Host) matches Some(text) && profile.host == trimmed(text),
        form.text(ConnectionField::Port) matches Some(text) && port_value(text) == Some(
            profile.port as nat,
        ),
        form.text(ConnectionField::Database) matches Some(text) && profile.database == trimmed(text),
        form.text(ConnectionField::User) matches Some(text) && profile.user == trimmed(text),
        form.text(ConnectionField::Password) matches Some(text) && profile.password == (
        if text.len() == 0 {
            None
        } else {
            Some(text)
        }),
        profile.require_tls == form.require_tls,
        profile.ssh is Some <==> form.ssh_enabled,
        profile.ssh is Some ==> {
            let ssh = profile.ssh->Some_0;
            &&& ssh.host == trimmed(form.text(ConnectionField::SshHost)->Some_0)
            &&& ssh.user == trimmed(form.text(ConnectionField::SshUser)->Some_0)
            &&& port_value(form.text(ConnectionField::SshPort)->Some_0) == Some(ssh.port as nat)
            &&& ssh.identity_file == (if blank(
                form.text(ConnectionField::SshIdentityFile)->Some_0,
            ) {
                None
            } else {
                Some(trimmed(form.text(ConnectionField::SshIdentityFile)->Some_0))
            })
        },
{
    crate::text::parsed_ports_fit(form.values[2]);
    crate::text::parsed_ports_fit(form.values[7]);
}

/// The form of a profile shows each of its settings in the field of that name.
pub proof fn forms_show_each_setting_in_its_field(
    profile: ConnectionProfileView,
    user: Seq<char>,
)
    ensures
        ({
            let form = form_of(profile, user);
            &&& form.editing_id == Some(profile.id)
            &&& form.text(ConnectionField::Name) == Some(profile.name)
            &&& form.text(ConnectionField::Host) == Some(profile.host)
            &&& form.text(ConnectionField::Port) == Some(decimal(profile.port as nat))
            &&& form.text(ConnectionField::Database) == Some(profile.database)
            &&& form.text(ConnectionField::User) == Some(profile.user)
            &&& profile.password is Some ==> form.text(ConnectionField::Password)
                == profile.password
            &&& form.require_tls == profile.require_tls && form.ssh_enabled == profile.ssh is Some
            &&& profile.ssh is Some ==> form.text(ConnectionField::SshHost) == Some(
                profile.ssh->Some_0.host,
            ) && form.text(ConnectionField::SshUser) == Some(profile.ssh->Some_0.user)
                && form.text(ConnectionField::SshPort) == Some(
                decimal(profile.ssh->Some_0.port as nat),
            )
        }),
{
}

/// A form is refused exactly where a needed field is blank or a port is no number that fits.
pub proof fn forms_are_refused_for_missing_fields(form: ConnectionFormView, id: Seq<char>)
    requires
        form.values.len() == 10,
    ensures
        form.profile(id) is Ok <==> {
            &&& !blank(form.text(ConnectionField::Name)->Some_0)
            &&& !blank(form.text(ConnectionField::Host)->Some_0)
            &&& !blank(form.text(ConnectionField::Port)->Some_0)
            &&& !blank(form.text(ConnectionField::Database)->Some_0)
            &&& !blank(form.text(ConnectionField::User)->Some_0)
            &&& port_value(form.text(ConnectionField::Port)->Some_0) is Some
            &&& form.ssh_enabled ==> !blank(form.text(ConnectionField::SshHost)->Some_0) && !blank(
                form.text(ConnectionField::SshUser)->Some_0,
            ) && port_value(form.text(ConnectionField::SshPort)->Some_0) is Some
        },
{
}

/// Saving a profile keeps every other profile at its place, and deleting one keeps the others.
pub proof fn other_profiles_stay(
    profiles: Seq<ConnectionProfileView>,
    profile: ConnectionProfileView,
    i: int,
)
    requires
        0 <= i < profiles.len(),
        profiles[i].id != profile.id,
    ensures
        with_profile(profiles, profile)[i] == profiles[i],
        without_profile(profiles, profile.id).contains(profiles[i]),
    decreases profiles.len(),
{
    if exists|k: int| is_profile_at(profiles, profile.id, k) {
        let k = choose|k: int| is_profile_at(profiles, profile.id, k);
        assert(profiles[k].id == profile.id);
    }
    let front = profiles.drop_last();
    let kept = without_profile(front, profile.id);
    if i < front.len() {
        other_profiles_stay(front, profile, i);
        let k = choose|k: int| 0 <= k < kept.len() && kept[k] == profiles[i];
        assert(without_profile(profiles, profile.id)[k] == profiles[i]);
    } else {
        assert(without_profile(profiles, profile.id)[kept.len() as int] == profiles[i]);
    }
}

/// Saving asks to persist the list with the profile of the form in it, under the id that is edited; deleting
/// asks to persist the list without the profile.
pub proof fn changes_of_profiles_are_persisted(
    app: AppView,
    form: ConnectionFormView,
    id: Seq<char>,
    now: u128,
    profile: ConnectionProfileView,
)
    requires
        app.workspace.busy is None,
        app.profile_problem(id) is None,
        form.editing_id == Some(id) || (form.editing_id is None && id == fresh_id(now)),
        form.profile(id) == Ok::<ConnectionProfileView, Seq<char>>(profile),
    ensures
        app.connection_requested(form, now) matches Ok(next) && next.effects == app.effects.push(
            EffectView::SaveConnection {
                profile_id: id,
                profiles: with_profile(app.profiles, profile),
            },
        ),
        app.deletion_requested(id).effects == app.effects.push(
            EffectView::DeleteConnection {
                profile_id: id,
                profiles: without_profile(app.profiles, id),
            },
        ),
{
}

/// A persisted list becomes the list of the app, and what was cached of the changed profile is forgotten;
/// what was cached of others stays.
pub proof fn persisted_profiles_take_effect(
    app: AppView,
    id: Seq<char>,
    profiles: Seq<ConnectionProfileView>,
    other: Seq<char>,
)
    requires
        other != id,
    ensures
        ({
            let saved = app.connection_saved(id, profiles, ProfileOutcomeView::Done);
            let deleted = app.connection_deleted(id, profiles, ProfileOutcomeView::Done);
            &&& saved.profiles == profiles && deleted.profiles == profiles
            &&& !saved.databases.contains_key(id) && !deleted.databases.contains_key(id)
            &&& app.databases.contains_key(other) ==> saved.databases.contains_key(other)
                && saved.databases[other] == app.databases[other]
                && deleted.databases.contains_key(other)
            &&& saved.sql == app.sql && deleted.sql == app.sql
        }),
{
}

/// A profile can be stored exactly where nothing that a connection needs is blank and the port is not zero.
pub proof fn complete_profiles_can_be_stored(profile: ConnectionProfileView)
    ensures
        profile.problem() is None <==> {
            &&& !blank(profile.id) && !blank(profile.name) && !blank(profile.host)
            &&& !blank(profile.database) && !blank(profile.user)
            &&& profile.port > 0
        },
        profiles_problem(seq![profile]) is None <==> profile.problem() is None,
{
    let one = seq![profile];
    assert(one.drop_last() =~= Seq::empty());
    assert(one.last() == profile);
    assert(profiles_problem(one.drop_last()) is None);
}

} // verus!
