//! Saving, editing and deleting connections.
use vstd::prelude::*;
use vstd::string::*;

use crate::app::explorer::{ExplorerNode, ExplorerNodeView};
use crate::app::forms::{
    form_of, saving_an_unchanged_form_keeps_the_profile, tidy_profile, ConnectionForm,
    ConnectionFormView,
};
use crate::app::row_edits::acted;
use crate::app::workspace::{Overlay, OverlayView, WorkspaceView};
use crate::app::{find_profile_index, is_profile_at, App, AppView, Effect, EffectView};
use crate::db::TableRefView;
use crate::keyed::without_owner;
use crate::storage::{ConnectionProfile, ConnectionProfileView};
use crate::text::{concat, hexadecimal_text, numeral, same_text};
use crate::value::Value;

verus! {

/// What came of releasing and persisting a profile.
#[derive(Debug, PartialEq, Eq)]
pub enum ProfileOutcome {
    Done,
    /// Sessions of the profile are still open.
    SessionsRefused(String),
    /// The tunnel could not be closed.
    TunnelFailed(String),
    /// The list could not be written.
    StorageFailed(String),
}

/// What a `ProfileOutcome` denotes.
pub ghost enum ProfileOutcomeView {
    Done,
    SessionsRefused(Seq<char>),
    TunnelFailed(Seq<char>),
    StorageFailed(Seq<char>),
}

impl DeepView for ProfileOutcome {
    type V = ProfileOutcomeView;

    open spec fn deep_view(&self) -> ProfileOutcomeView {
        match self {
            ProfileOutcome::Done => ProfileOutcomeView::Done,
            ProfileOutcome::SessionsRefused(value) => ProfileOutcomeView::SessionsRefused(value@),
            ProfileOutcome::TunnelFailed(value) => ProfileOutcomeView::TunnelFailed(value@),
            ProfileOutcome::StorageFailed(value) => ProfileOutcomeView::StorageFailed(value@),
        }
    }
}

impl Clone for ProfileOutcome {
    fn clone(&self) -> (copy: ProfileOutcome)
        ensures
            copy@ == self@,
    {
        self.duplicate()
    }
}

impl View for ProfileOutcome {
    type V = ProfileOutcomeView;

    open spec fn view(&self) -> ProfileOutcomeView {
        self.deep_view()
    }
}

impl Value for ProfileOutcome {
    fn duplicate(&self) -> (copy: ProfileOutcome) {
        match self {
            ProfileOutcome::Done => ProfileOutcome::Done,
            ProfileOutcome::SessionsRefused(value) => {
                ProfileOutcome::SessionsRefused(value.duplicate())
            },
            ProfileOutcome::TunnelFailed(value) => ProfileOutcome::TunnelFailed(value.duplicate()),
            ProfileOutcome::StorageFailed(value) => {
                ProfileOutcome::StorageFailed(value.duplicate())
            },
        }
    }

    fn same(&self, other: &ProfileOutcome) -> (same: bool) {
        match (self, other) {
            (ProfileOutcome::Done, ProfileOutcome::Done) => true,
            (ProfileOutcome::SessionsRefused(value_a), ProfileOutcome::SessionsRefused(value_b)) => value_a.same(value_b),
            (ProfileOutcome::TunnelFailed(value_a), ProfileOutcome::TunnelFailed(value_b)) => {
                value_a.same(value_b)
            },
            (ProfileOutcome::StorageFailed(value_a), ProfileOutcome::StorageFailed(value_b)) => {
                value_a.same(value_b)
            },
            _ => false,
        }
    }
}

/// The id of a connection that is created at a time, in nanoseconds.
pub open spec fn fresh_id(now: u128) -> Seq<char> {
    "connection-"@ + numeral(now as nat, 16)
}

/// The id of a connection that is created at a time, in nanoseconds.
pub fn new_id(now: u128) -> (id: String)
    ensures
        id@ == fresh_id(now),
{
    concat("connection-", hexadecimal_text(now).as_str())
}

/// The list with a profile in the place of the first one with its id, or behind the last.
pub open spec fn with_profile(
    profiles: Seq<ConnectionProfileView>,
    profile: ConnectionProfileView,
) -> Seq<ConnectionProfileView> {
    if exists|k: int| is_profile_at(profiles, profile.id, k) {
        profiles.update(choose|k: int| is_profile_at(profiles, profile.id, k), profile)
    } else {
        profiles.push(profile)
    }
}

/// The list without the profiles of an id.
pub open spec fn without_profile(profiles: Seq<ConnectionProfileView>, id: Seq<char>) -> Seq<
    ConnectionProfileView,
>
    decreases profiles.len(),
{
    if profiles.len() == 0 {
        Seq::empty()
    } else if profiles.last().id == id {
        without_profile(profiles.drop_last(), id)
    } else {
        without_profile(profiles.drop_last(), id).push(profiles.last())
    }
}

impl AppView {
    /// The state with a list of profiles, and without everything that was loaded through one of them.
    pub open spec fn with_changed_profile(
        self,
        id: Seq<char>,
        profiles: Seq<ConnectionProfileView>,
    ) -> AppView {
        let base = AppView {
            profiles,
            databases: self.databases.remove(id),
            schemas: without_owner::<(String, String), Seq<Seq<char>>>(self.schemas, id),
            tables: without_owner::<(String, String, String), Seq<TableRefView>>(self.tables, id),
            ..self.invalidated(id)
        };
        if self.active_target is Some && self.active_target->Some_0.0 == id {
            base.parked()
        } else {
            base
        }
    }

    /// The state without a dialog.
    pub open spec fn without_overlay(self) -> AppView {
        self.with_workspace(WorkspaceView { overlay: None, ..self.workspace })
    }

    /// Asks to save the profile of a form. A candidate list is persisted first, so that a failed write
    /// cannot leave memory and disk apart.
    pub open spec fn connection_requested(self, form: ConnectionFormView, now: u128) -> Result<
        AppView,
        Seq<char>,
    > {
        let id = match form.editing_id {
            Some(id) => id,
            None => fresh_id(now),
        };
        if self.workspace.busy is Some {
            Err("Wait for the current database operation to finish"@)
        } else {
            match form.profile(id) {
                Err(problem) => Err(problem),
                Ok(profile) => match self.profile_problem(id) {
                    Some(problem) => Err(problem),
                    None => Ok(
                        self.with_effect(
                            EffectView::SaveConnection {
                                profile_id: id,
                                profiles: with_profile(self.profiles, profile),
                            },
                        ),
                    ),
                },
            }
        }
    }

    /// The state behind an attempt to save a profile.
    pub open spec fn connection_saved(
        self,
        id: Seq<char>,
        profiles: Seq<ConnectionProfileView>,
        outcome: ProfileOutcomeView,
    ) -> AppView {
        match outcome {
            ProfileOutcomeView::Done => self.without_overlay().with_changed_profile(
                id,
                profiles,
            ).with_status("Connection saved"@, false),
            ProfileOutcomeView::SessionsRefused(problem) => self.with_status(problem, true),
            ProfileOutcomeView::TunnelFailed(problem) => self.with_status(
                "Could not close the previous SSH tunnel: "@ + problem,
                true,
            ),
            ProfileOutcomeView::StorageFailed(problem) => self.with_status(
                "Could not save connection: "@ + problem,
                true,
            ),
        }
    }

    /// Asks to delete a profile.
    pub open spec fn deletion_requested(self, id: Seq<char>) -> AppView {
        if self.workspace.busy is Some {
            self.with_status("Wait for the current database operation to finish"@, true)
        } else {
            match self.profile_problem(id) {
                Some(problem) => self.with_status(problem, true),
                None => self.with_effect(
                    EffectView::DeleteConnection {
                        profile_id: id,
                        profiles: without_profile(self.profiles, id),
                    },
                ),
            }
        }
    }

    /// The state behind an attempt to delete a profile.
    pub open spec fn connection_deleted(
        self,
        id: Seq<char>,
        profiles: Seq<ConnectionProfileView>,
        outcome: ProfileOutcomeView,
    ) -> AppView {
        match outcome {
            ProfileOutcomeView::Done => self.with_changed_profile(
                id,
                profiles,
            ).clamped().with_status("Connection deleted"@, false),
            ProfileOutcomeView::SessionsRefused(problem) => self.with_status(problem, true),
            ProfileOutcomeView::TunnelFailed(problem) => self.with_status(
                "Could not close the SSH tunnel: "@ + problem,
                true,
            ),
            ProfileOutcomeView::StorageFailed(problem) => self.with_status(
                "Could not delete connection: "@ + problem,
                true,
            ),
        }
    }

    /// The state with the selected connection opened in the form.
    pub open spec fn connection_edited(self) -> AppView {
        match self.selected_row() {
            None => self,
            Some(row) => match row.node {
                ExplorerNodeView::Connection(id) => match self.profile(id) {
                    Some(profile) => self.with_overlay(
                        OverlayView::Connection(form_of(profile, self.user)),
                    ),
                    None => self,
                },
                _ => self.with_status("Select a connection to edit it"@, true),
            },
        }
    }

    /// The state that asks whether the selected connection shall be deleted.
    pub open spec fn deletion_asked(self) -> AppView {
        match self.selected_row() {
            None => self,
            Some(row) => match row.node {
                ExplorerNodeView::Connection(id) => match self.profile(id) {
                    Some(profile) => self.with_overlay(
                        OverlayView::ConfirmDelete { profile_id: id, name: profile.name },
                    ),
                    None => self,
                },
                _ => self.with_status("Select a connection to delete it"@, true),
            },
        }
    }
}

fn keep_other_profiles(profiles: &Vec<ConnectionProfile>, id: &str) -> (kept: Vec<ConnectionProfile>)
    ensures
        kept.deep_view() == without_profile(profiles.deep_view(), id@),
{
    let ghost all = profiles.deep_view();
    let mut kept: Vec<ConnectionProfile> = Vec::new();
    let mut i: usize = 0;
    assert(kept.deep_view() =~= without_profile(all.take(0), id@));
    while i < profiles.len()
        invariant
            i <= profiles@.len(),
            all == profiles.deep_view(),
            kept.deep_view() == without_profile(all.take(i as int), id@),
        decreases profiles@.len() - i,
    {
        proof {
            let next = all.take(i + 1);
            assert(next.drop_last() =~= all.take(i as int));
            assert(next.last() == profiles@[i as int]@);
        }
        if !same_text(profiles[i].id.as_str(), id) {
            let ghost before = kept.deep_view();
            kept.push(profiles[i].duplicate());
            assert(kept.deep_view() =~= before.push(all[i as int]));
        }
        i += 1;
    }
    assert(all.take(i as int) =~= all);
    kept
}

fn put_profile(profiles: &Vec<ConnectionProfile>, profile: ConnectionProfile) -> (list: Vec<
    ConnectionProfile,
>)
    ensures
        list.deep_view() == with_profile(profiles.deep_view(), profile@),
{
    let ghost all = profiles.deep_view();
    let mut list = profiles.duplicate();
    match find_profile_index(profiles, profile.id.as_str()) {
        Some(k) => {
            proof {
                let other = choose|j: int| is_profile_at(all, profile@.id, j);
                assert(other == k) by {
                    if other < k {
                        assert(all[other].id != profile@.id);
                    } else if k < other {
                        assert(all[k as int].id != profile@.id);
                    }
                }
            }
            assert(list.deep_view().len() == list@.len());
            assert(all.len() == profiles@.len());
            list[k] = profile;
            assert(list.deep_view() =~= all.update(k as int, profile@));
        },
        None => {
            list.push(profile);
            assert(list.deep_view() =~= all.push(profile@));
        },
    }
    list
}

impl App {
    fn change_profile(&mut self, id: &str, profiles: Vec<ConnectionProfile>)
        requires
            old(self)@.valid(),
        ensures
            final(self)@.valid(),
            final(self)@ == old(self)@.with_changed_profile(id@, profiles.deep_view()),
    {
        self.profiles = profiles;
        self.invalidate_all_previews(id);
        let _ = self.databases.remove(&id.to_owned());
        self.schemas.forget_owner(id);
        self.tables.forget_owner(id);
        let active = match &self.active_target {
            Some(target) => same_text(target.0.as_str(), id),
            None => false,
        };
        if active {
            self.park_workspace();
        }
    }

    /// Asks to save the profile of a form. `now` is the time in nanoseconds, from which a new profile takes
    /// its id.
    pub fn save_connection(&mut self, form: &ConnectionForm, now: u128) -> (result: Result<(), String>)
        requires
            old(self)@.valid(),
        ensures
            acted(old(self)@, old(self)@.connection_requested(form@, now), result, final(self)@),
            final(self)@.valid(),
    {
        if self.workspace.busy.is_some() {
            return Err("Wait for the current database operation to finish".to_owned());
        }
        let id = match &form.editing_id {
            Some(id) => id.clone(),
            None => new_id(now),
        };
        let profile = match form.build_profile(id.as_str()) {
            Ok(profile) => profile,
            Err(problem) => {
                return Err(problem);
            },
        };
        match self.prepare_profile_change(id.as_str()) {
            Some(problem) => {
                return Err(problem);
            },
            None => {},
        }
        let profiles = put_profile(&self.profiles, profile);
        self.push_effect(Effect::SaveConnection { profile_id: id, profiles });
        Ok(())
    }

    /// Takes what came of saving a profile. Changed endpoints invalidate everything that was loaded through
    /// the old profile.
    pub fn connection_saved(
        &mut self,
        id: &str,
        profiles: Vec<ConnectionProfile>,
        outcome: ProfileOutcome,
    )
        requires
            old(self)@.valid(),
        ensures
            final(self)@.valid(),
            final(self)@ == old(self)@.connection_saved(id@, profiles.deep_view(), outcome@),
    {
        match outcome {
            ProfileOutcome::Done => {
                self.workspace.overlay = None;
                self.change_profile(id, profiles);
                self.report("Connection saved", false);
            },
            ProfileOutcome::SessionsRefused(problem) => self.set_status(problem, true),
            ProfileOutcome::TunnelFailed(problem) => self.set_status(
                concat("Could not close the previous SSH tunnel: ", problem.as_str()),
                true,
            ),
            ProfileOutcome::StorageFailed(problem) => self.set_status(
                concat("Could not save connection: ", problem.as_str()),
                true,
            ),
        }
    }

    /// Asks to delete a profile.
    pub fn delete_connection(&mut self, id: &str)
        requires
            old(self)@.valid(),
        ensures
            final(self)@.valid(),
            final(self)@ == old(self)@.deletion_requested(id@),
    {
        if self.workspace.busy.is_some() {
            self.report("Wait for the current database operation to finish", true);
            return;
        }
        match self.prepare_profile_change(id) {
            Some(problem) => {
                self.set_status(problem, true);
                return;
            },
            None => {},
        }
        let profiles = keep_other_profiles(&self.profiles, id);
        self.push_effect(Effect::DeleteConnection { profile_id: id.to_owned(), profiles });
    }

    /// Takes what came of deleting a profile. Deleted profiles leave no rows that still appear editable.
    pub fn connection_deleted(
        &mut self,
        id: &str,
        profiles: Vec<ConnectionProfile>,
        outcome: ProfileOutcome,
    )
        requires
            old(self)@.valid(),
        ensures
            final(self)@.valid(),
            final(self)@ == old(self)@.connection_deleted(id@, profiles.deep_view(), outcome@),
    {
        match outcome {
            ProfileOutcome::Done => {
                self.change_profile(id, profiles);
                self.clamp_selection();
                self.report("Connection deleted", false);
            },
            ProfileOutcome::SessionsRefused(problem) => self.set_status(problem, true),
            ProfileOutcome::TunnelFailed(problem) => self.set_status(
                concat("Could not close the SSH tunnel: ", problem.as_str()),
                true,
            ),
            ProfileOutcome::StorageFailed(problem) => self.set_status(
                concat("Could not delete connection: ", problem.as_str()),
                true,
            ),
        }
    }

    /// Opens the selected connection in the form.
    pub fn edit_selected_connection(&mut self)
        ensures
            final(self)@ == old(self)@.connection_edited(),
            old(self)@.valid() ==> final(self)@.valid(),
    {
        match self.selected_explorer_row() {
            None => {},
            Some(row) => match row.node {
                ExplorerNode::Connection(id) => {
                    let form = match self.profile(id.as_str()) {
                        Some(profile) => Some(ConnectionForm::edit(profile, self.user.as_str())),
                        None => None,
                    };
                    match form {
                        Some(form) => self.open_overlay(Overlay::Connection(Box::new(form))),
                        None => {},
                    }
                },
                _ => self.report("Select a connection to edit it", true),
            },
        }
    }

    /// Asks whether the selected connection shall be deleted.
    pub fn confirm_delete_selected_connection(&mut self)
        ensures
            final(self)@ == old(self)@.deletion_asked(),
            old(self)@.valid() ==> final(self)@.valid(),
    {
        match self.selected_explorer_row() {
            None => {},
            Some(row) => match row.node {
                ExplorerNode::Connection(id) => {
                    let name = match self.profile(id.as_str()) {
                        Some(profile) => Some(profile.name.clone()),
                        None => None,
                    };
                    match name {
                        Some(name) => self.open_overlay(
                            Overlay::ConfirmDelete { profile_id: id, name },
                        ),
                        None => {},
                    }
                },
                _ => self.report("Select a connection to delete it", true),
            },
        }
    }
}

/// A failed attempt to save or delete a connection keeps the profiles, the results and the shown target.
pub proof fn failed_profile_changes_change_nothing(
    app: AppView,
    id: Seq<char>,
    profiles: Seq<ConnectionProfileView>,
    outcome: ProfileOutcomeView,
)
    requires
        !(outcome is Done),
    ensures
        app.connection_saved(id, profiles, outcome).profiles == app.profiles,
        app.connection_saved(id, profiles, outcome).workspace.result == app.workspace.result,
        app.connection_saved(id, profiles, outcome).workspace.overlay == app.workspace.overlay,
        app.connection_saved(id, profiles, outcome).active_target == app.active_target,
        app.connection_deleted(id, profiles, outcome).profiles == app.profiles,
        app.connection_deleted(id, profiles, outcome).workspace.result == app.workspace.result,
        app.connection_deleted(id, profiles, outcome).active_target == app.active_target,
{
}

/// Behind a changed connection no workspace holds rows that would be written through its new endpoint.
pub proof fn changed_profiles_leave_no_rows(
    app: AppView,
    id: Seq<char>,
    profiles: Seq<ConnectionProfileView>,
    target: crate::db::sessions::TargetView,
)
    ensures
        ({
            let next = app.with_changed_profile(id, profiles);
            !crate::app::workspace::from_profile(next.workspace.result.source, id) && (
            next.workspaces.contains_key(target) ==> !crate::app::workspace::from_profile(
                next.workspaces[target].result.source,
                id,
            ))
        }),
{
}

/// Changing a connection keeps the workspaces whose rows came from others, and the SQL editor.
pub proof fn changing_another_connection_keeps_rows(
    app: AppView,
    id: Seq<char>,
    profiles: Seq<ConnectionProfileView>,
    target: crate::db::sessions::TargetView,
)
    requires
        !crate::app::workspace::from_profile(app.workspace.result.source, id),
        app.active_target is None || app.active_target->Some_0.0 != id,
    ensures
        app.workspaces.contains_key(target) && !crate::app::workspace::from_profile(
            app.workspaces[target].result.source,
            id,
        ) ==> {
            let next = app.with_changed_profile(id, profiles).workspaces;
            next.contains_key(target) && next[target].result == app.workspaces[target].result
                && next[target].edits == app.workspaces[target].edits
        },
        app.with_changed_profile(id, profiles).workspace.result == app.workspace.result,
        app.with_changed_profile(id, profiles).workspace.edits == app.workspace.edits,
        app.with_changed_profile(id, profiles).workspace.result_column
            == app.workspace.result_column,
        app.with_changed_profile(id, profiles).sql == app.sql,
{
}

/// A saved profile is found under its id, and a deleted one is not.
pub proof fn saved_profiles_are_found(
    profiles: Seq<ConnectionProfileView>,
    profile: ConnectionProfileView,
)
    ensures
        crate::app::profile_in(with_profile(profiles, profile), profile.id) == Some(profile),
        crate::app::profile_in(without_profile(profiles, profile.id), profile.id) is None,
{
    let list = with_profile(profiles, profile);
    if exists|k: int| is_profile_at(profiles, profile.id, k) {
        let k = choose|k: int| is_profile_at(profiles, profile.id, k);
        assert(is_profile_at(list, profile.id, k)) by {
            assert forall|j: int| 0 <= j < k implies (#[trigger] list[j]).id != profile.id by {
                assert(list[j] == profiles[j]);
            }
        }
        lemma_found_at(list, profile.id, k);
    } else {
        lemma_absent(profiles, profile.id);
        assert(is_profile_at(list, profile.id, profiles.len() as int)) by {
            assert forall|j: int| 0 <= j < profiles.len() implies (#[trigger] list[j]).id
                != profile.id by {
                assert(list[j] == profiles[j]);
            }
        }
        lemma_found_at(list, profile.id, profiles.len() as int);
    }
    lemma_without_profile(profiles, profile.id);
    let rest = without_profile(profiles, profile.id);
    assert forall|k: int| !is_profile_at(rest, profile.id, k) by {
        if 0 <= k < rest.len() {
            assert(rest[k].id != profile.id);
        }
    }
}

proof fn lemma_found_at(profiles: Seq<ConnectionProfileView>, id: Seq<char>, k: int)
    requires
        is_profile_at(profiles, id, k),
    ensures
        crate::app::profile_in(profiles, id) == Some(profiles[k]),
{
    let other = choose|j: int| is_profile_at(profiles, id, j);
    if other < k {
        assert(profiles[other].id != id);
    } else if k < other {
        assert(profiles[k].id != id);
    }
}

proof fn lemma_absent(profiles: Seq<ConnectionProfileView>, id: Seq<char>)
    requires
        forall|k: int| !is_profile_at(profiles, id, k),
    ensures
        forall|j: int| 0 <= j < profiles.len() ==> (#[trigger] profiles[j]).id != id,
{
    assert forall|j: int| 0 <= j < profiles.len() implies (#[trigger] profiles[j]).id != id by {
        lemma_absent_below(profiles, id, j);
    }
}

proof fn lemma_absent_below(profiles: Seq<ConnectionProfileView>, id: Seq<char>, j: int)
    requires
        forall|k: int| !is_profile_at(profiles, id, k),
        0 <= j < profiles.len(),
    ensures
        profiles[j].id != id,
    decreases j,
{
    assert forall|i: int| 0 <= i < j implies (#[trigger] profiles[i]).id != id by {
        lemma_absent_below(profiles, id, i);
    }
    assert(!is_profile_at(profiles, id, j));
}

proof fn lemma_without_profile(profiles: Seq<ConnectionProfileView>, id: Seq<char>)
    ensures
        forall|k: int|
            0 <= k < without_profile(profiles, id).len() ==> (#[trigger] without_profile(
                profiles,
                id,
            )[k]).id != id,
    decreases profiles.len(),
{
    if profiles.len() > 0 {
        let front = without_profile(profiles.drop_last(), id);
        lemma_without_profile(profiles.drop_last(), id);
        assert forall|k: int| 0 <= k < without_profile(profiles, id).len() implies (
        #[trigger] without_profile(profiles, id)[k]).id != id by {
            if k < front.len() {
                assert(front[k].id != id);
            }
        }
    }
}

/// Saving the untouched form of a profile is accepted while nothing runs and nothing is staged for it, and
/// keeps the list of profiles as it is: the password, the SSH settings and the position of the profile.
pub proof fn saving_an_untouched_form_keeps_the_list(
    app: AppView,
    profile: ConnectionProfileView,
    user: Seq<char>,
    now: u128,
)
    requires
        app.profile(profile.id) == Some(profile),
        tidy_profile(profile),
        app.workspace.busy is None,
        !app.profile_is_busy(profile.id),
        !app.profile_is_staged(profile.id),
    ensures
        app.connection_requested(form_of(profile, user), now) == Ok::<AppView, Seq<char>>(
            app.with_effect(
                EffectView::SaveConnection { profile_id: profile.id, profiles: app.profiles },
            ),
        ),
        app.connection_saved(profile.id, app.profiles, ProfileOutcomeView::Done).profiles
            == app.profiles,
{
    saving_an_unchanged_form_keeps_the_profile(profile, user);
    let k = choose|k: int| is_profile_at(app.profiles, profile.id, k);
    assert(app.profiles.update(k, profile) =~= app.profiles);
}

} // verus!
