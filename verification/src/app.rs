//! The application state: panes, dialogs, workspaces, and the effects that a front end carries out.
use vstd::prelude::*;
use vstd::string::*;

use crate::app::workspace::{empty_workspace, Overlay, OverlayView, Workspace, WorkspaceView};
use crate::db::sessions::TargetView;
use crate::db::{Request, RequestView, TableRef, TableRefView, Task};
use crate::editor::{editor_at_start, sql_editor, EditorView, SqlEditor};
use crate::keyed::{Key, KeyedMap, KeyedSet};
use crate::storage::{
    default_settings, ConnectionProfile, ConnectionProfileView, Settings,
};
use crate::text::{same_text, split_lines};
use crate::value::Value;

pub mod connections;
pub mod explorer;
pub mod explorer_sessions;
pub mod forms;
pub mod input;
pub mod overlays;
pub mod row_detail;
pub mod row_edits;
pub mod scripts;
pub mod sessions;
pub mod table_edits;
pub mod workspace;

verus! {

/// Stable keys track expansion independently of list ordering.
#[derive(Debug, PartialEq, Eq)]
pub enum NodeKey {
    Connection(String),
    Database(String, String),
    Schema(String, String, String),
}

/// What a `NodeKey` denotes.
pub ghost enum NodeKeyView {
    Connection(Seq<char>),
    Database(Seq<char>, Seq<char>),
    Schema(Seq<char>, Seq<char>, Seq<char>),
}

impl DeepView for NodeKey {
    type V = NodeKeyView;

    open spec fn deep_view(&self) -> NodeKeyView {
        match self {
            NodeKey::Connection(value) => NodeKeyView::Connection(value@),
            NodeKey::Database(profile_id, database) => NodeKeyView::Database(profile_id@, database@),
            NodeKey::Schema(profile_id, database, schema) => {
                NodeKeyView::Schema(profile_id@, database@, schema@)
            },
        }
    }
}

impl Clone for NodeKey {
    fn clone(&self) -> (copy: NodeKey)
        ensures
            copy@ == self@,
    {
        self.duplicate()
    }
}

impl View for NodeKey {
    type V = NodeKeyView;

    open spec fn view(&self) -> NodeKeyView {
        self.deep_view()
    }
}

impl Value for NodeKey {
    fn duplicate(&self) -> (copy: NodeKey) {
        match self {
            NodeKey::Connection(value) => NodeKey::Connection(value.duplicate()),
            NodeKey::Database(profile_id, database) => {
                NodeKey::Database(profile_id.duplicate(), database.duplicate())
            },
            NodeKey::Schema(profile_id, database, schema) => {
                NodeKey::Schema(profile_id.duplicate(), database.duplicate(), schema.duplicate())
            },
        }
    }

    fn same(&self, other: &NodeKey) -> (same: bool) {
        match (self, other) {
            (NodeKey::Connection(value_a), NodeKey::Connection(value_b)) => value_a.same(value_b),
            (NodeKey::Database(profile_a, database_a), NodeKey::Database(profile_b, database_b)) => {
                profile_a.same(profile_b) && database_a.same(database_b)
            },
            (
                NodeKey::Schema(profile_a, database_a, schema_a),
                NodeKey::Schema(profile_b, database_b, schema_b),
            ) => {
                profile_a.same(profile_b) && database_a.same(database_b) && schema_a.same(schema_b)
            },
            _ => false,
        }
    }
}

impl Key for NodeKey {
    open spec fn owner_of(key: NodeKeyView) -> Seq<char> {
        match key {
            NodeKeyView::Connection(id) => id,
            NodeKeyView::Database(id, _) => id,
            NodeKeyView::Schema(id, _, _) => id,
        }
    }

    fn owner(&self) -> (owner: &str) {
        match self {
            NodeKey::Connection(id) => id.as_str(),
            NodeKey::Database(id, _) => id.as_str(),
            NodeKey::Schema(id, _, _) => id.as_str(),
        }
    }
}

/// Work outside of the state that a front end carries out, in order.
#[derive(PartialEq, Eq)]
pub enum Effect {
    /// Runs a database operation; its response carries the id.
    Spawn {
        operation_id: u64,
        request: Request,
    },
    /// Requests cancellation; the operation still reports its own outcome.
    Cancel {
        operation_id: u64,
    },
    SaveSettings(Settings),
    /// Releases the sessions and the tunnel of the profile, and persists the list.
    SaveConnection {
        profile_id: String,
        profiles: Vec<ConnectionProfile>,
    },
    /// The same, with a list that lacks the profile.
    DeleteConnection {
        profile_id: String,
        profiles: Vec<ConnectionProfile>,
    },
    SaveScript {
        name: String,
        sql: String,
    },
    LoadScript {
        name: String,
    },
    DeleteScript {
        name: String,
    },
}

/// What a `Effect` denotes.
pub ghost enum EffectView {
    Spawn {
        operation_id: u64,
        request: RequestView,
    },
    Cancel {
        operation_id: u64,
    },
    SaveSettings(Settings),
    SaveConnection {
        profile_id: Seq<char>,
        profiles: Seq<ConnectionProfileView>,
    },
    DeleteConnection {
        profile_id: Seq<char>,
        profiles: Seq<ConnectionProfileView>,
    },
    SaveScript {
        name: Seq<char>,
        sql: Seq<char>,
    },
    LoadScript {
        name: Seq<char>,
    },
    DeleteScript {
        name: Seq<char>,
    },
}

impl DeepView for Effect {
    type V = EffectView;

    open spec fn deep_view(&self) -> EffectView {
        match self {
            Effect::Spawn { operation_id, request } => EffectView::Spawn {
                operation_id: *operation_id,
                request: request.deep_view(),
            },
            Effect::Cancel { operation_id } => EffectView::Cancel { operation_id: *operation_id },
            Effect::SaveSettings(value) => EffectView::SaveSettings(*value),
            Effect::SaveConnection { profile_id, profiles } => EffectView::SaveConnection {
                profile_id: profile_id@,
                profiles: profiles.deep_view(),
            },
            Effect::DeleteConnection { profile_id, profiles } => EffectView::DeleteConnection {
                profile_id: profile_id@,
                profiles: profiles.deep_view(),
            },
            Effect::SaveScript { name, sql } => EffectView::SaveScript { name: name@, sql: sql@ },
            Effect::LoadScript { name } => EffectView::LoadScript { name: name@ },
            Effect::DeleteScript { name } => EffectView::DeleteScript { name: name@ },
        }
    }
}

impl Clone for Effect {
    fn clone(&self) -> (copy: Effect)
        ensures
            copy@ == self@,
    {
        self.duplicate()
    }
}

impl View for Effect {
    type V = EffectView;

    open spec fn view(&self) -> EffectView {
        self.deep_view()
    }
}

impl Value for Effect {
    fn duplicate(&self) -> (copy: Effect) {
        match self {
            Effect::Spawn { operation_id, request } => Effect::Spawn {
                operation_id: *operation_id,
                request: request.duplicate(),
            },
            Effect::Cancel { operation_id } => Effect::Cancel { operation_id: *operation_id },
            Effect::SaveSettings(value) => Effect::SaveSettings(value.duplicate()),
            Effect::SaveConnection { profile_id, profiles } => Effect::SaveConnection {
                profile_id: profile_id.duplicate(),
                profiles: profiles.duplicate(),
            },
            Effect::DeleteConnection { profile_id, profiles } => Effect::DeleteConnection {
                profile_id: profile_id.duplicate(),
                profiles: profiles.duplicate(),
            },
            Effect::SaveScript { name, sql } => Effect::SaveScript {
                name: name.duplicate(),
                sql: sql.duplicate(),
            },
            Effect::LoadScript { name } => Effect::LoadScript { name: name.duplicate() },
            Effect::DeleteScript { name } => Effect::DeleteScript { name: name.duplicate() },
        }
    }

    fn same(&self, other: &Effect) -> (same: bool) {
        match (self, other) {
            (
                Effect::Spawn { operation_id: operation_id_a, request: request_a },
                Effect::Spawn { operation_id: operation_id_b, request: request_b },
            ) => {
                *operation_id_a == *operation_id_b && request_a.same(request_b)
            },
            (
                Effect::Cancel { operation_id: operation_id_a },
                Effect::Cancel { operation_id: operation_id_b },
            ) => {
                *operation_id_a == *operation_id_b
            },
            (Effect::SaveSettings(value_a), Effect::SaveSettings(value_b)) => value_a.same(value_b),
            (
                Effect::SaveConnection { profile_id: profile_id_a, profiles: profiles_a },
                Effect::SaveConnection { profile_id: profile_id_b, profiles: profiles_b },
            ) => {
                profile_id_a.same(profile_id_b) && profiles_a.same(profiles_b)
            },
            (
                Effect::DeleteConnection { profile_id: profile_id_a, profiles: profiles_a },
                Effect::DeleteConnection { profile_id: profile_id_b, profiles: profiles_b },
            ) => {
                profile_id_a.same(profile_id_b) && profiles_a.same(profiles_b)
            },
            (
                Effect::SaveScript { name: name_a, sql: sql_a },
                Effect::SaveScript { name: name_b, sql: sql_b },
            ) => {
                name_a.same(name_b) && sql_a.same(sql_b)
            },
            (Effect::LoadScript { name: name_a }, Effect::LoadScript { name: name_b }) => {
                name_a.same(name_b)
            },
            (Effect::DeleteScript { name: name_a }, Effect::DeleteScript { name: name_b }) => {
                name_a.same(name_b)
            },
            _ => false,
        }
    }
}

/// Central application state; database work is handed out as effects.
pub struct App {
    pub settings: Settings,
    pub should_quit: bool,
    pub profiles: Vec<ConnectionProfile>,
    pub scripts: Vec<String>,
    pub expanded: KeyedSet<NodeKey>,
    pub databases: KeyedMap<String, Vec<String>>,
    pub schemas: KeyedMap<(String, String), Vec<String>>,
    pub tables: KeyedMap<(String, String, String), Vec<TableRef>>,
    pub explorer_selected: usize,
    pub explorer_width_percent: u16,
    pub sql_height_percent: u16,
    pub workspace: Workspace,
    /// The workspaces that are not shown.
    pub workspaces: KeyedMap<(String, String), Workspace>,
    /// One editor lets the same SQL run against different targets without losing undo state.
    pub sql: SqlEditor,
    pub active_target: Option<(String, String)>,
    pub next_operation_id: u64,
    /// The user that a new connection proposes.
    pub user: String,
    pub effects: Vec<Effect>,
}

/// What an `App` denotes.
pub ghost struct AppView {
    pub settings: Settings,
    pub should_quit: bool,
    pub profiles: Seq<ConnectionProfileView>,
    pub scripts: Seq<Seq<char>>,
    pub expanded: Set<NodeKeyView>,
    pub databases: Map<Seq<char>, Seq<Seq<char>>>,
    pub schemas: Map<TargetView, Seq<Seq<char>>>,
    pub tables: Map<(Seq<char>, Seq<char>, Seq<char>), Seq<TableRefView>>,
    pub explorer_selected: usize,
    pub explorer_width_percent: u16,
    pub sql_height_percent: u16,
    pub workspace: WorkspaceView,
    pub workspaces: Map<TargetView, WorkspaceView>,
    pub sql: EditorView,
    pub active_target: Option<TargetView>,
    pub next_operation_id: u64,
    pub user: Seq<char>,
    pub effects: Seq<EffectView>,
}

impl View for App {
    type V = AppView;

    open spec fn view(&self) -> AppView {
        AppView {
            settings: self.settings,
            should_quit: self.should_quit,
            profiles: self.profiles.deep_view(),
            scripts: self.scripts.deep_view(),
            expanded: self.expanded@,
            databases: self.databases@,
            schemas: self.schemas@,
            tables: self.tables@,
            explorer_selected: self.explorer_selected,
            explorer_width_percent: self.explorer_width_percent,
            sql_height_percent: self.sql_height_percent,
            workspace: self.workspace@,
            workspaces: self.workspaces@,
            sql: self.sql@,
            active_target: self.active_target.deep_view(),
            next_operation_id: self.next_operation_id,
            user: self.user@,
            effects: self.effects.deep_view(),
        }
    }
}

/// Whether position `k` holds the first profile with an id.
pub open spec fn is_profile_at(profiles: Seq<ConnectionProfileView>, id: Seq<char>, k: int) -> bool {
    0 <= k < profiles.len() && profiles[k].id == id && forall|j: int|
        0 <= j < k ==> (#[trigger] profiles[j]).id != id
}

/// The profile with an id.
pub open spec fn profile_in(profiles: Seq<ConnectionProfileView>, id: Seq<char>) -> Option<
    ConnectionProfileView,
> {
    if exists|k: int| is_profile_at(profiles, id, k) {
        Some(profiles[choose|k: int| is_profile_at(profiles, id, k)])
    } else {
        None
    }
}

/// The id behind an operation id.
pub open spec fn next_id(id: u64) -> u64 {
    if id == u64::MAX { 0 } else { (id + 1) as u64 }
}

impl AppView {
    /// Every workspace is consistent.
    pub open spec fn valid(self) -> bool {
        self.workspace.valid() && forall|target: TargetView| #[trigger]
            self.workspaces.contains_key(target) ==> self.workspaces[target].valid()
    }

    pub open spec fn profile(self, id: Seq<char>) -> Option<ConnectionProfileView> {
        profile_in(self.profiles, id)
    }

    pub open spec fn password(self, id: Seq<char>) -> Option<Seq<char>> {
        match self.profile(id) {
            Some(profile) => profile.password,
            None => None,
        }
    }

    pub open spec fn with_workspace(self, workspace: WorkspaceView) -> AppView {
        AppView { workspace, ..self }
    }

    pub open spec fn with_status(self, status: Seq<char>, is_error: bool) -> AppView {
        self.with_workspace(self.workspace.with_status(status, is_error))
    }

    pub open spec fn with_overlay(self, overlay: OverlayView) -> AppView {
        self.with_workspace(self.workspace.with_overlay(overlay))
    }

    pub open spec fn with_effect(self, effect: EffectView) -> AppView {
        AppView { effects: self.effects.push(effect), ..self }
    }

    /// Hands out a database operation. All workspaces share one sequence of ids.
    pub open spec fn started(self, request: RequestView) -> (AppView, Task) {
        (
            AppView { next_operation_id: next_id(self.next_operation_id), ..self }.with_effect(
                EffectView::Spawn { operation_id: self.next_operation_id, request },
            ),
            Task { operation_id: self.next_operation_id },
        )
    }

    /// Starts an operation for the shown workspace. One operation at a time keeps cancellation and
    /// response ownership exact.
    pub open spec fn dispatch(self, description: Seq<char>, request: RequestView) -> AppView {
        if self.workspace.database_task is Some {
            self.with_status("Wait for this workspace's operation to finish"@, true)
        } else {
            self.started(request).0.with_workspace(
                self.workspace.awaiting(description, request, self.started(request).1),
            )
        }
    }

    /// Requests cancellation of the shown workspace's operation. Its outcome is still awaited.
    pub open spec fn cancel(self) -> AppView {
        match self.workspace.database_task {
            Some(task) => self.with_effect(
                EffectView::Cancel { operation_id: task.operation_id },
            ).with_status("Cancelling…"@, false),
            None => self,
        }
    }
}

/// The state of a fresh start.
pub open spec fn new_app(
    profiles: Seq<ConnectionProfileView>,
    scripts: Seq<Seq<char>>,
    user: Seq<char>,
) -> AppView {
    AppView {
        settings: default_settings(),
        should_quit: false,
        profiles,
        scripts,
        expanded: Set::empty(),
        databases: Map::empty(),
        schemas: Map::empty(),
        tables: Map::empty(),
        explorer_selected: 0,
        explorer_width_percent: 25,
        sql_height_percent: 34,
        workspace: empty_workspace(),
        workspaces: Map::empty(),
        sql: editor_at_start(split_lines(Seq::empty())),
        active_target: None,
        next_operation_id: 1,
        user,
        effects: Seq::empty(),
    }
}

/// The first profile with an id.
pub fn find_profile<'a>(profiles: &'a Vec<ConnectionProfile>, id: &str) -> (profile: Option<
    &'a ConnectionProfile,
>)
    ensures
        match profile {
            Some(profile) => profile_in(profiles.deep_view(), id@) == Some(profile@),
            None => profile_in(profiles.deep_view(), id@) is None,
        },
{
    let ghost all = profiles.deep_view();
    match find_profile_index(profiles, id) {
        Some(k) => {
            proof {
                let other = choose|j: int| is_profile_at(all, id@, j);
                assert(other == k) by {
                    if other < k {
                        assert(all[other].id != id@);
                    } else if k < other {
                        assert(all[k as int].id != id@);
                    }
                }
                assert(all[k as int] == profiles@[k as int]@);
            }
            Some(&profiles[k])
        },
        None => None,
    }
}

/// The position of the first profile with an id.
pub fn find_profile_index(profiles: &Vec<ConnectionProfile>, id: &str) -> (index: Option<usize>)
    ensures
        match index {
            Some(k) => is_profile_at(profiles.deep_view(), id@, k as int),
            None => forall|k: int| !is_profile_at(profiles.deep_view(), id@, k),
        },
{
    let ghost all = profiles.deep_view();
    let mut k: usize = 0;
    while k < profiles.len()
        invariant
            k <= profiles@.len(),
            all == profiles.deep_view(),
            forall|j: int| 0 <= j < k ==> (#[trigger] all[j]).id != id@,
        decreases profiles@.len() - k,
    {
        assert(all[k as int] == profiles@[k as int]@);
        if same_text(profiles[k].id.as_str(), id) {
            return Some(k);
        }
        k += 1;
    }
    None
}

impl App {
    /// Creates an immediately usable empty workspace.
    pub fn new(profiles: Vec<ConnectionProfile>, scripts: Vec<String>, user: String) -> (app: App)
        ensures
            app@ == new_app(profiles.deep_view(), scripts.deep_view(), user@),
            app@.valid(),
    {
        proof {
            reveal_strlit("");
            assert(""@ =~= Seq::<char>::empty());
        }
        let app = App {
            settings: Settings::default(),
            should_quit: false,
            profiles,
            scripts,
            expanded: KeyedSet::new(),
            databases: KeyedMap::new(),
            schemas: KeyedMap::new(),
            tables: KeyedMap::new(),
            explorer_selected: 0,
            explorer_width_percent: 25,
            sql_height_percent: 34,
            workspace: Workspace::default(),
            workspaces: KeyedMap::new(),
            sql: sql_editor(""),
            active_target: None,
            next_operation_id: 1,
            user,
            effects: Vec::new(),
        };
        assert(app@.effects =~= Seq::empty());
        app
    }

    /// The profile with an id.
    pub fn profile(&self, id: &str) -> (profile: Option<&ConnectionProfile>)
        ensures
            match profile {
                Some(profile) => self@.profile(id@) == Some(profile@),
                None => self@.profile(id@) is None,
            },
    {
        find_profile(&self.profiles, id)
    }

    /// The saved password of a profile.
    pub fn password(&self, id: &str) -> (password: Option<String>)
        ensures
            password.deep_view() == self@.password(id@),
    {
        match self.profile(id) {
            Some(profile) => profile.password.duplicate(),
            None => None,
        }
    }

    /// Puts a status of the shown workspace.
    pub fn set_status(&mut self, status: String, is_error: bool)
        ensures
            final(self)@ == old(self)@.with_status(status@, is_error),
            old(self)@.valid() ==> final(self)@.valid(),
    {
        self.workspace.set_status(status, is_error);
    }

    /// Puts a status from a text.
    pub fn report(&mut self, status: &str, is_error: bool)
        ensures
            final(self)@ == old(self)@.with_status(status@, is_error),
            old(self)@.valid() ==> final(self)@.valid(),
    {
        self.set_status(status.to_owned(), is_error);
    }

    /// Opens a dialog over the shown workspace.
    pub fn open_overlay(&mut self, overlay: Overlay)
        ensures
            final(self)@ == old(self)@.with_overlay(overlay@),
            old(self)@.valid() && overlay@.valid() ==> final(self)@.valid(),
    {
        self.workspace.overlay = Some(overlay);
    }

    /// Hands out work.
    pub fn push_effect(&mut self, effect: Effect)
        ensures
            final(self)@ == old(self)@.with_effect(effect@),
            old(self)@.valid() ==> final(self)@.valid(),
    {
        self.effects.push(effect);
        assert(self@.effects =~= old(self)@.effects.push(effect@));
    }

    /// Takes the work that was handed out since the last call.
    pub fn take_effects(&mut self) -> (effects: Vec<Effect>)
        ensures
            effects.deep_view() == old(self)@.effects,
            final(self)@ == (AppView { effects: Seq::empty(), ..old(self)@ }),
    {
        let mut effects: Vec<Effect> = Vec::new();
        std::mem::swap(&mut effects, &mut self.effects);
        assert(self@.effects =~= Seq::empty());
        effects
    }

    /// Hands out a database operation.
    pub fn start_database_task(&mut self, request: Request) -> (task: Task)
        ensures
            (final(self)@, task) == old(self)@.started(request@),
            old(self)@.valid() ==> final(self)@.valid(),
    {
        let operation_id = self.next_operation_id;
        self.next_operation_id = if operation_id == u64::MAX {
            0
        } else {
            operation_id + 1
        };
        self.push_effect(Effect::Spawn { operation_id, request });
        Task { operation_id }
    }

    /// Starts an operation for the shown workspace.
    pub fn dispatch(&mut self, description: String, request: Request)
        ensures
            final(self)@ == old(self)@.dispatch(description@, request@),
            old(self)@.valid() ==> final(self)@.valid(),
    {
        if self.workspace.database_task.is_some() {
            self.report("Wait for this workspace's operation to finish", true);
            return;
        }
        let copy = request.duplicate();
        let task = self.start_database_task(request);
        self.workspace.await_operation(description, &copy, task);
    }

    /// Requests cancellation of the shown workspace's operation.
    pub fn cancel_database_operation(&mut self)
        ensures
            final(self)@ == old(self)@.cancel(),
            old(self)@.valid() ==> final(self)@.valid(),
    {
        match self.workspace.database_task {
            Some(task) => {
                self.push_effect(Effect::Cancel { operation_id: task.operation_id() });
                self.report("Cancelling…", false);
            },
            None => {},
        }
    }
}

/// Dispatching keeps the rows and what is staged on them.
pub proof fn dispatching_keeps_drafts(app: AppView, description: Seq<char>, request: RequestView)
    ensures
        app.dispatch(description, request).workspace.edits == app.workspace.edits,
        app.dispatch(description, request).workspace.result.rows == app.workspace.result.rows,
        app.dispatch(description, request).workspaces == app.workspaces,
        app.dispatch(description, request).sql == app.sql,
{
}

/// While an operation runs, nothing else starts in its workspace.
pub proof fn one_operation_at_a_time(app: AppView, description: Seq<char>, request: RequestView)
    requires
        app.workspace.database_task is Some,
    ensures
        app.dispatch(description, request).effects == app.effects,
        app.dispatch(description, request).workspace.database_task == app.workspace.database_task,
{
}

/// Two operations that start one behind the other have different ids.
pub proof fn operations_have_distinct_ids(app: AppView, first: RequestView, second: RequestView)
    ensures
        app.started(first).1 != app.started(first).0.started(second).1,
{
}

} // verus!
