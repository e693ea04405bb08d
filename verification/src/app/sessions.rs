//! Workspaces and sessions: switching, response routing, and lifecycle actions.
use vstd::prelude::*;
use vstd::string::*;

use crate::app::explorer::{ExplorerNode, ExplorerNodeView};
use crate::app::table_edits::TableEditsView;
use crate::app::workspace::{
    empty_workspace, Focus, Overlay, OverlayView, SessionAction, Workspace, WorkspaceView,
};
use crate::app::{App, AppView};
use crate::db::sessions::{SessionState, TargetView};
use crate::db::{ErrorView, Output, OutputView, Request, RequestView, Response, ResponseView};
use crate::selection::lemma_selected_agree;
use crate::text::{
    concat, is_before, same_text, text_before, text_before_irreflexive, text_before_total,
    text_before_transitive,
};
use crate::value::Value;

verus! {

/// The order of targets: by profile, and then by database.
pub open spec fn target_before(a: TargetView, b: TargetView) -> bool {
    text_before(a.0, b.0) || (a.0 == b.0 && text_before(a.1, b.1))
}

/// The order of the places that keyboard switching visits: no target comes first.
pub open spec fn place_before(a: Option<TargetView>, b: Option<TargetView>) -> bool {
    match (a, b) {
        (None, Some(_)) => true,
        (Some(a), Some(b)) => target_before(a, b),
        _ => false,
    }
}

/// The order in a direction.
pub open spec fn ahead(forward: bool, a: Option<TargetView>, b: Option<TargetView>) -> bool {
    if forward {
        place_before(a, b)
    } else {
        place_before(b, a)
    }
}

/// Places are ordered: none comes before itself, the order is transitive, and of two different places one
/// comes first.
pub proof fn places_are_ordered(a: Option<TargetView>, b: Option<TargetView>, c: Option<TargetView>)
    ensures
        !place_before(a, a),
        place_before(a, b) && place_before(b, c) ==> place_before(a, c),
        a == b || place_before(a, b) || place_before(b, a),
{
    if let Some(x) = a {
        text_before_irreflexive(x.0);
        text_before_irreflexive(x.1);
        if let Some(y) = b {
            text_before_total(x.0, y.0);
            text_before_total(x.1, y.1);
            if let Some(z) = c {
                if text_before(x.0, y.0) && text_before(y.0, z.0) {
                    text_before_transitive(x.0, y.0, z.0);
                }
                if text_before(x.1, y.1) && text_before(y.1, z.1) {
                    text_before_transitive(x.1, y.1, z.1);
                }
            }
        }
    }
}

/// Whether a target comes before another.
pub fn is_target_before(a: &(String, String), b: &(String, String)) -> (result: bool)
    ensures
        result == target_before(a.deep_view(), b.deep_view()),
{
    is_before(a.0.as_str(), b.0.as_str()) || (same_text(a.0.as_str(), b.0.as_str()) && is_before(
        a.1.as_str(),
        b.1.as_str(),
    ))
}

fn is_place_before(a: &Option<(String, String)>, b: &Option<(String, String)>) -> (result: bool)
    ensures
        result == place_before(a.deep_view(), b.deep_view()),
{
    match (a, b) {
        (None, Some(_)) => true,
        (Some(a), Some(b)) => is_target_before(a, b),
        _ => false,
    }
}

fn is_ahead(forward: bool, a: &Option<(String, String)>, b: &Option<(String, String)>) -> (result: bool)
    ensures
        result == ahead(forward, a.deep_view(), b.deep_view()),
{
    if forward {
        is_place_before(a, b)
    } else {
        is_place_before(b, a)
    }
}

/// The status of a lost session.
pub open spec fn lost_status() -> Seq<char> {
    "SQL session lost; reconnect explicitly. Any uncommitted transaction is lost; a recent write outcome may be unknown."@
}

impl WorkspaceView {
    /// Whether an observed session state is news. Running operations publish their final state with
    /// their response.
    pub open spec fn learns(self, state: SessionState) -> bool {
        self.database_task is None && self.session_state != state
    }

    /// The workspace that knows an observed session state.
    pub open spec fn polled(self, state: SessionState) -> WorkspaceView {
        if !self.learns(state) {
            self
        } else if state == SessionState::Lost {
            WorkspaceView { session_state: state, ..self }.with_status(lost_status(), true)
        } else {
            WorkspaceView { session_state: state, ..self }
        }
    }

    /// Whether quitting now could lose work here: an operation, a transaction, or staged rows.
    pub open spec fn guards_quit(self) -> bool {
        self.database_task is Some || self.session_state.holds_work() || self.staged()
    }

    /// Whether nothing would be lost here: no operation runs, no user transaction is open, and no row is staged.
    pub open spec fn rests(self) -> bool {
        self.database_task is None && !self.session_state.holds_work() && !self.staged()
    }

    /// Whether rows are staged here that belong to a profile. An unknown save outcome alone does not count: the
    /// connection may have to be changed before the rows can be refreshed.
    pub open spec fn guards_profile(self, profile_id: Seq<char>, target: Option<TargetView>) -> bool {
        self.staged() && ((target is Some && target->Some_0.0 == profile_id)
            || crate::app::workspace::from_profile(self.result.source, profile_id))
    }
}

/// Why a profile with running operations cannot be changed.
pub open spec fn running_problem() -> Seq<char> {
    "Wait for all operations on this profile to finish"@
}

/// Why a profile with staged rows cannot be changed.
pub open spec fn staged_problem() -> Seq<char> {
    "Save or discard table changes before changing this connection"@
}

impl AppView {
    /// Whether a place can be switched to: the present one, and every hidden workspace whose profile
    /// exists.
    pub open spec fn reachable(self, place: Option<TargetView>) -> bool {
        place == self.active_target || (place is Some && self.workspaces.contains_key(
            place->Some_0,
        ) && self.profile(place->Some_0.0) is Some)
    }

    /// Whether a place is the next in a direction: the nearest ahead, and behind the last the first.
    pub open spec fn is_next(self, forward: bool, place: Option<TargetView>) -> bool {
        &&& self.reachable(place)
        &&& if exists|other: Option<TargetView>| #[trigger]
            self.reachable(other) && ahead(forward, self.active_target, other) {
            ahead(forward, self.active_target, place) && forall|other: Option<TargetView>| #[trigger]
                self.reachable(other) && ahead(forward, self.active_target, other) ==> !ahead(
                    forward,
                    other,
                    place,
                )
        } else {
            forall|other: Option<TargetView>| #[trigger]
                self.reachable(other) ==> !ahead(forward, other, place)
        }
    }

    /// The state with a target's workspace shown. The SQL editor stays as it is.
    pub open spec fn switched(self, target: TargetView) -> AppView {
        if self.active_target == Some(target) {
            self
        } else {
            let known = self.workspaces.contains_key(target);
            let rest = self.workspaces.remove(target);
            let shown = if known {
                self.workspaces[target]
            } else if self.active_target is Some {
                empty_workspace()
            } else {
                self.workspace
            };
            AppView {
                active_target: Some(target),
                workspace: WorkspaceView { focus: Focus::Explorer, ..shown },
                workspaces: match self.active_target {
                    Some(previous) => rest.insert(previous, self.workspace),
                    None => rest,
                },
                ..self
            }
        }
    }

    /// The state with the shown workspace put away under its target.
    pub open spec fn parked(self) -> AppView {
        match self.active_target {
            Some(target) => AppView {
                active_target: None,
                workspace: empty_workspace(),
                workspaces: self.workspaces.insert(target, self.workspace),
                ..self
            },
            None => self,
        }
    }

    /// The state with a place shown, and the focus where it was.
    pub open spec fn moved_to(self, place: Option<TargetView>) -> AppView {
        let next = match place {
            Some(target) => self.switched(target),
            None => self.parked(),
        };
        next.with_workspace(WorkspaceView { focus: self.workspace.focus, ..next.workspace })
    }

    /// The state with the next place shown.
    #[verifier::opaque]
    pub open spec fn cycled(self, forward: bool) -> AppView {
        self.moved_to(choose|place: Option<TargetView>| self.is_next(forward, place))
    }

    /// The state with what a response says of the tree.
    pub open spec fn with_metadata(self, output: Result<OutputView, ErrorView>) -> AppView {
        match output {
            Ok(OutputView::Databases { profile_id, names }) => AppView {
                databases: self.databases.insert(profile_id, names),
                ..self
            },
            Ok(OutputView::Schemas { profile_id, database, names }) => AppView {
                schemas: self.schemas.insert((profile_id, database), names),
                ..self
            },
            Ok(OutputView::Tables { profile_id, database, schema, tables }) => AppView {
                tables: self.tables.insert((profile_id, database, schema), tables),
                ..self
            },
            _ => self,
        }
    }

    /// Whether a hidden workspace runs an operation.
    pub open spec fn hidden_owner(self, operation_id: u64, target: TargetView) -> bool {
        self.workspaces.contains_key(target) && self.workspaces[target].owns(operation_id)
    }

    /// The state with a response applied to the shown workspace.
    pub open spec fn responded(self, response: ResponseView) -> AppView {
        self.with_metadata(response.result).with_workspace(self.workspace.respond(response))
    }

    /// The state with a response applied to a hidden workspace.
    pub open spec fn responded_at(self, target: TargetView, response: ResponseView) -> AppView {
        AppView {
            workspaces: self.workspaces.insert(target, self.workspaces[target].respond(response)),
            ..self.with_metadata(response.result)
        }
    }

    /// The workspace of a target, shown or hidden.
    pub open spec fn workspace_of(self, target: TargetView) -> Option<WorkspaceView> {
        if self.active_target == Some(target) {
            Some(self.workspace)
        } else if self.workspaces.contains_key(target) {
            Some(self.workspaces[target])
        } else {
            None
        }
    }

    /// The state with another workspace for a target that has one.
    pub open spec fn with_workspace_of(self, target: TargetView, workspace: WorkspaceView) -> AppView {
        if self.active_target == Some(target) {
            self.with_workspace(workspace)
        } else {
            AppView { workspaces: self.workspaces.insert(target, workspace), ..self }
        }
    }

    /// The state with one observed session state.
    pub open spec fn observed(self, target: TargetView, state: SessionState) -> AppView {
        match self.workspace_of(target) {
            Some(workspace) => if workspace.learns(state) {
                self.with_workspace_of(target, workspace.polled(state))
            } else {
                self
            },
            None => self,
        }
    }

    /// Whether one observed session state is news.
    pub open spec fn notices(self, target: TargetView, state: SessionState) -> bool {
        self.workspace_of(target) is Some && self.workspace_of(target)->Some_0.learns(state)
    }

    /// The state with observed session states, in order, and whether any was news.
    pub open spec fn polled(self, states: Seq<(TargetView, SessionState)>) -> (AppView, bool)
        decreases states.len(),
    {
        if states.len() == 0 {
            (self, false)
        } else {
            let (earlier, changed) = self.polled(states.drop_last());
            let (target, state) = states.last();
            (earlier.observed(target, state), changed || earlier.notices(target, state))
        }
    }

    /// Whether quitting now could lose work anywhere.
    pub open spec fn guards_quit(self) -> bool {
        self.workspace.guards_quit() || exists|target: TargetView| #[trigger]
            self.workspaces.contains_key(target) && self.workspaces[target].guards_quit()
    }

    /// Carries out a lifecycle action.
    pub open spec fn performed(self, action: SessionAction) -> AppView {
        if action == SessionAction::Quit {
            AppView { should_quit: true, ..self }
        } else {
            match self.active_target {
                None => self.with_status("Select a database first"@, true),
                Some(target) => match self.profile(target.0) {
                    None => self.with_status("The connection no longer exists"@, true),
                    Some(profile) => self.dispatch(
                        action.name() + " SQL session"@,
                        if action == SessionAction::Disconnect {
                            RequestView::Disconnect { profile, database: target.1 }
                        } else {
                            RequestView::Connect {
                                profile,
                                database: target.1,
                                reconnect: action == SessionAction::Reconnect,
                            }
                        },
                    ),
                },
            }
        }
    }

    /// Whether a lifecycle action needs consent.
    pub open spec fn needs_consent(self, action: SessionAction) -> bool {
        if action == SessionAction::Quit {
            self.guards_quit()
        } else {
            action != SessionAction::Connect && self.workspace.session_state.holds_work()
        }
    }

    /// Asks for a lifecycle action, with the session states that were just observed.
    #[verifier::opaque]
    pub open spec fn requested(
        self,
        action: SessionAction,
        states: Seq<(TargetView, SessionState)>,
    ) -> AppView {
        let next = self.polled(states).0;
        if action != SessionAction::Quit && next.workspace.database_task is Some {
            next.with_status("Cancel or wait for this workspace's operation first"@, true)
        } else if next.needs_consent(action) {
            next.with_overlay(OverlayView::ConfirmSession(action))
        } else {
            next.performed(action)
        }
    }

    /// Whether an operation of a profile runs anywhere.
    pub open spec fn profile_is_busy(self, profile_id: Seq<char>) -> bool {
        (self.active_target is Some && self.active_target->Some_0.0 == profile_id
            && self.workspace.database_task is Some) || exists|target: TargetView| #[trigger]
            self.workspaces.contains_key(target) && target.0 == profile_id
                && self.workspaces[target].database_task is Some
    }

    /// Whether rows of a profile are staged anywhere.
    pub open spec fn profile_is_staged(self, profile_id: Seq<char>) -> bool {
        self.workspace.guards_profile(profile_id, self.active_target) || exists|
            target: TargetView,
        | #[trigger]
            self.workspaces.contains_key(target) && self.workspaces[target].guards_profile(
                profile_id,
                Some(target),
            )
    }

    /// Why a profile cannot be changed now.
    pub open spec fn profile_problem(self, profile_id: Seq<char>) -> Option<Seq<char>> {
        if self.profile_is_busy(profile_id) {
            Some(running_problem())
        } else if self.profile_is_staged(profile_id) {
            Some(staged_problem())
        } else {
            None
        }
    }

    /// The state without editable rows of a profile.
    pub open spec fn invalidated(self, profile_id: Seq<char>) -> AppView {
        AppView {
            workspace: self.workspace.invalidated(profile_id),
            workspaces: self.workspaces.map_values(
                |workspace: WorkspaceView| workspace.invalidated(profile_id),
            ),
            ..self
        }
    }

    /// Whether a session of a profile, or of one of its databases, is connected.
    pub open spec fn connected(self, profile_id: Seq<char>, database: Option<Seq<char>>) -> bool {
        exists|target: TargetView| #[trigger]
            self.has_session(target) && target.0 == profile_id && (database is None || database
                == Some(target.1))
    }

    /// Whether a connected session of a target is shown or hidden.
    pub open spec fn has_session(self, target: TargetView) -> bool {
        (self.active_target == Some(target) && self.workspace.session_state is Connected) || (
        self.workspaces.contains_key(target) && self.workspaces[target].session_state is Connected)
    }

    /// Whether an explorer node is marked as connected. A profile stays connected while any of its
    /// database sessions remains open.
    pub open spec fn node_connected(self, node: ExplorerNodeView) -> bool {
        match node {
            ExplorerNodeView::Connection(id) => self.connected(id, None),
            ExplorerNodeView::Database { profile_id, database } => self.connected(
                profile_id,
                Some(database),
            ),
            _ => false,
        }
    }

    /// Whether an operation runs anywhere.
    pub open spec fn runs(self, operation_id: u64) -> bool {
        self.workspace.owns(operation_id) || exists|target: TargetView| #[trigger]
            self.hidden_owner(operation_id, target)
    }
}

fn same_target(a: &Option<(String, String)>, b: &(String, String)) -> (same: bool)
    ensures
        same == (a.deep_view() == Some(b.deep_view())),
{
    match a {
        Some(a) => a.same(b),
        None => false,
    }
}

impl App {
    /// Whether an explorer node is marked as connected.
    pub fn explorer_connected(&self, node: &ExplorerNode) -> (connected: bool)
        ensures
            connected == self@.node_connected(node@),
    {
        match node {
            ExplorerNode::Connection(id) => self.is_connected(id.as_str(), None),
            ExplorerNode::Database { profile_id, database } => self.is_connected(
                profile_id.as_str(),
                Some(database.as_str()),
            ),
            _ => false,
        }
    }

    fn is_connected(&self, profile_id: &str, database: Option<&str>) -> (connected: bool)
        ensures
            connected == self@.connected(
                profile_id@,
                match database {
                    Some(database) => Some(database@),
                    None => None,
                },
            ),
    {
        let ghost wanted = match database {
            Some(database) => Some(database@),
            None => None::<Seq<char>>,
        };
        if let Some(target) = &self.active_target {
            let matching = same_text(target.0.as_str(), profile_id) && (match database {
                Some(database) => same_text(target.1.as_str(), database),
                None => true,
            });
            if matching && matches!(self.workspace.session_state, SessionState::Connected(_)) {
                assert(self@.has_session(target.deep_view()));
                return true;
            }
        }
        let ghost keys = self.workspaces.keys();
        let mut i: usize = 0;
        while i < self.workspaces.len()
            invariant
                i <= keys.len(),
                keys == self.workspaces.keys(),
                wanted == (match database {
                    Some(database) => Some(database@),
                    None => None::<Seq<char>>,
                }),
                forall|a: int|
                    0 <= a < i && (#[trigger] keys[a]).0 == profile_id@ && (wanted is None || wanted
                        == Some(keys[a].1)) && self@.workspaces.contains_key(keys[a])
                        ==> !(self@.workspaces[keys[a]].session_state is Connected),
            decreases keys.len() - i,
        {
            let key = self.workspaces.key_at(i);
            let matching = same_text(key.0.as_str(), profile_id) && (match database {
                Some(database) => same_text(key.1.as_str(), database),
                None => true,
            });
            let workspace = self.workspaces.value_at(i);
            if matching && matches!(workspace.session_state, SessionState::Connected(_)) {
                assert(self@.has_session(key.deep_view()));
                return true;
            }
            i += 1;
        }
        proof {
            self.workspaces.lemma_keys();
            assert forall|target: TargetView| #[trigger]
                self@.has_session(target) && target.0 == profile_id@ implies !(wanted is None
                || wanted == Some(target.1)) by {
                if (wanted is None || wanted == Some(target.1)) && self@.workspaces.contains_key(
                    target,
                ) {
                    assert(keys.contains(target));
                    let a = choose|a: int| 0 <= a < keys.len() && keys[a] == target;
                    assert(keys[a].0 == profile_id@);
                }
            }
        }
        false
    }

    /// Shows a target's workspace, and leaves the shared SQL editor untouched.
    pub fn switch_workspace(&mut self, target: (String, String))
        ensures
            final(self)@ == old(self)@.switched(target.deep_view()),
            old(self)@.valid() ==> final(self)@.valid(),
    {
        if same_target(&self.active_target, &target) {
            return;
        }
        let ghost before = self@;
        let ghost key = target.deep_view();
        let next = self.workspaces.remove(&target);
        let mut previous = Some(target);
        std::mem::swap(&mut previous, &mut self.active_target);
        match previous {
            Some(previous) => {
                let mut shown = match next {
                    Some(next) => next,
                    None => Workspace::default(),
                };
                std::mem::swap(&mut shown, &mut self.workspace);
                self.workspaces.insert(previous, shown);
            },
            None => match next {
                Some(next) => {
                    self.workspace = next;
                },
                None => {},
            },
        }
        self.workspace.focus = Focus::Explorer;
        proof {
            assert(self@ == before.switched(key));
            if before.valid() {
                assert(self@.workspace.valid());
            }
        }
    }

    /// Puts the shown workspace away under its target; SQL input stays shared.
    pub fn park_workspace(&mut self)
        ensures
            final(self)@ == old(self)@.parked(),
            old(self)@.valid() ==> final(self)@.valid(),
    {
        let mut target: Option<(String, String)> = None;
        std::mem::swap(&mut target, &mut self.active_target);
        match target {
            Some(target) => {
                let mut workspace = Workspace::default();
                std::mem::swap(&mut workspace, &mut self.workspace);
                self.workspaces.insert(target, workspace);
            },
            None => {},
        }
    }

    /// The next place in a direction.
    fn next_place(&self, forward: bool) -> (place: Option<(String, String)>)
        ensures
            self@.is_next(forward, place.deep_view()),
    {
        let ghost here = self@.active_target;
        // The nearest place ahead, if there is one, and the first of all in this direction.
        let mut nearest: Option<Option<(String, String)>> = None;
        let mut first = self.active_target.duplicate();
        let ghost keys = self.workspaces.keys();
        proof {
            places_are_ordered(here, here, here);
        }
        let mut i: usize = 0;
        while i < self.workspaces.len()
            invariant
                i <= keys.len(),
                keys == self.workspaces.keys(),
                here == self@.active_target,
                self@.reachable(first.deep_view()),
                !ahead(forward, here, first.deep_view()),
                forall|a: int|
                    0 <= a < i && self@.reachable(Some(#[trigger] keys[a])) ==> !ahead(
                        forward,
                        Some(keys[a]),
                        first.deep_view(),
                    ),
                match nearest {
                    Some(place) => self@.reachable(place.deep_view()) && ahead(
                        forward,
                        here,
                        place.deep_view(),
                    ) && forall|a: int|
                        0 <= a < i && self@.reachable(Some(#[trigger] keys[a])) && ahead(
                            forward,
                            here,
                            Some(keys[a]),
                        ) ==> !ahead(forward, Some(keys[a]), place.deep_view()),
                    None => forall|a: int|
                        0 <= a < i && self@.reachable(Some(#[trigger] keys[a])) ==> !ahead(
                            forward,
                            here,
                            Some(keys[a]),
                        ),
                },
            decreases keys.len() - i,
        {
            let key = self.workspaces.key_at(i);
            let place = Some(key.duplicate());
            let ghost p = place.deep_view();
            if self.profile(key.0.as_str()).is_some() {
                assert(self@.reachable(p));
                proof {
                    assert forall|a: int| 0 <= a <= i implies {
                        &&& !place_before(Some(#[trigger] keys[a]), Some(keys[a]))
                        &&& (place_before(Some(keys[a]), p) && place_before(p, first.deep_view())
                            ==> place_before(Some(keys[a]), first.deep_view()))
                        &&& (place_before(p, Some(keys[a])) && place_before(
                            first.deep_view(),
                            p,
                        ) ==> place_before(first.deep_view(), Some(keys[a])))
                    } by {
                        places_are_ordered(Some(keys[a]), p, first.deep_view());
                        places_are_ordered(first.deep_view(), p, Some(keys[a]));
                    }
                    places_are_ordered(p, p, p);
                    places_are_ordered(here, p, first.deep_view());
                    places_are_ordered(p, first.deep_view(), here);
                    places_are_ordered(first.deep_view(), p, here);
                    places_are_ordered(here, first.deep_view(), p);
                    if nearest is Some {
                        let n = nearest->Some_0.deep_view();
                        places_are_ordered(here, p, n);
                        assert forall|a: int| 0 <= a <= i implies {
                            &&& (place_before(Some(#[trigger] keys[a]), p) && place_before(p, n)
                                ==> place_before(Some(keys[a]), n))
                            &&& (place_before(p, Some(keys[a])) && place_before(n, p)
                                ==> place_before(n, Some(keys[a])))
                        } by {
                            places_are_ordered(Some(keys[a]), p, n);
                            places_are_ordered(n, p, Some(keys[a]));
                        }
                    }
                }
                if is_ahead(forward, &place, &first) {
                    first = place.duplicate();
                }
                if is_ahead(forward, &self.active_target, &place) {
                    let closer = match &nearest {
                        Some(near) => is_ahead(forward, &place, near),
                        None => true,
                    };
                    if closer {
                        nearest = Some(place);
                    }
                }
            } else {
                assert(self@.reachable(p) ==> p == here);
                proof {
                    places_are_ordered(here, here, here);
                    if p == here && nearest is Some {
                        places_are_ordered(here, nearest->Some_0.deep_view(), here);
                    }
                }
            }
            i += 1;
        }
        proof {
            self.workspaces.lemma_keys();
            places_are_ordered(here, here, here);
            assert forall|other: Option<TargetView>| #[trigger] self@.reachable(other) && other
                != here implies exists|a: int|
                0 <= a < keys.len() && Some(#[trigger] keys[a]) == other by {
                assert(keys.contains(other->Some_0));
                let a = choose|a: int| 0 <= a < keys.len() && keys[a] == other->Some_0;
                assert(Some(keys[a]) == other);
            }
        }
        match nearest {
            Some(place) => {
                proof {
                    assert(self@.reachable(place.deep_view()) && ahead(
                        forward,
                        here,
                        place.deep_view(),
                    ));
                    assert forall|other: Option<TargetView>| #[trigger]
                        self@.reachable(other) && ahead(forward, here, other) implies !ahead(
                        forward,
                        other,
                        place.deep_view(),
                    ) by {
                        let a = choose|a: int| 0 <= a < keys.len() && Some(#[trigger] keys[a]) == other;
                        assert(self@.reachable(Some(keys[a])));
                    }
                }
                place
            },
            None => {
                proof {
                    assert forall|other: Option<TargetView>| #[trigger]
                        self@.reachable(other) implies !ahead(forward, here, other) && !ahead(
                        forward,
                        other,
                        first.deep_view(),
                    ) by {
                        if other != here {
                            let a = choose|a: int|
                                0 <= a < keys.len() && Some(#[trigger] keys[a]) == other;
                            assert(self@.reachable(Some(keys[a])));
                        }
                    }
                }
                first
            },
        }
    }

    /// Shows the next workspace in a fixed order.
    pub fn cycle_workspace(&mut self, forward: bool)
        ensures
            final(self)@ == old(self)@.cycled(forward),
            old(self)@.valid() ==> final(self)@.valid(),
    {
        proof {
            reveal(AppView::cycled);
        }
        let place = self.next_place(forward);
        proof {
            let chosen = choose|p: Option<TargetView>| self@.is_next(forward, p);
            next_place_is_unique(self@, forward, chosen, place.deep_view());
        }
        let focus = self.workspace.focus;
        match place {
            Some(target) => self.switch_workspace(target),
            None => self.park_workspace(),
        }
        self.workspace.focus = focus;
    }

    /// Remembers what a response says of the tree. The tree is shared by all workspaces.
    fn learn_metadata(&mut self, response: &Response)
        ensures
            final(self)@ == old(self)@.with_metadata(response@.result),
            final(self).workspaces == old(self).workspaces,
            old(self)@.valid() ==> final(self)@.valid(),
    {
        match &response.result {
            Ok(Output::Databases { profile_id, names }) => {
                self.databases.insert(profile_id.clone(), names.duplicate());
            },
            Ok(Output::Schemas { profile_id, database, names }) => {
                self.schemas.insert((profile_id.clone(), database.clone()), names.duplicate());
            },
            Ok(Output::Tables { profile_id, database, schema, tables }) => {
                self.tables.insert(
                    (profile_id.clone(), database.clone(), schema.clone()),
                    tables.duplicate(),
                );
            },
            _ => {},
        }
    }

    /// Applies a response to the workspace that owns its operation, and to no other.
    pub fn handle_database_response(&mut self, response: Response)
        requires
            old(self)@.valid(),
        ensures
            final(self)@.valid(),
            if old(self)@.workspace.owns(response@.operation_id) {
                final(self)@ == old(self)@.responded(response@)
            } else if old(self)@.runs(response@.operation_id) {
                exists|target: TargetView| #[trigger]
                    old(self)@.hidden_owner(response@.operation_id, target) && final(self)@
                        == old(self)@.responded_at(target, response@)
            } else {
                final(self)@ == old(self)@
            },
    {
        if self.workspace.owns_operation(response.operation_id) {
            self.learn_metadata(&response);
            self.workspace.apply_database_response(response);
            return;
        }
        let ghost before = self@;
        let ghost keys = self.workspaces.keys();
        let operation_id = response.operation_id;
        let mut i: usize = 0;
        while i < self.workspaces.len()
            invariant
                i <= keys.len(),
                keys == self.workspaces.keys(),
                self@ == before,
                before == old(self)@,
                before.valid(),
                operation_id == response@.operation_id,
                !before.workspace.owns(operation_id),
                forall|a: int|
                    0 <= a < i ==> !before.hidden_owner(operation_id, #[trigger] keys[a]),
            decreases keys.len() - i,
        {
            if self.workspaces.value_at(i).owns_operation(operation_id) {
                proof {
                    self.workspaces.lemma_keys();
                    assert(before.workspaces.contains_key(keys[i as int]));
                    assert(before.hidden_owner(operation_id, keys[i as int]));
                }
                self.respond_at(i, response);
                return;
            }
            i += 1;
        }
        proof {
            self.workspaces.lemma_keys();
            assert forall|target: TargetView| !before.hidden_owner(operation_id, target) by {
                if before.hidden_owner(operation_id, target) {
                    assert(keys.contains(target));
                    let a = choose|a: int| 0 <= a < keys.len() && keys[a] == target;
                    assert(!before.hidden_owner(operation_id, keys[a]));
                }
            }
        }
    }

    fn respond_at(&mut self, index: usize, response: Response)
        requires
            old(self)@.valid(),
            index < old(self).workspaces.keys().len(),
            old(self)@.workspaces.contains_key(old(self).workspaces.keys()[index as int]),
        ensures
            final(self)@.valid(),
            final(self)@ == old(self)@.responded_at(
                old(self).workspaces.keys()[index as int],
                response@,
            ),
    {
        let ghost before = self@;
        let ghost key = self.workspaces.keys()[index as int];
        let ghost reply = response@;
        self.learn_metadata(&response);
        let mut workspace = Workspace::default();
        self.workspaces.exchange(index, &mut workspace);
        workspace.apply_database_response(response);
        let ghost answered = workspace@;
        self.workspaces.exchange(index, &mut workspace);
        assert(self@.workspaces =~= before.workspaces.insert(key, answered));
    }

    /// Learns one observed session state.
    fn observe(&mut self, target: &(String, String), state: SessionState) -> (changed: bool)
        requires
            old(self)@.valid(),
        ensures
            final(self)@.valid(),
            final(self)@ == old(self)@.observed(target.deep_view(), state),
            changed == old(self)@.notices(target.deep_view(), state),
    {
        if same_target(&self.active_target, target) {
            return poll_workspace(&mut self.workspace, state);
        }
        let ghost before = self@;
        let ghost key = target.deep_view();
        match self.workspaces.remove(target) {
            Some(workspace) => {
                let mut workspace = workspace;
                let changed = poll_workspace(&mut workspace, state);
                let ghost polled = workspace@;
                self.workspaces.insert(target.duplicate(), workspace);
                proof {
                    assert(self@.workspaces =~= before.workspaces.insert(key, polled));
                    if !changed {
                        assert(self@.workspaces =~= before.workspaces);
                    }
                }
                changed
            },
            None => {
                assert(self@.workspaces =~= before.workspaces);
                false
            },
        }
    }

    /// Learns the observed states of idle sessions, and says whether any was news.
    pub fn poll_sessions(&mut self, states: &Vec<((String, String), SessionState)>) -> (changed: bool)
        requires
            old(self)@.valid(),
        ensures
            final(self)@.valid(),
            (final(self)@, changed) == old(self)@.polled(states.deep_view()),
    {
        let ghost before = self@;
        let ghost all = states.deep_view();
        let mut changed = false;
        let mut i: usize = 0;
        assert(all.take(0) =~= Seq::empty());
        while i < states.len()
            invariant
                i <= states@.len(),
                all == states.deep_view(),
                self@.valid(),
                (self@, changed) == before.polled(all.take(i as int)),
            decreases states@.len() - i,
        {
            proof {
                let next = all.take(i + 1);
                assert(next.drop_last() =~= all.take(i as int));
                assert(next.last() == states@[i as int].deep_view());
            }
            let news = self.observe(&states[i].0, states[i].1);
            changed = changed || news;
            i += 1;
        }
        assert(all.take(i as int) =~= all);
        changed
    }

    /// Whether quitting now could lose work anywhere.
    fn quit_is_guarded(&self) -> (guarded: bool)
        requires
            self@.valid(),
        ensures
            guarded == self@.guards_quit(),
    {
        if workspace_guards_quit(&self.workspace) {
            return true;
        }
        let ghost keys = self.workspaces.keys();
        let mut i: usize = 0;
        proof {
            self.workspaces.lemma_keys();
        }
        while i < self.workspaces.len()
            invariant
                i <= keys.len(),
                keys == self.workspaces.keys(),
                self@.valid(),
                forall|a: int|
                    0 <= a < i && self@.workspaces.contains_key(#[trigger] keys[a])
                        ==> !self@.workspaces[keys[a]].guards_quit(),
            decreases keys.len() - i,
        {
            let key = self.workspaces.key_at(i);
            let workspace = self.workspaces.value_at(i);
            assert(self@.workspaces.contains_key(key.deep_view()));
            if workspace_guards_quit(workspace) {
                return true;
            }
            i += 1;
        }
        proof {
            assert forall|target: TargetView| #[trigger]
                self@.workspaces.contains_key(target) implies !self@.workspaces[target].guards_quit() by {
                assert(keys.contains(target));
                let a = choose|a: int| 0 <= a < keys.len() && keys[a] == target;
                assert(self@.workspaces.contains_key(keys[a]));
            }
        }
        false
    }

    /// Asks for a lifecycle action. Hidden workspaces count for quit safety too.
    pub fn request_session_action(
        &mut self,
        action: SessionAction,
        states: &Vec<((String, String), SessionState)>,
    )
        requires
            old(self)@.valid(),
        ensures
            final(self)@.valid(),
            final(self)@ == old(self)@.requested(action, states.deep_view()),
    {
        proof {
            reveal(AppView::requested);
        }
        let _ = self.poll_sessions(states);
        let confirm = if action == SessionAction::Quit {
            self.quit_is_guarded()
        } else {
            if self.workspace.database_task.is_some() {
                self.report("Cancel or wait for this workspace's operation first", true);
                return;
            }
            action != SessionAction::Connect && self.workspace.session_state.needs_confirmation()
        };
        if confirm {
            self.open_overlay(Overlay::ConfirmSession(action));
        } else {
            self.perform_session_action(action);
        }
    }

    /// Carries out a lifecycle action. Requests use the same operation ownership as SQL.
    pub fn perform_session_action(&mut self, action: SessionAction)
        ensures
            final(self)@ == old(self)@.performed(action),
            old(self)@.valid() ==> final(self)@.valid(),
    {
        if action == SessionAction::Quit {
            self.should_quit = true;
            return;
        }
        let (profile_id, database) = match &self.active_target {
            Some(target) => target.duplicate(),
            None => {
                self.report("Select a database first", true);
                return;
            },
        };
        let profile = match self.profile(profile_id.as_str()) {
            Some(profile) => profile.duplicate(),
            None => {
                self.report("The connection no longer exists", true);
                return;
            },
        };
        let request = if action == SessionAction::Disconnect {
            Request::Disconnect { profile, database }
        } else {
            Request::Connect { profile, database, reconnect: action == SessionAction::Reconnect }
        };
        self.dispatch(concat(action.text(), " SQL session"), request);
    }

    /// Why a profile cannot be changed now: operations and staged rows in any workspace.
    pub fn prepare_profile_change(&self, profile_id: &str) -> (problem: Option<String>)
        requires
            self@.valid(),
        ensures
            problem.deep_view() == self@.profile_problem(profile_id@),
    {
        let active = match &self.active_target {
            Some(target) => same_text(target.0.as_str(), profile_id),
            None => false,
        };
        let mut busy = active && self.workspace.database_task.is_some();
        let mut staged = self.workspace.has_staged_rows() && (active || comes_from(
            &self.workspace,
            profile_id,
        ));
        let ghost keys = self.workspaces.keys();
        let ghost here = (self@.active_target is Some && self@.active_target->Some_0.0
            == profile_id@ && self@.workspace.database_task is Some);
        let mut i: usize = 0;
        proof {
            self.workspaces.lemma_keys();
        }
        while i < self.workspaces.len()
            invariant
                i <= keys.len(),
                keys == self.workspaces.keys(),
                self@.valid(),
                here == (self@.active_target is Some && self@.active_target->Some_0.0
                    == profile_id@ && self@.workspace.database_task is Some),
                busy ==> self@.profile_is_busy(profile_id@),
                !busy ==> !here && forall|a: int|
                    0 <= a < i && self@.workspaces.contains_key(#[trigger] keys[a])
                        ==> !(keys[a].0 == profile_id@
                        && self@.workspaces[keys[a]].database_task is Some),
                staged ==> self@.profile_is_staged(profile_id@),
                !staged ==> !self@.workspace.guards_profile(profile_id@, self@.active_target)
                    && forall|a: int|
                    0 <= a < i && self@.workspaces.contains_key(#[trigger] keys[a])
                        ==> !self@.workspaces[keys[a]].guards_profile(profile_id@, Some(keys[a])),
            decreases keys.len() - i,
        {
            let key = self.workspaces.key_at(i);
            let workspace = self.workspaces.value_at(i);
            let owned = same_text(key.0.as_str(), profile_id);
            assert(self@.workspaces.contains_key(key.deep_view()));
            if owned && workspace.database_task.is_some() {
                busy = true;
            }
            if workspace.has_staged_rows() && (owned || comes_from(workspace, profile_id)) {
                assert(self@.workspaces[key.deep_view()].guards_profile(
                    profile_id@,
                    Some(key.deep_view()),
                ));
                staged = true;
            }
            i += 1;
        }
        proof {
            assert forall|target: TargetView| #[trigger]
                self@.workspaces.contains_key(target) implies exists|a: int|
                0 <= a < keys.len() && #[trigger] keys[a] == target by {
                assert(keys.contains(target));
            }
        }
        if busy {
            return Some("Wait for all operations on this profile to finish".to_owned());
        }
        if staged {
            return Some(
                "Save or discard table changes before changing this connection".to_owned(),
            );
        }
        None
    }

    /// Removes editable rows of a profile from every workspace, with their dialogs.
    pub fn invalidate_all_previews(&mut self, profile_id: &str)
        requires
            old(self)@.valid(),
        ensures
            final(self)@.valid(),
            final(self)@ == old(self)@.invalidated(profile_id@),
    {
        let ghost before = self@;
        self.workspace.invalidate_connection_preview(profile_id);
        let ghost keys = self.workspaces.keys();
        let ghost goal = before.workspaces.map_values(
            |workspace: WorkspaceView| workspace.invalidated(profile_id@),
        );
        let mut i: usize = 0;
        proof {
            self.workspaces.lemma_keys();
        }
        while i < self.workspaces.len()
            invariant
                i <= keys.len(),
                keys == self.workspaces.keys(),
                before.valid(),
                goal == before.workspaces.map_values(
                    |workspace: WorkspaceView| workspace.invalidated(profile_id@),
                ),
                self@ == (AppView {
                    workspace: before.workspace.invalidated(profile_id@),
                    workspaces: self@.workspaces,
                    ..before
                }),
                self@.valid(),
                forall|k: TargetView| #[trigger] before.workspaces.contains_key(k) ==> keys.contains(
                    k,
                ),
                forall|k: TargetView| #[trigger]
                    self@.workspaces.contains_key(k) <==> before.workspaces.contains_key(k),
                forall|a: int|
                    0 <= a < i && before.workspaces.contains_key(#[trigger] keys[a])
                        ==> self@.workspaces[keys[a]] == goal[keys[a]],
                forall|k: TargetView|
                    before.workspaces.contains_key(k) && !(exists|a: int|
                        0 <= a < i && keys[a] == k) ==> #[trigger] self@.workspaces[k]
                        == before.workspaces[k],
            decreases keys.len() - i,
        {
            let ghost earlier = self@.workspaces;
            let ghost k = keys[i as int];
            let ghost twice = exists|a: int| 0 <= a < i && keys[a] == k;
            let mut workspace = Workspace::default();
            self.workspaces.exchange(i, &mut workspace);
            workspace.invalidate_connection_preview(profile_id);
            let ghost put = workspace@;
            self.workspaces.exchange(i, &mut workspace);
            proof {
                assert(self@.workspaces =~= earlier.insert(k, put));
                if twice {
                    let a = choose|a: int| 0 <= a < i && keys[a] == k;
                    assert(earlier[keys[a]] == goal[keys[a]]);
                    lemma_invalidated_twice(before.workspaces[k], profile_id@);
                } else {
                    assert(earlier[k] == before.workspaces[k]);
                }
                assert(put == goal[k]);
                assert forall|a: int|
                    0 <= a < i + 1 && before.workspaces.contains_key(#[trigger] keys[a]) implies self@.workspaces[keys[a]]
                    == goal[keys[a]] by {
                    if keys[a] != k {
                        assert(a < i);
                        assert(earlier[keys[a]] == goal[keys[a]]);
                    }
                }
                assert forall|x: TargetView|
                    before.workspaces.contains_key(x) && !(exists|a: int|
                        0 <= a < i + 1 && keys[a] == x) implies #[trigger] self@.workspaces[x]
                    == before.workspaces[x] by {
                    assert(keys[i as int] == k);
                    assert(x != k);
                    assert(!(exists|a: int| 0 <= a < i && keys[a] == x));
                    assert(earlier[x] == before.workspaces[x]);
                }
            }
            i += 1;
        }
        proof {
            assert forall|k: TargetView| before.workspaces.contains_key(k) implies self@.workspaces[k]
                == goal[k] by {
                assert(keys.contains(k));
                let a = choose|a: int| 0 <= a < keys.len() && keys[a] == k;
                assert(self@.workspaces[keys[a]] == goal[keys[a]]);
            }
            assert(self@.workspaces =~= goal);
        }
    }

    /// The running operations of all workspaces, to be cancelled on exit.
    pub fn running_operations(&self) -> (operations: Vec<u64>)
        ensures
            forall|id: u64| operations@.contains(id) <==> #[trigger] self@.runs(id),
    {
        let mut operations: Vec<u64> = Vec::new();
        if let Some(task) = self.workspace.database_task {
            operations.push(task.operation_id());
            assert(operations@[0] == task.operation_id);
        }
        let ghost keys = self.workspaces.keys();
        let mut i: usize = 0;
        while i < self.workspaces.len()
            invariant
                i <= keys.len(),
                keys == self.workspaces.keys(),
                forall|id: u64| #[trigger] operations@.contains(id) <==> (self@.workspace.owns(id)
                    || exists|a: int|
                    0 <= a < i && #[trigger] self@.hidden_owner(id, keys[a])),
            decreases keys.len() - i,
        {
            let ghost before = operations@;
            let ghost k = keys[i as int];
            let workspace = self.workspaces.value_at(i);
            if let Some(task) = workspace.database_task {
                let found = task.operation_id();
                operations.push(found);
                proof {
                    assert(self@.hidden_owner(found, k));
                    assert forall|id: u64| #[trigger]
                        operations@.contains(id) <==> (self@.workspace.owns(id) || exists|a: int|
                        0 <= a < i + 1 && #[trigger] self@.hidden_owner(id, keys[a])) by {
                        assert(operations@ == before.push(found));
                        assert(operations@[before.len() as int] == found);
                        if before.contains(id) {
                            let j = choose|j: int| 0 <= j < before.len() && before[j] == id;
                            assert(operations@[j] == id);
                        }
                        if operations@.contains(id) && id != found {
                            let j = choose|j: int|
                                0 <= j < operations@.len() && operations@[j] == id;
                            assert(before[j] == id);
                        }
                        if self@.hidden_owner(id, k) {
                            assert(id == found);
                        }
                    }
                }
            } else {
                assert forall|id: u64| !self@.hidden_owner(id, k) by {}
            }
            i += 1;
        }
        proof {
            self.workspaces.lemma_keys();
            assert forall|id: u64| operations@.contains(id) <==> #[trigger] self@.runs(id) by {
                if exists|target: TargetView| self@.hidden_owner(id, target) {
                    let target = choose|target: TargetView| self@.hidden_owner(id, target);
                    assert(keys.contains(target));
                    let a = choose|a: int| 0 <= a < keys.len() && keys[a] == target;
                    assert(self@.hidden_owner(id, keys[a]));
                }
            }
        }
        operations
    }
}

fn poll_workspace(workspace: &mut Workspace, state: SessionState) -> (changed: bool)
    ensures
        final(workspace)@ == old(workspace)@.polled(state),
        changed == old(workspace)@.learns(state),
        old(workspace)@.valid() ==> final(workspace)@.valid(),
{
    if workspace.database_task.is_some() || workspace.session_state == state {
        return false;
    }
    workspace.session_state = state;
    if state == SessionState::Lost {
        workspace.set_status(
            "SQL session lost; reconnect explicitly. Any uncommitted transaction is lost; a recent write outcome may be unknown.".to_owned(),
            true,
        );
    }
    true
}

fn workspace_guards_quit(workspace: &Workspace) -> (guards: bool)
    requires
        workspace@.valid(),
    ensures
        guards == workspace@.guards_quit(),
{
    workspace.database_task.is_some() || workspace.session_state.needs_confirmation()
        || workspace.has_staged_rows()
}

fn comes_from(workspace: &Workspace, profile_id: &str) -> (result: bool)
    ensures
        result == crate::app::workspace::from_profile(workspace@.result.source, profile_id@),
{
    match &workspace.result.source {
        Some(source) => same_text(source.table.profile_id.as_str(), profile_id),
        None => false,
    }
}

proof fn lemma_invalidated_twice(workspace: WorkspaceView, profile_id: Seq<char>)
    ensures
        workspace.invalidated(profile_id).invalidated(profile_id) == workspace.invalidated(profile_id),
{
}

/// Keyboard switching visits one place next, whatever the order in which workspaces are kept.
pub proof fn next_place_is_unique(
    app: AppView,
    forward: bool,
    a: Option<TargetView>,
    b: Option<TargetView>,
)
    requires
        app.is_next(forward, a),
        app.is_next(forward, b),
    ensures
        a == b,
{
    places_are_ordered(a, b, a);
    places_are_ordered(b, a, b);
    assert(app.reachable(a) && app.reachable(b));
}

/// Switching to another target and back shows the same workspace again, with the explorer focused, and
/// keeps the SQL editor.
pub proof fn switching_back_restores_the_workspace(app: AppView, here: TargetView, there: TargetView)
    requires
        app.active_target == Some(here),
        here != there,
    ensures
        ({
            let back = app.switched(there).switched(here);
            back.workspace == (WorkspaceView { focus: Focus::Explorer, ..app.workspace })
                && back.active_target == app.active_target && back.sql == app.sql
        }),
{
}

/// Switching leaves every third workspace as it is.
pub proof fn switching_keeps_other_workspaces(app: AppView, target: TargetView, other: TargetView)
    requires
        other != target,
        app.active_target != Some(other),
        app.workspaces.contains_key(other),
    ensures
        app.switched(target).workspaces.contains_key(other),
        app.switched(target).workspaces[other] == app.workspaces[other],
{
}

/// A response that belongs to a hidden workspace changes nothing that is shown: not the result, the focus,
/// the dialog, the status or the SQL editor.
pub proof fn background_responses_stay_hidden(
    app: AppView,
    target: TargetView,
    response: ResponseView,
    other: TargetView,
)
    requires
        app.hidden_owner(response.operation_id, target),
        other != target,
    ensures
        app.responded_at(target, response).workspace == app.workspace,
        app.responded_at(target, response).sql == app.sql,
        app.responded_at(target, response).active_target == app.active_target,
        app.workspaces.contains_key(other) ==> app.responded_at(target, response).workspaces[other]
            == app.workspaces[other],
{
}

/// Quitting without consent leaves no running operation, no user transaction and no staged row behind.
pub proof fn quitting_without_consent_loses_nothing(
    app: AppView,
    states: Seq<(TargetView, SessionState)>,
)
    requires
        !app.should_quit,
        app.requested(SessionAction::Quit, states).should_quit,
    ensures
        ({
            let seen = app.polled(states).0;
            seen.workspace.rests() && forall|target: TargetView| #[trigger]
                seen.workspaces.contains_key(target) ==> seen.workspaces[target].rests()
        }),
{
    reveal(AppView::requested);
    polling_keeps_the_rest(app, states);
}

/// Observing sessions changes workspaces only: neither the target nor the editor nor the work handed out.
pub proof fn polling_keeps_the_rest(app: AppView, states: Seq<(TargetView, SessionState)>)
    ensures
        app.polled(states).0.should_quit == app.should_quit,
        app.polled(states).0.active_target == app.active_target,
        app.polled(states).0.sql == app.sql,
        app.polled(states).0.effects == app.effects,
        app.polled(states).0.profiles == app.profiles,
    decreases states.len(),
{
    if states.len() > 0 {
        polling_keeps_the_rest(app, states.drop_last());
    }
}

/// A lifecycle action that could end user work waits for consent.
pub proof fn open_transactions_need_consent(
    app: AppView,
    action: SessionAction,
    states: Seq<(TargetView, SessionState)>,
)
    requires
        action == SessionAction::Disconnect || action == SessionAction::Reconnect,
        app.polled(states).0.workspace.session_state.holds_work(),
    ensures
        app.requested(action, states).effects == app.effects,
{
    reveal(AppView::requested);
    polling_keeps_the_rest(app, states);
}

/// Staged rows of a profile keep it from being changed; an unknown save outcome alone does not, and neither
/// does it keep the program from quitting.
pub proof fn only_staged_rows_guard_a_profile(
    workspace: WorkspaceView,
    profile_id: Seq<char>,
    target: Option<TargetView>,
    uncertain: bool,
)
    ensures
        ({
            let other = WorkspaceView {
                edits: TableEditsView { uncertain, ..workspace.edits },
                ..workspace
            };
            other.guards_profile(profile_id, target) == workspace.guards_profile(profile_id, target)
                && other.guards_quit() == workspace.guards_quit()
        }),
        workspace.staged() && target is Some && target->Some_0.0 == profile_id
            ==> workspace.guards_profile(profile_id, target),
        !workspace.staged() ==> !workspace.guards_profile(profile_id, target),
{
    let other = WorkspaceView {
        edits: TableEditsView { uncertain, ..workspace.edits },
        ..workspace
    };
    let rows = workspace.result.rows;
    lemma_selected_agree(
        workspace.edits.loaded(rows).len(),
        |row: int| workspace.edits.deletes(row) || workspace.edits.differs(rows, row),
        |row: int| other.edits.deletes(row) || other.edits.differs(rows, row),
    );
    assert(other.edits.count(rows) == workspace.edits.count(rows));
}

} // verus!
