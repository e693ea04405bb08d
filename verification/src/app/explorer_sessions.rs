//! Explorer connection controls follow the selected tree node, not the shown SQL target.
use vstd::prelude::*;
use vstd::string::*;

use crate::app::explorer::{ExplorerNode, ExplorerNodeView};
use crate::app::sessions::{is_target_before, places_are_ordered, target_before};
use crate::app::workspace::{Overlay, OverlayView, SessionAction, Workspace, WorkspaceView};
use crate::app::{App, AppView, EffectView};
use crate::db::sessions::{SessionState, TargetView};
use crate::db::{Request, RequestView, Task};
use crate::text::{concat, concat3, decimal, decimal_text, same_text};
use crate::value::Value;

verus! {

/// A profile, or one of its databases.
pub type ScopeView = (Seq<char>, Option<Seq<char>>);

/// What an explorer node stands for. Nodes below a database stand for the database.
pub open spec fn node_scope(node: ExplorerNodeView) -> ScopeView {
    match node {
        ExplorerNodeView::Connection(id) => (id, None),
        ExplorerNodeView::Database { profile_id, database } => (profile_id, Some(database)),
        ExplorerNodeView::Schema { profile_id, database, .. } => (profile_id, Some(database)),
        ExplorerNodeView::Table(table) => (table.profile_id, Some(table.database)),
    }
}

/// Whether targets ascend, so that none occurs twice.
pub open spec fn ascending(targets: Seq<TargetView>) -> bool {
    forall|i: int, j: int|
        0 <= i < j < targets.len() ==> target_before(#[trigger] targets[i], #[trigger] targets[j])
}

/// Whether a list holds exactly the members, in ascending order.
pub open spec fn lists_members(targets: Seq<TargetView>, member: spec_fn(TargetView) -> bool) -> bool {
    ascending(targets) && forall|target: TargetView| #[trigger]
        targets.contains(target) <==> member(target)
}

/// The members in ascending order.
pub open spec fn members(member: spec_fn(TargetView) -> bool) -> Seq<TargetView> {
    choose|targets: Seq<TargetView>| lists_members(targets, member)
}

/// Two ascending lists with the same members are the same.
pub proof fn ascending_lists_are_unique(a: Seq<TargetView>, b: Seq<TargetView>)
    requires
        ascending(a),
        ascending(b),
        forall|target: TargetView| #[trigger] a.contains(target) <==> b.contains(target),
    ensures
        a == b,
    decreases a.len(),
{
    if a.len() == 0 {
        if b.len() > 0 {
            assert(b.contains(b[0]));
            assert(a.contains(b[0]));
        }
        assert(a =~= b);
    } else {
        assert(a.contains(a.last()));
        assert(b.contains(a.last()));
        assert(b.contains(b.last()));
        assert(a.contains(b.last()));
        let i = choose|i: int| 0 <= i < b.len() && b[i] == a.last();
        let j = choose|j: int| 0 <= j < a.len() && a[j] == b.last();
        places_are_ordered(Some(a.last()), Some(b.last()), Some(a.last()));
        assert(a.last() == b.last());
        let front = a.drop_last();
        let other = b.drop_last();
        assert forall|target: TargetView| #[trigger] front.contains(target) <==> other.contains(
            target,
        ) by {
            places_are_ordered(Some(a.last()), Some(a.last()), Some(a.last()));
            if front.contains(target) {
                let k = choose|k: int| 0 <= k < front.len() && front[k] == target;
                assert(a[k] == target);
                assert(a.contains(target));
                assert(target_before(a[k], a[a.len() - 1]));
                let m = choose|m: int| 0 <= m < b.len() && b[m] == target;
                assert(other[m] == target);
            }
            if other.contains(target) {
                let k = choose|k: int| 0 <= k < other.len() && other[k] == target;
                assert(b[k] == target);
                assert(b.contains(target));
                assert(a.contains(target));
                assert(target_before(b[k], b[b.len() - 1]));
                let m = choose|m: int| 0 <= m < a.len() && a[m] == target;
                assert(front[m] == target);
            }
        }
        ascending_lists_are_unique(front, other);
        assert(a =~= front.push(a.last()));
        assert(b =~= other.push(b.last()));
    }
}

impl AppView {
    /// What the selected node stands for.
    pub open spec fn selected_scope(self) -> Option<ScopeView> {
        match self.selected_row() {
            Some(row) => Some(node_scope(row.node)),
            None => None,
        }
    }

    /// Whether the selected profile or database is connected, as its explorer mark says.
    pub open spec fn scope_connected(self) -> bool {
        match self.selected_scope() {
            Some((profile_id, database)) => self.connected(profile_id, database),
            None => false,
        }
    }

    /// Whether a workspace of a scope exists under a target.
    pub open spec fn in_scope(self, scope: ScopeView, target: TargetView) -> bool {
        target.0 == scope.0 && (scope.1 is None || scope.1 == Some(target.1)) && (
        self.active_target == Some(target) || self.workspaces.contains_key(target))
    }

    /// The targets of the selected node, and how the selection reads.
    pub open spec fn disconnect_choice(self) -> Result<(Seq<TargetView>, Seq<char>), Seq<char>> {
        match self.selected_scope() {
            None => Err("Select a connection or database first"@),
            Some(scope) => match self.profile(scope.0) {
                None => Err("The connection no longer exists"@),
                Some(profile) => Ok(
                    (
                        members(|target: TargetView| self.in_scope(scope, target)),
                        match scope.1 {
                            None => profile.name + " (all databases)"@,
                            Some(database) => profile.name + "/"@ + database,
                        },
                    ),
                ),
            },
        }
    }

    /// Whether an operation of a target runs.
    pub open spec fn target_busy(self, target: TargetView) -> bool {
        self.workspace_of(target) is Some && self.workspace_of(target)->Some_0.database_task is Some
    }

    /// Whether a target has anything to close.
    pub open spec fn target_open(self, target: TargetView) -> bool {
        self.workspace_of(target) is Some && (self.workspace_of(target)->Some_0.session_state
            != SessionState::Disconnected || self.workspace_of(target)->Some_0.result.page is Some)
    }

    /// Whether closing a target could end user work.
    pub open spec fn target_holds_work(self, target: TargetView) -> bool {
        self.workspace_of(target) is Some && self.workspace_of(
            target,
        )->Some_0.session_state.holds_work()
    }

    /// The targets that have anything to close, in their order.
    pub open spec fn open_targets(self, targets: Seq<TargetView>) -> Seq<TargetView>
        decreases targets.len(),
    {
        if targets.len() == 0 {
            Seq::empty()
        } else if self.target_open(targets.last()) {
            self.open_targets(targets.drop_last()).push(targets.last())
        } else {
            self.open_targets(targets.drop_last())
        }
    }

    /// Starts to close one target.
    pub open spec fn closing(self, target: TargetView) -> AppView {
        let (next, task) = self.started(
            RequestView::Disconnect {
                profile: self.profile(target.0)->Some_0,
                database: target.1,
            },
        );
        next.with_workspace_of(
            target,
            WorkspaceView {
                busy: Some("Disconnecting SQL session"@),
                fetching_page: false,
                database_task: Some(task),
                ..next.workspace_of(target)->Some_0
            }.with_status("Disconnecting SQL session"@, false),
        )
    }

    /// Starts to close targets, in order.
    pub open spec fn closing_all(self, targets: Seq<TargetView>) -> AppView
        decreases targets.len(),
    {
        if targets.len() == 0 {
            self
        } else {
            self.closing_all(targets.drop_last()).closing(targets.last())
        }
    }

    /// Closes targets. The whole selection is checked before anything closes.
    pub open spec fn closed(
        self,
        confirmed: bool,
        targets: Seq<TargetView>,
        label: Seq<char>,
    ) -> AppView {
        let open = self.open_targets(targets);
        if exists|i: int| 0 <= i < targets.len() && self.target_busy(#[trigger] targets[i]) {
            self.with_status(
                "Cancel or wait for all operations on the selected connection before disconnecting"@,
                true,
            )
        } else if open.len() == 0 {
            self.with_status("The selected connection is already disconnected"@, false)
        } else if !confirmed && exists|i: int|
            0 <= i < open.len() && self.target_holds_work(#[trigger] open[i]) {
            self.with_overlay(OverlayView::ConfirmExplorerDisconnect { targets: open, label })
        } else if exists|i: int|
            0 <= i < open.len() && self.profile((#[trigger] open[i]).0) is None {
            self.with_status("The connection no longer exists"@, true)
        } else {
            self.with_status(
                "Disconnect requested for "@ + decimal(open.len()) + " database session(s)"@,
                false,
            ).closing_all(open)
        }
    }

    /// Closes the selected profile or database, or targets that were confirmed earlier.
    #[verifier::opaque]
    pub open spec fn disconnected(
        self,
        confirmed: bool,
        targets: Option<Seq<TargetView>>,
        states: Seq<(TargetView, SessionState)>,
    ) -> AppView {
        let next = self.polled(states).0;
        match targets {
            Some(targets) => next.closed(confirmed, targets, Seq::empty()),
            None => match next.disconnect_choice() {
                Ok((targets, label)) => next.closed(confirmed, targets, label),
                Err(problem) => next.with_status(problem, true),
            },
        }
    }

    /// Connects the selected profile or database, or disconnects it where it is connected.
    #[verifier::opaque]
    pub open spec fn toggled(self, states: Seq<(TargetView, SessionState)>) -> AppView {
        let next = self.polled(states).0;
        if next.scope_connected() {
            next.disconnected(false, None, states)
        } else {
            match next.selected_scope() {
                None => next.with_status("Select a connection or database first"@, true),
                Some((profile_id, database)) => match next.profile(profile_id) {
                    None => next.with_status("The connection no longer exists"@, true),
                    Some(profile) => next.switched(
                        (
                            profile_id,
                            match database {
                                Some(database) => database,
                                None => profile.database,
                            },
                        ),
                    ).requested(SessionAction::Connect, states),
                },
            }
        }
    }
}

/// Puts a target into an ascending list, unless it is there.
fn insert_target(targets: &mut Vec<(String, String)>, target: (String, String))
    requires
        ascending(old(targets).deep_view()),
    ensures
        ascending(final(targets).deep_view()),
        forall|other: TargetView| #[trigger]
            final(targets).deep_view().contains(other) <==> old(targets).deep_view().contains(other)
                || other == target.deep_view(),
{
    let ghost before = targets.deep_view();
    let ghost t = target.deep_view();
    let mut at: usize = 0;
    while at < targets.len() && is_target_before(&targets[at], &target)
        invariant
            at <= targets@.len(),
            before == targets.deep_view(),
            t == target.deep_view(),
            forall|k: int| 0 <= k < at ==> target_before(#[trigger] before[k], t),
        decreases targets@.len() - at,
    {
        assert(before[at as int] == targets@[at as int].deep_view());
        at += 1;
    }
    if at < targets.len() {
        assert(before[at as int] == targets@[at as int].deep_view());
        if targets[at].same(&target) {
            assert(before.contains(t)) by {
                assert(before[at as int] == t);
            }
            return;
        }
    }
    targets.insert(at, target);
    proof {
        let after = targets.deep_view();
        assert(after =~= before.insert(at as int, t));
        assert forall|i: int, j: int| 0 <= i < j < after.len() implies target_before(
            #[trigger] after[i],
            #[trigger] after[j],
        ) by {
            if j == at {
                assert(after[i] == before[i]);
            } else if i == at {
                let y = j - 1;
                assert(after[j] == before[y]);
                places_are_ordered(Some(t), Some(before[at as int]), Some(before[y]));
                assert(target_before(t, before[at as int]));
            } else {
                let x = if i < at { i } else { i - 1 };
                let y = if j < at { j } else { j - 1 };
                assert(after[i] == before[x] && after[j] == before[y]);
            }
        }
        assert forall|other: TargetView| #[trigger]
            after.contains(other) <==> before.contains(other) || other == t by {
            assert(after[at as int] == t);
            if before.contains(other) {
                let k = choose|k: int| 0 <= k < before.len() && before[k] == other;
                assert(after[if k < at { k } else { k + 1 }] == other);
            }
            if after.contains(other) && other != t {
                let k = choose|k: int| 0 <= k < after.len() && after[k] == other;
                assert(before[if k < at { k } else { k - 1 }] == other);
            }
        }
    }
}

impl App {
    /// The workspace of a target, shown or hidden.
    pub fn target_workspace(&self, target: &(String, String)) -> (workspace: Option<&Workspace>)
        ensures
            match workspace {
                Some(workspace) => self@.workspace_of(target.deep_view()) == Some(workspace@),
                None => self@.workspace_of(target.deep_view()) is None,
            },
    {
        let shown = match &self.active_target {
            Some(active) => active.same(target),
            None => false,
        };
        if shown {
            Some(&self.workspace)
        } else {
            self.workspaces.get(target)
        }
    }

    /// What the selected node stands for.
    pub fn selected_connection_scope(&self) -> (scope: Option<(String, Option<String>)>)
        ensures
            scope.deep_view() == self@.selected_scope(),
    {
        match self.selected_explorer_row() {
            None => None,
            Some(row) => Some(
                match row.node {
                    ExplorerNode::Connection(id) => (id, None),
                    ExplorerNode::Database { profile_id, database } => (profile_id, Some(database)),
                    ExplorerNode::Schema { profile_id, database, schema: _ } => (
                        profile_id,
                        Some(database),
                    ),
                    ExplorerNode::Table(table) => (table.profile_id, Some(table.database)),
                },
            ),
        }
    }

    /// Whether the selected profile or database is connected.
    pub fn selected_connection_is_connected(&self) -> (connected: bool)
        ensures
            connected == self@.scope_connected(),
    {
        match self.selected_connection_scope() {
            None => false,
            Some((profile_id, database)) => {
                let node = match database {
                    None => ExplorerNode::Connection(profile_id),
                    Some(database) => ExplorerNode::Database { profile_id, database },
                };
                self.explorer_connected(&node)
            },
        }
    }

    fn targets_in_scope(&self, profile_id: &str, database: &Option<String>) -> (targets: Vec<
        (String, String),
    >)
        ensures
            lists_members(
                targets.deep_view(),
                |target: TargetView| self@.in_scope((profile_id@, database.deep_view()), target),
            ),
    {
        let ghost scope = (profile_id@, database.deep_view());
        let mut targets: Vec<(String, String)> = Vec::new();
        let ghost keys = self.workspaces.keys();
        let mut i: usize = 0;
        while i < self.workspaces.len()
            invariant
                i <= keys.len(),
                keys == self.workspaces.keys(),
                scope == (profile_id@, database.deep_view()),
                ascending(targets.deep_view()),
                forall|target: TargetView| #[trigger]
                    targets.deep_view().contains(target) ==> self@.in_scope(scope, target),
                forall|a: int|
                    0 <= a < i && self@.in_scope(scope, #[trigger] keys[a])
                        ==> targets.deep_view().contains(keys[a]),
            decreases keys.len() - i,
        {
            let key = self.workspaces.key_at(i);
            if same_text(key.0.as_str(), profile_id) && (match database {
                Some(database) => same_text(key.1.as_str(), database.as_str()),
                None => true,
            }) {
                assert(self@.in_scope(scope, key.deep_view()));
                insert_target(&mut targets, key.duplicate());
            }
            i += 1;
        }
        if let Some(target) = &self.active_target {
            if same_text(target.0.as_str(), profile_id) && (match database {
                Some(database) => same_text(target.1.as_str(), database.as_str()),
                None => true,
            }) {
                insert_target(&mut targets, target.duplicate());
            }
        }
        proof {
            self.workspaces.lemma_keys();
            assert forall|target: TargetView| self@.in_scope(scope, target) implies #[trigger]
                targets.deep_view().contains(target) by {
                if self@.workspaces.contains_key(target) {
                    assert(keys.contains(target));
                    let a = choose|a: int| 0 <= a < keys.len() && keys[a] == target;
                    assert(self@.in_scope(scope, keys[a]));
                }
            }
        }
        targets
    }

    /// The targets of the selected node, and how the selection reads. A profile row owns every database
    /// beneath it.
    pub fn selected_disconnect_targets(&self) -> (result: Result<
        (Vec<(String, String)>, String),
        String,
    >)
        ensures
            match result {
                Ok((targets, label)) => self@.disconnect_choice() == Ok::<
                    (Seq<TargetView>, Seq<char>),
                    Seq<char>,
                >((targets.deep_view(), label@)),
                Err(problem) => self@.disconnect_choice() == Err::<
                    (Seq<TargetView>, Seq<char>),
                    Seq<char>,
                >(problem@),
            },
    {
        let (profile_id, database) = match self.selected_connection_scope() {
            Some(scope) => scope,
            None => {
                return Err("Select a connection or database first".to_owned());
            },
        };
        let name = match self.profile(profile_id.as_str()) {
            Some(profile) => profile.name.clone(),
            None => {
                return Err("The connection no longer exists".to_owned());
            },
        };
        let label = match &database {
            None => concat(name.as_str(), " (all databases)"),
            Some(database) => concat3(name.as_str(), "/", database.as_str()),
        };
        let targets = self.targets_in_scope(profile_id.as_str(), &database);
        proof {
            let scope = (profile_id@, database.deep_view());
            let member = |target: TargetView| self@.in_scope(scope, target);
            assert(lists_members(targets.deep_view(), member));
            ascending_lists_are_unique(members(member), targets.deep_view());
        }
        Ok((targets, label))
    }

    fn any_busy(&self, targets: &Vec<(String, String)>) -> (busy: bool)
        ensures
            busy == exists|i: int|
                0 <= i < targets@.len() && self@.target_busy(#[trigger] targets.deep_view()[i]),
    {
        let mut i: usize = 0;
        while i < targets.len()
            invariant
                i <= targets@.len(),
                forall|k: int| 0 <= k < i ==> !self@.target_busy(#[trigger] targets.deep_view()[k]),
            decreases targets@.len() - i,
        {
            let busy = match self.target_workspace(&targets[i]) {
                Some(workspace) => workspace.database_task.is_some(),
                None => false,
            };
            assert(busy == self@.target_busy(targets.deep_view()[i as int]));
            if busy {
                return true;
            }
            i += 1;
        }
        false
    }

    fn keep_open(&self, targets: &Vec<(String, String)>) -> (open: Vec<(String, String)>)
        ensures
            open.deep_view() == self@.open_targets(targets.deep_view()),
    {
        let ghost all = targets.deep_view();
        let mut open: Vec<(String, String)> = Vec::new();
        let mut i: usize = 0;
        assert(open.deep_view() =~= self@.open_targets(all.take(0)));
        while i < targets.len()
            invariant
                i <= targets@.len(),
                all == targets.deep_view(),
                open.deep_view() == self@.open_targets(all.take(i as int)),
            decreases targets@.len() - i,
        {
            proof {
                let next = all.take(i + 1);
                assert(next.drop_last() =~= all.take(i as int));
                assert(next.last() == targets@[i as int].deep_view());
            }
            let ghost before = open.deep_view();
            let keep = match self.target_workspace(&targets[i]) {
                Some(workspace) => workspace.session_state != SessionState::Disconnected
                    || workspace.result.page.is_some(),
                None => false,
            };
            if keep {
                open.push(targets[i].duplicate());
                assert(open.deep_view() =~= before.push(all[i as int]));
            }
            i += 1;
        }
        assert(all.take(i as int) =~= all);
        open
    }

    fn any_holds_work(&self, targets: &Vec<(String, String)>) -> (result: bool)
        ensures
            result == exists|i: int|
                0 <= i < targets@.len() && self@.target_holds_work(
                    #[trigger] targets.deep_view()[i],
                ),
    {
        let mut i: usize = 0;
        while i < targets.len()
            invariant
                i <= targets@.len(),
                forall|k: int|
                    0 <= k < i ==> !self@.target_holds_work(#[trigger] targets.deep_view()[k]),
            decreases targets@.len() - i,
        {
            let holds = match self.target_workspace(&targets[i]) {
                Some(workspace) => workspace.session_state.needs_confirmation(),
                None => false,
            };
            assert(holds == self@.target_holds_work(targets.deep_view()[i as int]));
            if holds {
                return true;
            }
            i += 1;
        }
        false
    }

    fn any_orphaned(&self, targets: &Vec<(String, String)>) -> (result: bool)
        ensures
            result == exists|i: int|
                0 <= i < targets@.len() && self@.profile(
                    (#[trigger] targets.deep_view()[i]).0,
                ) is None,
    {
        let mut i: usize = 0;
        while i < targets.len()
            invariant
                i <= targets@.len(),
                forall|k: int|
                    0 <= k < i ==> self@.profile(
                        (#[trigger] targets.deep_view()[k]).0,
                    ) is Some,
            decreases targets@.len() - i,
        {
            let orphaned = self.profile(targets[i].0.as_str()).is_none();
            assert(orphaned == self@.profile(targets.deep_view()[i as int].0) is None);
            if orphaned {
                return true;
            }
            i += 1;
        }
        false
    }

    fn close_target(&mut self, target: &(String, String))
        requires
            old(self)@.valid(),
            old(self)@.workspace_of(target.deep_view()) is Some,
            old(self)@.profile(target.deep_view().0) is Some,
        ensures
            final(self)@.valid(),
            final(self)@ == old(self)@.closing(target.deep_view()),
    {
        let ghost key = target.deep_view();
        let profile = match self.profile(target.0.as_str()) {
            Some(profile) => profile.duplicate(),
            None => {
                return;
            },
        };
        let task = self.start_database_task(
            Request::Disconnect { profile, database: target.1.clone() },
        );
        let ghost started = self@;
        let shown = match &self.active_target {
            Some(active) => active.same(target),
            None => false,
        };
        if shown {
            mark_closing(&mut self.workspace, task);
        } else {
            match self.workspaces.remove(target) {
                Some(workspace) => {
                    let mut workspace = workspace;
                    mark_closing(&mut workspace, task);
                    let ghost marked = workspace@;
                    self.workspaces.insert(target.duplicate(), workspace);
                    assert(self@.workspaces =~= started.workspaces.insert(key, marked));
                },
                None => {},
            }
        }
    }

    fn close_targets(&mut self, targets: &Vec<(String, String)>)
        requires
            old(self)@.valid(),
            forall|i: int|
                0 <= i < targets@.len() ==> old(self)@.workspace_of(
                    #[trigger] targets.deep_view()[i],
                ) is Some && old(self)@.profile(targets.deep_view()[i].0) is Some,
        ensures
            final(self)@.valid(),
            final(self)@ == old(self)@.closing_all(targets.deep_view()),
    {
        let ghost before = self@;
        let ghost all = targets.deep_view();
        let mut i: usize = 0;
        assert(all.take(0) =~= Seq::empty());
        while i < targets.len()
            invariant
                i <= targets@.len(),
                all == targets.deep_view(),
                self@.valid(),
                self@ == before.closing_all(all.take(i as int)),
                self@.profiles == before.profiles,
                forall|target: TargetView|
                    before.workspace_of(target) is Some ==> #[trigger] self@.workspace_of(
                        target,
                    ) is Some,
                forall|k: int|
                    0 <= k < targets@.len() ==> before.workspace_of(#[trigger] all[k]) is Some
                        && before.profile(all[k].0) is Some,
            decreases targets@.len() - i,
        {
            proof {
                let next = all.take(i + 1);
                assert(next.drop_last() =~= all.take(i as int));
                assert(next.last() == targets@[i as int].deep_view());
                assert(self@.workspace_of(all[i as int]) is Some);
            }
            let ghost earlier = self@;
            self.close_target(&targets[i]);
            proof {
                assert forall|target: TargetView|
                    before.workspace_of(target) is Some implies #[trigger] self@.workspace_of(
                    target,
                ) is Some by {
                    assert(earlier.workspace_of(target) is Some);
                }
            }
            i += 1;
        }
        assert(all.take(i as int) =~= all);
    }

    fn close(&mut self, confirmed: bool, targets: Vec<(String, String)>, label: String)
        requires
            old(self)@.valid(),
        ensures
            final(self)@.valid(),
            final(self)@ == old(self)@.closed(confirmed, targets.deep_view(), label@),
    {
        assert(targets.deep_view().len() == targets@.len());
        if self.any_busy(&targets) {
            self.report(
                "Cancel or wait for all operations on the selected connection before disconnecting",
                true,
            );
            return;
        }
        let open = self.keep_open(&targets);
        assert(open.deep_view().len() == open@.len());
        if open.len() == 0 {
            self.report("The selected connection is already disconnected", false);
            return;
        }
        if !confirmed && self.any_holds_work(&open) {
            self.open_overlay(Overlay::ConfirmExplorerDisconnect { targets: open, label });
            return;
        }
        if self.any_orphaned(&open) {
            self.report("The connection no longer exists", true);
            return;
        }
        proof {
            lemma_open_targets_exist(self@, targets.deep_view());
        }
        let status = concat3(
            "Disconnect requested for ",
            decimal_text(open.len() as u64).as_str(),
            " database session(s)",
        );
        let ghost before = self@;
        self.set_status(status, false);
        proof {
            assert forall|i: int| 0 <= i < open@.len() implies self@.workspace_of(
                #[trigger] open.deep_view()[i],
            ) is Some && self@.profile(open.deep_view()[i].0) is Some by {
                assert(before.target_open(open.deep_view()[i]));
            }
        }
        self.close_targets(&open);
    }

    /// Closes the selected profile or database, or targets that were confirmed earlier.
    pub fn disconnect_selected(
        &mut self,
        confirmed: bool,
        targets: Option<Vec<(String, String)>>,
        states: &Vec<((String, String), SessionState)>,
    )
        requires
            old(self)@.valid(),
        ensures
            final(self)@.valid(),
            final(self)@ == old(self)@.disconnected(
                confirmed,
                targets.deep_view(),
                states.deep_view(),
            ),
    {
        proof {
            reveal(AppView::disconnected);
        }
        let _ = self.poll_sessions(states);
        match targets {
            Some(targets) => {
                let label = String::new();
                assert(label@ =~= Seq::empty());
                self.close(confirmed, targets, label);
            },
            None => match self.selected_disconnect_targets() {
                Ok((targets, label)) => self.close(confirmed, targets, label),
                Err(problem) => self.set_status(problem, true),
            },
        }
    }

    /// Connects the selected profile or database, or disconnects it where it is connected. Connecting also
    /// recovers lost sessions, and shows their workspace.
    pub fn toggle_selected_connection(&mut self, states: &Vec<((String, String), SessionState)>)
        requires
            old(self)@.valid(),
        ensures
            final(self)@.valid(),
            final(self)@ == old(self)@.toggled(states.deep_view()),
    {
        proof {
            reveal(AppView::toggled);
        }
        let _ = self.poll_sessions(states);
        if self.selected_connection_is_connected() {
            self.disconnect_selected(false, None, states);
            return;
        }
        let (profile_id, database) = match self.selected_connection_scope() {
            Some(scope) => scope,
            None => {
                self.report("Select a connection or database first", true);
                return;
            },
        };
        let default = match self.profile(profile_id.as_str()) {
            Some(profile) => profile.database.clone(),
            None => {
                self.report("The connection no longer exists", true);
                return;
            },
        };
        let database = match database {
            Some(database) => database,
            None => default,
        };
        self.switch_workspace((profile_id, database));
        self.request_session_action(SessionAction::Connect, states);
    }
}

fn mark_closing(workspace: &mut Workspace, task: Task)
    ensures
        final(workspace)@ == (WorkspaceView {
            busy: Some("Disconnecting SQL session"@),
            fetching_page: false,
            database_task: Some(task),
            ..old(workspace)@
        }).with_status("Disconnecting SQL session"@, false),
        old(workspace)@.valid() ==> final(workspace)@.valid(),
{
    workspace.busy = Some("Disconnecting SQL session".to_owned());
    workspace.fetching_page = false;
    workspace.database_task = Some(task);
    workspace.set_status("Disconnecting SQL session".to_owned(), false);
}

proof fn lemma_open_targets_exist(app: AppView, targets: Seq<TargetView>)
    ensures
        forall|i: int|
            0 <= i < app.open_targets(targets).len() ==> app.target_open(
                #[trigger] app.open_targets(targets)[i],
            ),
    decreases targets.len(),
{
    if targets.len() > 0 {
        let front = app.open_targets(targets.drop_last());
        lemma_open_targets_exist(app, targets.drop_last());
        assert forall|i: int| 0 <= i < app.open_targets(targets).len() implies app.target_open(
            #[trigger] app.open_targets(targets)[i],
        ) by {
            if i < front.len() {
                assert(app.target_open(front[i]));
            }
        }
    }
}

/// A busy database blocks its whole group: nothing is closed, not even in part.
pub proof fn busy_groups_are_not_closed(
    app: AppView,
    confirmed: bool,
    targets: Seq<TargetView>,
    label: Seq<char>,
    index: int,
)
    requires
        0 <= index < targets.len(),
        app.target_busy(targets[index]),
    ensures
        app.closed(confirmed, targets, label).effects == app.effects,
        app.closed(confirmed, targets, label).workspaces == app.workspaces,
{
}

/// Without consent, no group with an open transaction is closed, not even in part.
pub proof fn closing_a_group_asks_first(
    app: AppView,
    targets: Seq<TargetView>,
    label: Seq<char>,
    index: int,
)
    requires
        0 <= index < app.open_targets(targets).len(),
        app.target_holds_work(app.open_targets(targets)[index]),
    ensures
        app.closed(false, targets, label).effects == app.effects,
        app.closed(false, targets, label).workspaces == app.workspaces,
{
}

/// Closing a group keeps the shown target and the SQL editor.
pub proof fn closing_keeps_the_shown_target(app: AppView, targets: Seq<TargetView>)
    ensures
        app.closing_all(targets).active_target == app.active_target,
        app.closing_all(targets).sql == app.sql,
        app.closing_all(targets).profiles == app.profiles,
    decreases targets.len(),
{
    if targets.len() > 0 {
        closing_keeps_the_shown_target(app, targets.drop_last());
    }
}

proof fn lemma_closing_hands_out(app: AppView, targets: Seq<TargetView>, index: int)
    requires
        0 <= index < targets.len(),
    ensures
        app.closing_all(targets).effects.len() == app.effects.len() + targets.len(),
        app.closing_all(targets).effects[app.effects.len() + index] matches EffectView::Spawn {
            request,
            ..
        } && request == (RequestView::Disconnect {
            profile: app.profile(targets[index].0)->Some_0,
            database: targets[index].1,
        }),
    decreases targets.len(),
{
    let front = targets.drop_last();
    closing_keeps_the_shown_target(app, front);
    if front.len() > 0 {
        lemma_closing_hands_out(
            app,
            front,
            if index < front.len() {
                index
            } else {
                0
            },
        );
    }
    if index < front.len() {
        assert(front[index] == targets[index]);
    }
}

proof fn lemma_open_targets(app: AppView, targets: Seq<TargetView>, target: TargetView)
    requires
        targets.contains(target),
        app.target_open(target),
    ensures
        app.open_targets(targets).contains(target),
    decreases targets.len(),
{
    if targets.last() == target {
        let open = app.open_targets(targets);
        assert(open[open.len() - 1] == target);
    } else {
        let k = choose|k: int| 0 <= k < targets.len() && targets[k] == target;
        assert(targets.drop_last()[k] == target);
        lemma_open_targets(app, targets.drop_last(), target);
        let front = app.open_targets(targets.drop_last());
        let m = choose|m: int| 0 <= m < front.len() && front[m] == target;
        assert(app.open_targets(targets)[m] == target);
    }
}

/// Closing a group with consent asks the server to close every session of it that is open.
pub proof fn closing_reaches_every_session(
    app: AppView,
    targets: Seq<TargetView>,
    label: Seq<char>,
    target: TargetView,
)
    requires
        targets.contains(target),
        app.target_open(target),
        forall|i: int| 0 <= i < targets.len() ==> !app.target_busy(#[trigger] targets[i]),
        forall|i: int|
            0 <= i < app.open_targets(targets).len() ==> app.profile(
                (#[trigger] app.open_targets(targets)[i]).0,
            ) is Some,
    ensures
        exists|k: int|
            0 <= k < app.closed(true, targets, label).effects.len() && (#[trigger] app.closed(
                true,
                targets,
                label,
            ).effects[k] matches EffectView::Spawn { request, .. } && request
                == (RequestView::Disconnect {
                profile: app.profile(target.0)->Some_0,
                database: target.1,
            })),
{
    let open = app.open_targets(targets);
    lemma_open_targets(app, targets, target);
    let m = choose|m: int| 0 <= m < open.len() && open[m] == target;
    let told = app.with_status(
        "Disconnect requested for "@ + decimal(open.len()) + " database session(s)"@,
        false,
    );
    lemma_closing_hands_out(told, open, m);
    assert(app.closed(true, targets, label) == told.closing_all(open));
    let k = app.effects.len() + m;
    assert(app.closed(true, targets, label).effects[k as int] is Spawn);
}

} // verus!
