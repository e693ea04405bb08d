//! The explorer tree: its visible rows and what can be done with them.
use vstd::prelude::*;
use vstd::string::*;

use crate::app::input::expansion_key;
use crate::app::{App, AppView, NodeKey, NodeKeyView};
use crate::db::{TableRef, TableRefView};
use crate::db::sessions::TargetView;
use crate::selection::concatenated;
use crate::storage::{ConnectionProfile, ConnectionProfileView, Settings};
use crate::text::{concat3, same_text};
use crate::value::Value;

verus! {

/// Explorer actions use typed nodes instead of parsing shown labels.
#[derive(Debug, PartialEq, Eq)]
pub enum ExplorerNode {
    Connection(String),
    Database {
        profile_id: String,
        database: String,
    },
    Schema {
        profile_id: String,
        database: String,
        schema: String,
    },
    Table(TableRef),
}

/// What a `ExplorerNode` denotes.
pub ghost enum ExplorerNodeView {
    Connection(Seq<char>),
    Database {
        profile_id: Seq<char>,
        database: Seq<char>,
    },
    Schema {
        profile_id: Seq<char>,
        database: Seq<char>,
        schema: Seq<char>,
    },
    Table(TableRefView),
}

impl DeepView for ExplorerNode {
    type V = ExplorerNodeView;

    open spec fn deep_view(&self) -> ExplorerNodeView {
        match self {
            ExplorerNode::Connection(value) => ExplorerNodeView::Connection(value@),
            ExplorerNode::Database { profile_id, database } => ExplorerNodeView::Database {
                profile_id: profile_id@,
                database: database@,
            },
            ExplorerNode::Schema { profile_id, database, schema } => ExplorerNodeView::Schema {
                profile_id: profile_id@,
                database: database@,
                schema: schema@,
            },
            ExplorerNode::Table(value) => ExplorerNodeView::Table(value.deep_view()),
        }
    }
}

impl Clone for ExplorerNode {
    fn clone(&self) -> (copy: ExplorerNode)
        ensures
            copy@ == self@,
    {
        self.duplicate()
    }
}

impl View for ExplorerNode {
    type V = ExplorerNodeView;

    open spec fn view(&self) -> ExplorerNodeView {
        self.deep_view()
    }
}

impl Value for ExplorerNode {
    fn duplicate(&self) -> (copy: ExplorerNode) {
        match self {
            ExplorerNode::Connection(value) => ExplorerNode::Connection(value.duplicate()),
            ExplorerNode::Database { profile_id, database } => ExplorerNode::Database {
                profile_id: profile_id.duplicate(),
                database: database.duplicate(),
            },
            ExplorerNode::Schema { profile_id, database, schema } => ExplorerNode::Schema {
                profile_id: profile_id.duplicate(),
                database: database.duplicate(),
                schema: schema.duplicate(),
            },
            ExplorerNode::Table(value) => ExplorerNode::Table(value.duplicate()),
        }
    }

    fn same(&self, other: &ExplorerNode) -> (same: bool) {
        match (self, other) {
            (ExplorerNode::Connection(value_a), ExplorerNode::Connection(value_b)) => {
                value_a.same(value_b)
            },
            (
                ExplorerNode::Database { profile_id: profile_id_a, database: database_a },
                ExplorerNode::Database { profile_id: profile_id_b, database: database_b },
            ) => {
                profile_id_a.same(profile_id_b) && database_a.same(database_b)
            },
            (
                ExplorerNode::Schema {
                    profile_id: profile_id_a,
                    database: database_a,
                    schema: schema_a,
                },
                ExplorerNode::Schema {
                    profile_id: profile_id_b,
                    database: database_b,
                    schema: schema_b,
                },
            ) => {
                profile_id_a.same(profile_id_b)
                    && database_a.same(database_b)
                    && schema_a.same(schema_b)
            },
            (ExplorerNode::Table(value_a), ExplorerNode::Table(value_b)) => value_a.same(value_b),
            _ => false,
        }
    }
}

/// A flattened explorer row retains the context that its action needs.
#[derive(Debug, PartialEq, Eq)]
pub struct ExplorerRow {
    pub depth: usize,
    pub label: String,
    pub node: ExplorerNode,
}

/// What a `ExplorerRow` denotes.
pub ghost struct ExplorerRowView {
    pub depth: usize,
    pub label: Seq<char>,
    pub node: ExplorerNodeView,
}

impl DeepView for ExplorerRow {
    type V = ExplorerRowView;

    open spec fn deep_view(&self) -> ExplorerRowView {
        ExplorerRowView {
            depth: self.depth,
            label: self.label@,
            node: self.node.deep_view(),
        }
    }
}

impl Clone for ExplorerRow {
    fn clone(&self) -> (copy: ExplorerRow)
        ensures
            copy@ == self@,
    {
        self.duplicate()
    }
}

impl View for ExplorerRow {
    type V = ExplorerRowView;

    open spec fn view(&self) -> ExplorerRowView {
        self.deep_view()
    }
}

impl Value for ExplorerRow {
    fn duplicate(&self) -> (copy: ExplorerRow) {
        ExplorerRow {
            depth: self.depth,
            label: self.label.duplicate(),
            node: self.node.duplicate(),
        }
    }

    fn same(&self, other: &ExplorerRow) -> (same: bool) {
        self.depth == other.depth
            && self.label.same(&other.label)
            && self.node.same(&other.node)
    }
}

/// The row of a table.
pub open spec fn table_row(table: TableRefView) -> ExplorerRowView {
    ExplorerRowView {
        depth: 3,
        label: table.name + "  ["@ + table.kind + "]"@,
        node: ExplorerNodeView::Table(table),
    }
}

/// The row of a profile.
pub open spec fn profile_row(profile: ConnectionProfileView) -> ExplorerRowView {
    ExplorerRowView {
        depth: 0,
        label: profile.name,
        node: ExplorerNodeView::Connection(profile.id),
    }
}

/// What the explorer shows: the profiles, what is known of them, and what is expanded.
pub ghost struct TreeView {
    pub settings: Settings,
    pub profiles: Seq<ConnectionProfileView>,
    pub expanded: Set<NodeKeyView>,
    pub databases: Map<Seq<char>, Seq<Seq<char>>>,
    pub schemas: Map<TargetView, Seq<Seq<char>>>,
    pub tables: Map<(Seq<char>, Seq<char>, Seq<char>), Seq<TableRefView>>,
}

impl TreeView {
    /// A schema's row, and those of its tables while it is expanded.
    pub open spec fn schema_rows(
        self,
        profile_id: Seq<char>,
        database: Seq<char>,
        schema: Seq<char>,
    ) -> Seq<ExplorerRowView> {
        let key = (profile_id, database, schema);
        let row = ExplorerRowView {
            depth: 2,
            label: schema,
            node: ExplorerNodeView::Schema { profile_id, database, schema },
        };
        if !self.settings.shows(schema) {
            Seq::empty()
        } else if self.expanded.contains(NodeKeyView::Schema(profile_id, database, schema))
            && self.tables.contains_key(key) {
            seq![row] + self.tables[key].map_values(|table: TableRefView| table_row(table))
        } else {
            seq![row]
        }
    }

    /// The rows of the schemas of a database.
    pub open spec fn schemas_below(self, profile_id: Seq<char>, database: Seq<char>) -> Seq<
        ExplorerRowView,
    > {
        let schemas = self.schemas[(profile_id, database)];
        concatenated(
            schemas.len(),
            |i: int| self.schema_rows(profile_id, database, schemas[i]),
        )
    }

    /// A database's row, and those of its schemas while it is expanded.
    pub open spec fn database_rows(
        self,
        profile: ConnectionProfileView,
        database: Seq<char>,
    ) -> Seq<ExplorerRowView> {
        let key = (profile.id, database);
        let row = ExplorerRowView {
            depth: 1,
            label: database,
            node: ExplorerNodeView::Database { profile_id: profile.id, database },
        };
        if !self.settings.show_all_databases && database != profile.database {
            Seq::empty()
        } else if self.expanded.contains(NodeKeyView::Database(profile.id, database))
            && self.schemas.contains_key(key) {
            seq![row] + self.schemas_below(profile.id, database)
        } else {
            seq![row]
        }
    }

    /// The rows of the databases of a profile.
    pub open spec fn databases_below(self, profile: ConnectionProfileView) -> Seq<ExplorerRowView> {
        let databases = self.databases[profile.id];
        concatenated(databases.len(), |i: int| self.database_rows(profile, databases[i]))
    }

    /// A profile's row, and those of its databases while it is expanded.
    pub open spec fn profile_rows(self, profile: ConnectionProfileView) -> Seq<ExplorerRowView> {
        let row = profile_row(profile);
        if self.expanded.contains(NodeKeyView::Connection(profile.id))
            && self.databases.contains_key(profile.id) {
            seq![row] + self.databases_below(profile)
        } else {
            seq![row]
        }
    }

    /// The rows of the expanded branches. Preferences filter here, so that cached and late metadata follow
    /// the latest ones.
    pub open spec fn rows(self) -> Seq<ExplorerRowView> {
        concatenated(self.profiles.len(), |i: int| self.profile_rows(self.profiles[i]))
    }

    /// The tree with a node collapsed.
    pub open spec fn without(self, key: NodeKeyView) -> TreeView {
        TreeView { expanded: self.expanded.remove(key), ..self }
    }
}

/// The length of the run of rows at the front that are deeper than a depth.
pub open spec fn deeper_run(rows: Seq<ExplorerRowView>, depth: usize) -> nat
    decreases rows.len(),
{
    if rows.len() == 0 || rows[0].depth <= depth {
        0
    } else {
        1 + deeper_run(rows.skip(1), depth)
    }
}

proof fn lemma_run_fits(rows: Seq<ExplorerRowView>, depth: usize)
    ensures
        deeper_run(rows, depth) <= rows.len(),
    decreases rows.len(),
{
    if rows.len() > 0 {
        lemma_run_fits(rows.skip(1), depth);
    }
}

/// The rows without the run of deeper rows directly behind each row of a node with this key.
pub open spec fn pruned(rows: Seq<ExplorerRowView>, key: NodeKeyView) -> Seq<ExplorerRowView>
    decreases rows.len(),
    via pruned_shrinks
{
    if rows.len() == 0 {
        rows
    } else {
        let rest = rows.skip(1);
        seq![rows[0]] + pruned(
            if expansion_key(rows[0].node) == Some(key) {
                rest.skip(deeper_run(rest, rows[0].depth) as int)
            } else {
                rest
            },
            key,
        )
    }
}

#[via_fn]
proof fn pruned_shrinks(rows: Seq<ExplorerRowView>, key: NodeKeyView) {
    if rows.len() > 0 {
        lemma_run_fits(rows.skip(1), rows[0].depth);
    }
}

/// Whether rows form branches that start at a depth: the first row stands there, none lies above it, and
/// each lies at most one deeper than the one before.
pub open spec fn forest(rows: Seq<ExplorerRowView>, depth: usize) -> bool {
    &&& rows.len() > 0 ==> rows[0].depth == depth
    &&& forall|i: int| 0 <= i < rows.len() ==> (#[trigger] rows[i]).depth >= depth
    &&& forall|i: int|
        0 < i < rows.len() ==> (#[trigger] rows[i]).depth <= rows[i - 1].depth + 1
}

impl AppView {
    /// What the explorer shows.
    pub open spec fn tree(self) -> TreeView {
        TreeView {
            settings: self.settings,
            profiles: self.profiles,
            expanded: self.expanded,
            databases: self.databases,
            schemas: self.schemas,
            tables: self.tables,
        }
    }

    /// The rows of the expanded branches.
    pub open spec fn rows(self) -> Seq<ExplorerRowView> {
        self.tree().rows()
    }

    /// The selected row.
    pub open spec fn selected_row(self) -> Option<ExplorerRowView> {
        if self.explorer_selected < self.rows().len() {
            Some(self.rows()[self.explorer_selected as int])
        } else {
            None
        }
    }

    /// The state with the selection on a row that exists, as far as there are any.
    pub open spec fn clamped(self) -> AppView {
        let last = if self.rows().len() > 0 { self.rows().len() - 1 } else { 0 };
        AppView {
            explorer_selected: if self.explorer_selected <= last {
                self.explorer_selected
            } else {
                last as usize
            },
            ..self
        }
    }
}

fn push_row(rows: &mut Vec<ExplorerRow>, row: ExplorerRow)
    ensures
        final(rows).deep_view() == old(rows).deep_view().push(row@),
{
    rows.push(row);
    assert(rows.deep_view() =~= old(rows).deep_view().push(row@));
}

impl App {
    fn push_schema_rows(
        &self,
        rows: &mut Vec<ExplorerRow>,
        profile_id: &String,
        database: &String,
        schema: &String,
    )
        ensures
            final(rows).deep_view() == old(rows).deep_view() + self@.tree().schema_rows(
                profile_id@,
                database@,
                schema@,
            ),
    {
        let ghost before = rows.deep_view();
        let ghost goal = self@.tree().schema_rows(profile_id@, database@, schema@);
        if !self.settings.shows_schema(schema.as_str()) {
            assert(before + goal =~= before);
            return;
        }
        push_row(
            rows,
            ExplorerRow {
                depth: 2,
                label: schema.clone(),
                node: ExplorerNode::Schema {
                    profile_id: profile_id.clone(),
                    database: database.clone(),
                    schema: schema.clone(),
                },
            },
        );
        let key = NodeKey::Schema(profile_id.clone(), database.clone(), schema.clone());
        if self.expanded.contains(&key) {
            match self.tables.get(&(profile_id.clone(), database.clone(), schema.clone())) {
                Some(tables) => {
                    let ghost head = rows.deep_view();
                    let ghost shown = tables.deep_view().map_values(
                        |table: TableRefView| table_row(table),
                    );
                    let mut i: usize = 0;
                    while i < tables.len()
                        invariant
                            i <= tables@.len(),
                            shown == tables.deep_view().map_values(
                                |table: TableRefView| table_row(table),
                            ),
                            rows.deep_view() =~= head + shown.take(i as int),
                        decreases tables@.len() - i,
                    {
                        let table = &tables[i];
                        assert(tables.deep_view()[i as int] == table@);
                        let mut label = concat3(table.name.as_str(), "  [", table.kind.as_str());
                        label.append("]");
                        push_row(
                            rows,
                            ExplorerRow {
                                depth: 3,
                                label,
                                node: ExplorerNode::Table(table.duplicate()),
                            },
                        );
                        i += 1;
                    }
                    assert(rows.deep_view() =~= before + goal);
                    return;
                },
                None => {},
            }
        }
        assert(rows.deep_view() =~= before + goal);
    }

    fn push_database_rows(
        &self,
        rows: &mut Vec<ExplorerRow>,
        profile: &ConnectionProfile,
        database: &String,
    )
        ensures
            final(rows).deep_view() == old(rows).deep_view() + self@.tree().database_rows(
                profile@,
                database@,
            ),
    {
        let ghost before = rows.deep_view();
        let ghost goal = self@.tree().database_rows(profile@, database@);
        if !self.settings.show_all_databases && !same_text(
            database.as_str(),
            profile.database.as_str(),
        ) {
            assert(before + goal =~= before);
            return;
        }
        push_row(
            rows,
            ExplorerRow {
                depth: 1,
                label: database.clone(),
                node: ExplorerNode::Database {
                    profile_id: profile.id.clone(),
                    database: database.clone(),
                },
            },
        );
        if self.expanded.contains(&NodeKey::Database(profile.id.clone(), database.clone())) {
            match self.schemas.get(&(profile.id.clone(), database.clone())) {
                Some(schemas) => {
                    let ghost head = rows.deep_view();
                    let ghost names = schemas.deep_view();
                    let ghost part = |i: int| self@.tree().schema_rows(profile@.id, database@, names[i]);
                    let mut i: usize = 0;
                    while i < schemas.len()
                        invariant
                            i <= schemas@.len(),
                            names == schemas.deep_view(),
                            part == (|i: int|
                                self@.tree().schema_rows(profile@.id, database@, names[i])),
                            rows.deep_view() =~= head + concatenated(i as nat, part),
                        decreases schemas@.len() - i,
                    {
                        self.push_schema_rows(rows, &profile.id, database, &schemas[i]);
                        assert(part(i as int) == self@.tree().schema_rows(
                            profile@.id,
                            database@,
                            names[i as int],
                        ));
                        i += 1;
                    }
                    assert(rows.deep_view() =~= before + goal);
                    return;
                },
                None => {},
            }
        }
        assert(rows.deep_view() =~= before + goal);
    }

    fn push_profile_rows(&self, rows: &mut Vec<ExplorerRow>, profile: &ConnectionProfile)
        ensures
            final(rows).deep_view() == old(rows).deep_view() + self@.tree().profile_rows(profile@),
    {
        let ghost before = rows.deep_view();
        let ghost goal = self@.tree().profile_rows(profile@);
        push_row(
            rows,
            ExplorerRow {
                depth: 0,
                label: profile.name.clone(),
                node: ExplorerNode::Connection(profile.id.clone()),
            },
        );
        if self.expanded.contains(&NodeKey::Connection(profile.id.clone())) {
            match self.databases.get(&profile.id) {
                Some(databases) => {
                    let ghost head = rows.deep_view();
                    let ghost names = databases.deep_view();
                    let ghost part = |i: int| self@.tree().database_rows(profile@, names[i]);
                    let mut i: usize = 0;
                    while i < databases.len()
                        invariant
                            i <= databases@.len(),
                            names == databases.deep_view(),
                            part == (|i: int| self@.tree().database_rows(profile@, names[i])),
                            rows.deep_view() =~= head + concatenated(i as nat, part),
                        decreases databases@.len() - i,
                    {
                        self.push_database_rows(rows, profile, &databases[i]);
                        assert(part(i as int) == self@.tree().database_rows(profile@, names[i as int]));
                        i += 1;
                    }
                    assert(rows.deep_view() =~= before + goal);
                    return;
                },
                None => {},
            }
        }
        assert(rows.deep_view() =~= before + goal);
    }

    /// Flattens only expanded branches, for both drawing and keyboard actions.
    pub fn explorer_rows(&self) -> (rows: Vec<ExplorerRow>)
        ensures
            rows.deep_view() == self@.rows(),
    {
        let ghost part = |i: int| self@.tree().profile_rows(self@.tree().profiles[i]);
        let mut rows: Vec<ExplorerRow> = Vec::new();
        let mut i: usize = 0;
        while i < self.profiles.len()
            invariant
                i <= self.profiles@.len(),
                part == (|i: int| self@.tree().profile_rows(self@.tree().profiles[i])),
                rows.deep_view() =~= concatenated(i as nat, part),
            decreases self.profiles@.len() - i,
        {
            assert(self@.profiles[i as int] == self.profiles@[i as int]@);
            self.push_profile_rows(&mut rows, &self.profiles[i]);
            assert(part(i as int) == self@.tree().profile_rows(self@.tree().profiles[i as int]));
            i += 1;
        }
        rows
    }

    /// The selected row.
    pub fn selected_explorer_row(&self) -> (row: Option<ExplorerRow>)
        ensures
            row.deep_view() == self@.selected_row(),
    {
        let rows = self.explorer_rows();
        assert(self@.rows().len() == rows@.len());
        if self.explorer_selected < rows.len() {
            assert(self@.rows()[self.explorer_selected as int]
                == rows@[self.explorer_selected as int]@);
            Some(rows[self.explorer_selected].duplicate())
        } else {
            None
        }
    }

    /// Moves the selection to a row that exists, as far as there are any.
    pub fn clamp_selection(&mut self)
        ensures
            final(self)@ == old(self)@.clamped(),
            old(self)@.valid() ==> final(self)@.valid(),
    {
        let rows = self.explorer_rows();
        assert(self@.rows().len() == rows@.len());
        let last: usize = if rows.len() > 0 {
            rows.len() - 1
        } else {
            0
        };
        if self.explorer_selected > last {
            self.explorer_selected = last;
        }
    }
}

/// A collapsed profile shows one row, whatever is cached of it.
pub proof fn collapsed_profiles_show_one_row(app: AppView, profile: ConnectionProfileView)
    requires
        !app.expanded.contains(NodeKeyView::Connection(profile.id)),
    ensures
        app.tree().profile_rows(profile).len() == 1,
{
}

/// Clamping selects a row whenever there is one.
pub proof fn clamping_selects_an_existing_row(app: AppView)
    requires
        app.rows().len() > 0,
        app.rows().len() <= usize::MAX,
    ensures
        app.clamped().selected_row() is Some,
{
    assert(app.clamped().tree() == app.tree());
}

/// Hiding all but the default database never hides that one.
pub proof fn default_databases_are_always_shown(tree: TreeView, profile: ConnectionProfileView)
    ensures
        tree.database_rows(profile, profile.database).len() > 0,
{
}

proof fn lemma_run_stops(a: Seq<ExplorerRowView>, b: Seq<ExplorerRowView>, depth: usize)
    requires
        b.len() == 0 || b[0].depth <= depth,
    ensures
        deeper_run(a + b, depth) == deeper_run(a, depth),
        deeper_run(a, depth) <= a.len(),
    decreases a.len(),
{
    if a.len() == 0 {
        assert(a + b =~= b);
    } else {
        assert((a + b).skip(1) =~= a.skip(1) + b);
        lemma_run_stops(a.skip(1), b, depth);
    }
}

proof fn lemma_run_of_deeper(rows: Seq<ExplorerRowView>, depth: usize)
    requires
        forall|i: int| 0 <= i < rows.len() ==> (#[trigger] rows[i]).depth > depth,
    ensures
        deeper_run(rows, depth) == rows.len(),
    decreases rows.len(),
{
    if rows.len() > 0 {
        lemma_run_of_deeper(rows.skip(1), depth);
    }
}

proof fn lemma_pruned_parts(
    a: Seq<ExplorerRowView>,
    b: Seq<ExplorerRowView>,
    depth: usize,
    key: NodeKeyView,
)
    requires
        forall|i: int| 0 <= i < a.len() ==> (#[trigger] a[i]).depth >= depth,
        b.len() == 0 || b[0].depth <= depth,
    ensures
        pruned(a + b, key) == pruned(a, key) + pruned(b, key),
    decreases a.len(),
{
    if a.len() == 0 {
        assert(a + b =~= b);
        assert(pruned(a, key) + pruned(b, key) =~= pruned(b, key));
    } else {
        let rest = a.skip(1);
        assert((a + b).skip(1) =~= rest + b);
        let next = if expansion_key(a[0].node) == Some(key) {
            let run = deeper_run(rest, a[0].depth) as int;
            lemma_run_stops(rest, b, a[0].depth);
            assert((rest + b).skip(run) =~= rest.skip(run) + b);
            rest.skip(run)
        } else {
            rest
        };
        lemma_pruned_parts(next, b, depth, key);
        assert(pruned(a + b, key) =~= pruned(a, key) + pruned(b, key));
    }
}

proof fn lemma_pruned_branch(row: ExplorerRowView, below: Seq<ExplorerRowView>, key: NodeKeyView)
    requires
        forall|i: int| 0 <= i < below.len() ==> (#[trigger] below[i]).depth > row.depth,
    ensures
        pruned(seq![row] + below, key) == seq![row] + (if expansion_key(row.node) == Some(key) {
            Seq::empty()
        } else {
            pruned(below, key)
        }),
{
    let rows = seq![row] + below;
    assert(rows.skip(1) =~= below);
    lemma_run_of_deeper(below, row.depth);
    let none = below.skip(below.len() as int);
    assert(none =~= Seq::empty());
    assert(pruned(none, key) == none);
    assert(rows[0] == row);
}

proof fn lemma_nothing_pruned(rows: Seq<ExplorerRowView>, key: NodeKeyView)
    requires
        forall|i: int|
            0 <= i < rows.len() ==> expansion_key((#[trigger] rows[i]).node) != Some(key),
    ensures
        pruned(rows, key) == rows,
    decreases rows.len(),
{
    if rows.len() > 0 {
        lemma_nothing_pruned(rows.skip(1), key);
        assert(seq![rows[0]] + rows.skip(1) =~= rows);
    }
}

proof fn lemma_forest_joins(a: Seq<ExplorerRowView>, b: Seq<ExplorerRowView>, depth: usize)
    requires
        forest(a, depth),
        forest(b, depth),
    ensures
        forest(a + b, depth),
{
    let rows = a + b;
    assert forall|i: int| 0 <= i < rows.len() implies (#[trigger] rows[i]).depth >= depth by {
        if i < a.len() {
            assert(rows[i] == a[i]);
        } else {
            assert(rows[i] == b[i - a.len()]);
        }
    }
    assert forall|i: int| 0 < i < rows.len() implies (#[trigger] rows[i]).depth <= rows[i - 1].depth
        + 1 by {
        if i < a.len() {
            assert(rows[i] == a[i] && rows[i - 1] == a[i - 1]);
        } else if i == a.len() {
            assert(rows[i] == b[0] && rows[i - 1] == a[i - 1]);
        } else {
            assert(rows[i] == b[i - a.len()] && rows[i - 1] == b[i - a.len() - 1]);
        }
    }
}

proof fn lemma_branch_is_forest(row: ExplorerRowView, below: Seq<ExplorerRowView>)
    requires
        row.depth < 3,
        forest(below, (row.depth + 1) as usize),
    ensures
        forest(seq![row] + below, row.depth),
{
    let rows = seq![row] + below;
    assert forall|i: int| 0 < i < rows.len() implies (#[trigger] rows[i]).depth <= rows[i - 1].depth
        + 1 && rows[i].depth >= row.depth by {
        assert(rows[i] == below[i - 1]);
        if i > 1 {
            assert(rows[i - 1] == below[i - 2]);
        }
    }
}

proof fn lemma_concatenated_pruned(
    count: nat,
    part: spec_fn(int) -> Seq<ExplorerRowView>,
    rest: spec_fn(int) -> Seq<ExplorerRowView>,
    depth: usize,
    key: NodeKeyView,
)
    requires
        forall|i: int|
            0 <= i < count ==> forest(#[trigger] part(i), depth) && rest(i) == pruned(part(i), key),
    ensures
        forest(concatenated(count, part), depth),
        concatenated(count, rest) == pruned(concatenated(count, part), key),
    decreases count,
{
    if count > 0 {
        let front = concatenated((count - 1) as nat, part);
        let last = part(count - 1);
        lemma_concatenated_pruned((count - 1) as nat, part, rest, depth, key);
        lemma_forest_joins(front, last, depth);
        lemma_pruned_parts(front, last, depth, key);
    }
}

proof fn lemma_schema_pruned(
    tree: TreeView,
    profile_id: Seq<char>,
    database: Seq<char>,
    schema: Seq<char>,
    key: NodeKeyView,
)
    ensures
        forest(tree.schema_rows(profile_id, database, schema), 2),
        tree.without(key).schema_rows(profile_id, database, schema) == pruned(
            tree.schema_rows(profile_id, database, schema),
            key,
        ),
{
    let row = ExplorerRowView {
        depth: 2,
        label: schema,
        node: ExplorerNodeView::Schema { profile_id, database, schema },
    };
    let place = (profile_id, database, schema);
    let own = NodeKeyView::Schema(profile_id, database, schema);
    let none = Seq::<ExplorerRowView>::empty();
    assert(seq![row] + none =~= seq![row]);
    lemma_pruned_branch(row, none, key);
    lemma_branch_is_forest(row, none);
    if tree.expanded.contains(own) && tree.tables.contains_key(place) {
        let below = tree.tables[place].map_values(|table: TableRefView| table_row(table));
        lemma_branch_is_forest(row, below);
        lemma_pruned_branch(row, below, key);
        lemma_nothing_pruned(below, key);
    }
}

proof fn lemma_schemas_pruned(
    tree: TreeView,
    profile_id: Seq<char>,
    database: Seq<char>,
    key: NodeKeyView,
)
    ensures
        forest(tree.schemas_below(profile_id, database), 2),
        tree.without(key).schemas_below(profile_id, database) == pruned(
            tree.schemas_below(profile_id, database),
            key,
        ),
{
    let next = tree.without(key);
    let names = tree.schemas[(profile_id, database)];
    let part = |i: int| tree.schema_rows(profile_id, database, names[i]);
    let rest = |i: int| next.schema_rows(profile_id, database, names[i]);
    assert forall|i: int| 0 <= i < names.len() implies forest(#[trigger] part(i), 2) && rest(i)
        == pruned(part(i), key) by {
        lemma_schema_pruned(tree, profile_id, database, names[i], key);
    }
    lemma_concatenated_pruned(names.len(), part, rest, 2, key);
    assert(next.schemas_below(profile_id, database) == concatenated(names.len(), rest));
}

proof fn lemma_databases_pruned(tree: TreeView, profile: ConnectionProfileView, key: NodeKeyView)
    ensures
        forest(tree.databases_below(profile), 1),
        tree.without(key).databases_below(profile) == pruned(tree.databases_below(profile), key),
{
    let next = tree.without(key);
    let names = tree.databases[profile.id];
    let part = |i: int| tree.database_rows(profile, names[i]);
    let rest = |i: int| next.database_rows(profile, names[i]);
    assert forall|i: int| 0 <= i < names.len() implies forest(#[trigger] part(i), 1) && rest(i)
        == pruned(part(i), key) by {
        lemma_database_pruned(tree, profile, names[i], key);
    }
    lemma_concatenated_pruned(names.len(), part, rest, 1, key);
    assert(next.databases_below(profile) == concatenated(names.len(), rest));
}

proof fn lemma_database_pruned(
    tree: TreeView,
    profile: ConnectionProfileView,
    database: Seq<char>,
    key: NodeKeyView,
)
    ensures
        forest(tree.database_rows(profile, database), 1),
        tree.without(key).database_rows(profile, database) == pruned(
            tree.database_rows(profile, database),
            key,
        ),
{
    let row = ExplorerRowView {
        depth: 1,
        label: database,
        node: ExplorerNodeView::Database { profile_id: profile.id, database },
    };
    let place = (profile.id, database);
    let own = NodeKeyView::Database(profile.id, database);
    let none = Seq::<ExplorerRowView>::empty();
    assert(seq![row] + none =~= seq![row]);
    lemma_pruned_branch(row, none, key);
    lemma_branch_is_forest(row, none);
    if tree.expanded.contains(own) && tree.schemas.contains_key(place) {
        let below = tree.schemas_below(profile.id, database);
        lemma_schemas_pruned(tree, profile.id, database, key);
        lemma_branch_is_forest(row, below);
        lemma_pruned_branch(row, below, key);
    }
}

proof fn lemma_profile_pruned(tree: TreeView, profile: ConnectionProfileView, key: NodeKeyView)
    ensures
        forest(tree.profile_rows(profile), 0),
        tree.without(key).profile_rows(profile) == pruned(tree.profile_rows(profile), key),
{
    let row = profile_row(profile);
    let own = NodeKeyView::Connection(profile.id);
    let none = Seq::<ExplorerRowView>::empty();
    assert(seq![row] + none =~= seq![row]);
    lemma_pruned_branch(row, none, key);
    lemma_branch_is_forest(row, none);
    if tree.expanded.contains(own) && tree.databases.contains_key(profile.id) {
        let below = tree.databases_below(profile);
        lemma_databases_pruned(tree, profile, key);
        lemma_branch_is_forest(row, below);
        lemma_pruned_branch(row, below, key);
    }
}

/// The rows at the left edge, in order.
pub open spec fn edge_rows(rows: Seq<ExplorerRowView>) -> Seq<ExplorerRowView>
    decreases rows.len(),
{
    if rows.len() == 0 {
        rows
    } else if rows.last().depth == 0 {
        edge_rows(rows.drop_last()).push(rows.last())
    } else {
        edge_rows(rows.drop_last())
    }
}

proof fn lemma_edge_of_branch(row: ExplorerRowView, below: Seq<ExplorerRowView>)
    requires
        row.depth == 0,
        forest(below, 1),
    ensures
        edge_rows(seq![row] + below) == seq![row],
    decreases below.len(),
{
    let rows = seq![row] + below;
    if below.len() == 0 {
        let front = rows.drop_last();
        assert(front =~= Seq::empty());
        assert(edge_rows(front) == front);
        assert(rows.last() == row);
        assert(edge_rows(rows) =~= seq![row]);
    } else {
        assert(rows.drop_last() =~= seq![row] + below.drop_last());
        assert(rows.last() == below[below.len() - 1]);
        lemma_edge_of_branch(row, below.drop_last());
    }
}

proof fn lemma_edge_of_profile(tree: TreeView, profile: ConnectionProfileView)
    ensures
        edge_rows(tree.profile_rows(profile)) == seq![profile_row(profile)],
{
    let row = profile_row(profile);
    let none = Seq::<ExplorerRowView>::empty();
    assert(seq![row] + none =~= seq![row]);
    lemma_edge_of_branch(row, none);
    lemma_databases_pruned(tree, profile, NodeKeyView::Connection(profile.id));
    lemma_edge_of_branch(row, tree.databases_below(profile));
}

proof fn lemma_edge_joins(a: Seq<ExplorerRowView>, b: Seq<ExplorerRowView>)
    ensures
        edge_rows(a + b) == edge_rows(a) + edge_rows(b),
    decreases b.len(),
{
    if b.len() == 0 {
        assert(a + b =~= a);
        assert(edge_rows(a) + edge_rows(b) =~= edge_rows(a));
    } else {
        assert((a + b).drop_last() =~= a + b.drop_last());
        lemma_edge_joins(a, b.drop_last());
        assert(edge_rows(a + b) =~= edge_rows(a) + edge_rows(b));
    }
}

proof fn lemma_edges(tree: TreeView, count: nat, part: spec_fn(int) -> Seq<ExplorerRowView>)
    requires
        count <= tree.profiles.len(),
        forall|i: int|
            0 <= i < count ==> #[trigger] part(i) == tree.profile_rows(tree.profiles[i]),
    ensures
        edge_rows(concatenated(count, part)) == Seq::new(
            count,
            |i: int| profile_row(tree.profiles[i]),
        ),
    decreases count,
{
    let goal = Seq::new(count, |i: int| profile_row(tree.profiles[i]));
    if count == 0 {
        assert(edge_rows(concatenated(count, part)) =~= goal);
    } else {
        let front = (count - 1) as nat;
        lemma_edges(tree, front, part);
        lemma_edge_of_profile(tree, tree.profiles[front as int]);
        lemma_edge_joins(concatenated(front, part), part(front as int));
        assert(edge_rows(concatenated(count, part)) =~= goal);
    }
}

/// Collapsing a node removes just the run of deeper rows directly behind its row, and keeps the order of
/// the others.
pub proof fn collapsing_removes_the_rows_below(tree: TreeView, key: NodeKeyView)
    ensures
        tree.without(key).rows() == pruned(tree.rows(), key),
{
    let part = |i: int| tree.profile_rows(tree.profiles[i]);
    let rest = |i: int| tree.without(key).profile_rows(tree.without(key).profiles[i]);
    assert forall|i: int| 0 <= i < tree.profiles.len() implies forest(#[trigger] part(i), 0) && rest(
        i,
    ) == pruned(part(i), key) by {
        lemma_profile_pruned(tree, tree.profiles[i], key);
    }
    lemma_concatenated_pruned(tree.profiles.len(), part, rest, 0, key);
}

/// The rows start at the left edge, each lies at most one deeper than the one before, and those at the left
/// edge are the profiles in their order.
pub proof fn rows_form_a_tree(tree: TreeView)
    ensures
        forest(tree.rows(), 0),
        edge_rows(tree.rows()) == Seq::new(
            tree.profiles.len(),
            |i: int| profile_row(tree.profiles[i]),
        ),
{
    let key = NodeKeyView::Connection(Seq::empty());
    let part = |i: int| tree.profile_rows(tree.profiles[i]);
    let rest = |i: int| tree.without(key).profile_rows(tree.profiles[i]);
    assert forall|i: int| 0 <= i < tree.profiles.len() implies forest(#[trigger] part(i), 0) && rest(
        i,
    ) == pruned(part(i), key) by {
        lemma_profile_pruned(tree, tree.profiles[i], key);
    }
    lemma_concatenated_pruned(tree.profiles.len(), part, rest, 0, key);
    lemma_edges(tree, tree.profiles.len(), part);
}

} // verus!
