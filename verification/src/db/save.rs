//! Saving a batch of row changes: one transaction that commits all of them or none.
use vstd::prelude::*;
use vstd::string::*;

use crate::db::changes::{change_statement, statement, RowChange, RowChangeView};
use crate::db::query_edits::{projection_problem, validate_projection};
use crate::db::{
    plain_error, unknown_commit_error, Error, ErrorView, ResultColumn, ResultColumnView, TableRef,
    TableRefView, TableResultSource, TableResultSourceView,
};
use crate::text::{concat3, decimal, decimal_text};
use crate::value::Value;

verus! {

/// How far a save has come.
#[derive(Debug, PartialEq, Eq)]
pub enum SavePhase {
    Beginning,
    Locking,
    Reading,
    Locating {
        current: Vec<ResultColumn>,
    },
    Numbering {
        current: Vec<ResultColumn>,
    },
    /// Waiting for the outcome of one change.
    Writing {
        index: usize,
    },
    Committing,
    RollingBack {
        error: Error,
    },
    Finished,
}

/// What a `SavePhase` denotes.
pub ghost enum SavePhaseView {
    Beginning,
    Locking,
    Reading,
    Locating {
        current: Seq<ResultColumnView>,
    },
    Numbering {
        current: Seq<ResultColumnView>,
    },
    Writing {
        index: usize,
    },
    Committing,
    RollingBack {
        error: ErrorView,
    },
    Finished,
}

impl DeepView for SavePhase {
    type V = SavePhaseView;

    open spec fn deep_view(&self) -> SavePhaseView {
        match self {
            SavePhase::Beginning => SavePhaseView::Beginning,
            SavePhase::Locking => SavePhaseView::Locking,
            SavePhase::Reading => SavePhaseView::Reading,
            SavePhase::Locating { current } => SavePhaseView::Locating {
                current: current.deep_view(),
            },
            SavePhase::Numbering { current } => SavePhaseView::Numbering {
                current: current.deep_view(),
            },
            SavePhase::Writing { index } => SavePhaseView::Writing { index: *index },
            SavePhase::Committing => SavePhaseView::Committing,
            SavePhase::RollingBack { error } => SavePhaseView::RollingBack {
                error: error.deep_view(),
            },
            SavePhase::Finished => SavePhaseView::Finished,
        }
    }
}

impl Clone for SavePhase {
    fn clone(&self) -> (copy: SavePhase)
        ensures
            copy@ == self@,
    {
        self.duplicate()
    }
}

impl View for SavePhase {
    type V = SavePhaseView;

    open spec fn view(&self) -> SavePhaseView {
        self.deep_view()
    }
}

impl Value for SavePhase {
    fn duplicate(&self) -> (copy: SavePhase) {
        match self {
            SavePhase::Beginning => SavePhase::Beginning,
            SavePhase::Locking => SavePhase::Locking,
            SavePhase::Reading => SavePhase::Reading,
            SavePhase::Locating { current } => SavePhase::Locating { current: current.duplicate() },
            SavePhase::Numbering { current } => SavePhase::Numbering {
                current: current.duplicate(),
            },
            SavePhase::Writing { index } => SavePhase::Writing { index: *index },
            SavePhase::Committing => SavePhase::Committing,
            SavePhase::RollingBack { error } => SavePhase::RollingBack { error: error.duplicate() },
            SavePhase::Finished => SavePhase::Finished,
        }
    }

    fn same(&self, other: &SavePhase) -> (same: bool) {
        match (self, other) {
            (SavePhase::Beginning, SavePhase::Beginning) => true,
            (SavePhase::Locking, SavePhase::Locking) => true,
            (SavePhase::Reading, SavePhase::Reading) => true,
            (SavePhase::Locating { current: current_a }, SavePhase::Locating { current: current_b }) => current_a.same(current_b),
            (
                SavePhase::Numbering { current: current_a },
                SavePhase::Numbering { current: current_b },
            ) => {
                current_a.same(current_b)
            },
            (SavePhase::Writing { index: index_a }, SavePhase::Writing { index: index_b }) => {
                *index_a == *index_b
            },
            (SavePhase::Committing, SavePhase::Committing) => true,
            (SavePhase::RollingBack { error: error_a }, SavePhase::RollingBack { error: error_b }) => error_a.same(error_b),
            (SavePhase::Finished, SavePhase::Finished) => true,
            _ => false,
        }
    }
}

/// A batch of changes on its way to the server.
#[derive(Debug, PartialEq, Eq)]
pub struct Save {
    pub source: TableResultSource,
    pub changes: Vec<RowChange>,
    pub phase: SavePhase,
}

/// What a `Save` denotes.
pub ghost struct SaveView {
    pub source: TableResultSourceView,
    pub changes: Seq<RowChangeView>,
    pub phase: SavePhaseView,
}

impl DeepView for Save {
    type V = SaveView;

    open spec fn deep_view(&self) -> SaveView {
        SaveView {
            source: self.source.deep_view(),
            changes: self.changes.deep_view(),
            phase: self.phase.deep_view(),
        }
    }
}

impl Clone for Save {
    fn clone(&self) -> (copy: Save)
        ensures
            copy@ == self@,
    {
        self.duplicate()
    }
}

impl View for Save {
    type V = SaveView;

    open spec fn view(&self) -> SaveView {
        self.deep_view()
    }
}

impl Value for Save {
    fn duplicate(&self) -> (copy: Save) {
        Save {
            source: self.source.duplicate(),
            changes: self.changes.duplicate(),
            phase: self.phase.duplicate(),
        }
    }

    fn same(&self, other: &Save) -> (same: bool) {
        self.source.same(&other.source)
            && self.changes.same(&other.changes)
            && self.phase.same(&other.phase)
    }
}

/// What a save asks of the server next, or how it ended.
#[derive(Debug, PartialEq, Eq)]
pub enum SaveAction {
    /// Runs SQL under supervision, so that cancellation is observed.
    Batch(String),
    Columns(TableRef),
    /// Resolves a quoted name to a table.
    TableOid(String),
    Attributes(u32),
    Execute {
        sql: String,
        parameters: Vec<Option<String>>,
    },
    /// Rolls back within a bounded time; cancellation blocks supervised work, so this is not supervised, and
    /// its outcome is not waited for.
    Rollback,
    Committed,
    Failed(Error),
}

/// What a `SaveAction` denotes.
pub ghost enum SaveActionView {
    Batch(Seq<char>),
    Columns(TableRefView),
    TableOid(Seq<char>),
    Attributes(u32),
    Execute {
        sql: Seq<char>,
        parameters: Seq<Option<Seq<char>>>,
    },
    Rollback,
    Committed,
    Failed(ErrorView),
}

impl DeepView for SaveAction {
    type V = SaveActionView;

    open spec fn deep_view(&self) -> SaveActionView {
        match self {
            SaveAction::Batch(value) => SaveActionView::Batch(value@),
            SaveAction::Columns(value) => SaveActionView::Columns(value.deep_view()),
            SaveAction::TableOid(value) => SaveActionView::TableOid(value@),
            SaveAction::Attributes(value) => SaveActionView::Attributes(*value),
            SaveAction::Execute { sql, parameters } => SaveActionView::Execute {
                sql: sql@,
                parameters: parameters.deep_view(),
            },
            SaveAction::Rollback => SaveActionView::Rollback,
            SaveAction::Committed => SaveActionView::Committed,
            SaveAction::Failed(value) => SaveActionView::Failed(value.deep_view()),
        }
    }
}

impl Clone for SaveAction {
    fn clone(&self) -> (copy: SaveAction)
        ensures
            copy@ == self@,
    {
        self.duplicate()
    }
}

impl View for SaveAction {
    type V = SaveActionView;

    open spec fn view(&self) -> SaveActionView {
        self.deep_view()
    }
}

impl Value for SaveAction {
    fn duplicate(&self) -> (copy: SaveAction) {
        match self {
            SaveAction::Batch(value) => SaveAction::Batch(value.duplicate()),
            SaveAction::Columns(value) => SaveAction::Columns(value.duplicate()),
            SaveAction::TableOid(value) => SaveAction::TableOid(value.duplicate()),
            SaveAction::Attributes(value) => SaveAction::Attributes(*value),
            SaveAction::Execute { sql, parameters } => SaveAction::Execute {
                sql: sql.duplicate(),
                parameters: parameters.duplicate(),
            },
            SaveAction::Rollback => SaveAction::Rollback,
            SaveAction::Committed => SaveAction::Committed,
            SaveAction::Failed(value) => SaveAction::Failed(value.duplicate()),
        }
    }

    fn same(&self, other: &SaveAction) -> (same: bool) {
        match (self, other) {
            (SaveAction::Batch(value_a), SaveAction::Batch(value_b)) => value_a.same(value_b),
            (SaveAction::Columns(value_a), SaveAction::Columns(value_b)) => value_a.same(value_b),
            (SaveAction::TableOid(value_a), SaveAction::TableOid(value_b)) => value_a.same(value_b),
            (SaveAction::Attributes(value_a), SaveAction::Attributes(value_b)) => {
                *value_a == *value_b
            },
            (
                SaveAction::Execute { sql: sql_a, parameters: parameters_a },
                SaveAction::Execute { sql: sql_b, parameters: parameters_b },
            ) => {
                sql_a.same(sql_b) && parameters_a.same(parameters_b)
            },
            (SaveAction::Rollback, SaveAction::Rollback) => true,
            (SaveAction::Committed, SaveAction::Committed) => true,
            (SaveAction::Failed(value_a), SaveAction::Failed(value_b)) => value_a.same(value_b),
            _ => false,
        }
    }
}

/// What the server answered.
#[derive(Debug, PartialEq, Eq)]
pub enum SaveReply {
    Completed,
    Columns(Vec<ResultColumn>),
    TableOid(u32),
    Attributes(Vec<i16>),
    Affected(u64),
    /// The request failed; `broken` says that the connection is lost, so that its outcome is unknown.
    Failed {
        error: Error,
        broken: bool,
    },
}

/// What a `SaveReply` denotes.
pub ghost enum SaveReplyView {
    Completed,
    Columns(Seq<ResultColumnView>),
    TableOid(u32),
    Attributes(Seq<i16>),
    Affected(u64),
    Failed {
        error: ErrorView,
        broken: bool,
    },
}

impl DeepView for SaveReply {
    type V = SaveReplyView;

    open spec fn deep_view(&self) -> SaveReplyView {
        match self {
            SaveReply::Completed => SaveReplyView::Completed,
            SaveReply::Columns(value) => SaveReplyView::Columns(value.deep_view()),
            SaveReply::TableOid(value) => SaveReplyView::TableOid(*value),
            SaveReply::Attributes(value) => SaveReplyView::Attributes(value.deep_view()),
            SaveReply::Affected(value) => SaveReplyView::Affected(*value),
            SaveReply::Failed { error, broken } => SaveReplyView::Failed {
                error: error.deep_view(),
                broken: *broken,
            },
        }
    }
}

impl Clone for SaveReply {
    fn clone(&self) -> (copy: SaveReply)
        ensures
            copy@ == self@,
    {
        self.duplicate()
    }
}

impl View for SaveReply {
    type V = SaveReplyView;

    open spec fn view(&self) -> SaveReplyView {
        self.deep_view()
    }
}

impl Value for SaveReply {
    fn duplicate(&self) -> (copy: SaveReply) {
        match self {
            SaveReply::Completed => SaveReply::Completed,
            SaveReply::Columns(value) => SaveReply::Columns(value.duplicate()),
            SaveReply::TableOid(value) => SaveReply::TableOid(*value),
            SaveReply::Attributes(value) => SaveReply::Attributes(value.duplicate()),
            SaveReply::Affected(value) => SaveReply::Affected(*value),
            SaveReply::Failed { error, broken } => SaveReply::Failed {
                error: error.duplicate(),
                broken: *broken,
            },
        }
    }

    fn same(&self, other: &SaveReply) -> (same: bool) {
        match (self, other) {
            (SaveReply::Completed, SaveReply::Completed) => true,
            (SaveReply::Columns(value_a), SaveReply::Columns(value_b)) => value_a.same(value_b),
            (SaveReply::TableOid(value_a), SaveReply::TableOid(value_b)) => *value_a == *value_b,
            (SaveReply::Attributes(value_a), SaveReply::Attributes(value_b)) => {
                value_a.same(value_b)
            },
            (SaveReply::Affected(value_a), SaveReply::Affected(value_b)) => *value_a == *value_b,
            (
                SaveReply::Failed { error: error_a, broken: broken_a },
                SaveReply::Failed { error: error_b, broken: broken_b },
            ) => {
                error_a.same(error_b) && *broken_a == *broken_b
            },
            _ => false,
        }
    }
}

impl SaveView {
    /// Ends with a failure.
    pub open spec fn failed(self, error: ErrorView) -> (SaveView, SaveActionView) {
        (SaveView { phase: SavePhaseView::Finished, ..self }, SaveActionView::Failed(error))
    }

    /// Gives the transaction up; the failure is reported once the rollback was attempted.
    pub open spec fn roll_back(self, error: ErrorView) -> (SaveView, SaveActionView) {
        (
            SaveView { phase: SavePhaseView::RollingBack { error }, ..self },
            SaveActionView::Rollback,
        )
    }

    /// Goes on with the change at `index`, or commits behind the last one.
    pub open spec fn write(self, index: int) -> (SaveView, SaveActionView) {
        if index >= self.changes.len() {
            (
                SaveView { phase: SavePhaseView::Committing, ..self },
                SaveActionView::Batch("COMMIT"@),
            )
        } else {
            match change_statement(self.source, self.changes[index]) {
                Ok((sql, parameters)) => (
                    SaveView { phase: SavePhaseView::Writing { index: index as usize }, ..self },
                    SaveActionView::Execute { sql, parameters },
                ),
                Err(error) => self.roll_back(error),
            }
        }
    }

    /// What an answer leads to. An answer to another question than the one that was asked counts as a
    /// failure.
    pub open spec fn step(self, reply: SaveReplyView) -> (SaveView, SaveActionView) {
        let strange = plain_error("The server answered another question"@);
        match (self.phase, reply) {
            (SavePhaseView::Beginning, SaveReplyView::Completed) => (
                SaveView { phase: SavePhaseView::Locking, ..self },
                SaveActionView::Batch(
                    "LOCK TABLE "@ + self.source.table.qualified() + " IN ROW EXCLUSIVE MODE"@,
                ),
            ),
            (SavePhaseView::Beginning, SaveReplyView::Failed { error, .. }) => self.failed(error),
            (SavePhaseView::Beginning, _) => self.failed(strange),
            (SavePhaseView::Locking, SaveReplyView::Completed) => (
                SaveView { phase: SavePhaseView::Reading, ..self },
                SaveActionView::Columns(self.source.table),
            ),
            (SavePhaseView::Reading, SaveReplyView::Columns(current)) => match self.source.query {
                None => if current == self.source.columns {
                    self.write(0)
                } else {
                    self.roll_back(
                        plain_error("Table definition changed; refresh before editing"@),
                    )
                },
                Some(_) => (
                    SaveView { phase: SavePhaseView::Locating { current }, ..self },
                    SaveActionView::TableOid(self.source.table.qualified()),
                ),
            },
            (SavePhaseView::Locating { current }, SaveReplyView::TableOid(oid)) => {
                let query = self.source.query->Some_0;
                if self.source.query is Some && oid == query.table_oid && current
                    == query.table_columns {
                    (
                        SaveView { phase: SavePhaseView::Numbering { current }, ..self },
                        SaveActionView::Attributes(oid),
                    )
                } else {
                    self.roll_back(plain_error("Table definition changed; run the query again"@))
                }
            },
            (SavePhaseView::Numbering { current }, SaveReplyView::Attributes(ids)) => {
                if self.source.query is None {
                    self.roll_back(strange)
                } else {
                    match projection_problem(
                        self.source.columns,
                        self.source.query->Some_0,
                        current,
                        ids,
                    ) {
                        Some(problem) => self.roll_back(plain_error(problem)),
                        None => self.write(0),
                    }
                }
            },
            (SavePhaseView::Writing { index }, SaveReplyView::Affected(rows)) => if rows == 1 {
                self.write(index + 1)
            } else {
                self.roll_back(
                    plain_error(
                        "Row conflict: expected one matching row, found "@ + decimal(rows as nat)
                            + "; no changes saved"@,
                    ),
                )
            },
            (SavePhaseView::Committing, SaveReplyView::Completed) => (
                SaveView { phase: SavePhaseView::Finished, ..self },
                SaveActionView::Committed,
            ),
            (SavePhaseView::Committing, SaveReplyView::Failed { error, broken }) => if broken {
                self.failed(unknown_commit_error(error.outermost()))
            } else {
                self.roll_back(error)
            },
            (SavePhaseView::RollingBack { error }, _) => self.failed(
                error.in_context("Batch not committed"@),
            ),
            (SavePhaseView::Finished, _) => self.failed(strange),
            (_, SaveReplyView::Failed { error, .. }) => self.roll_back(error),
            _ => self.roll_back(strange),
        }
    }

    /// The state after some answers.
    pub open spec fn after(self, replies: Seq<SaveReplyView>) -> SaveView
        decreases replies.len(),
    {
        if replies.len() == 0 {
            self
        } else {
            self.after(replies.drop_last()).step(replies.last()).0
        }
    }

    /// What is asked behind some answers.
    pub open spec fn asked(self, replies: Seq<SaveReplyView>) -> SaveActionView
        recommends
            replies.len() > 0,
    {
        self.after(replies.drop_last()).step(replies.last()).1
    }
}

/// How the save of a batch starts.
pub open spec fn save_start(
    source: TableResultSourceView,
    changes: Seq<RowChangeView>,
) -> (SaveView, SaveActionView) {
    let save = SaveView { source, changes, phase: SavePhaseView::Beginning };
    if changes.len() == 0 {
        save.failed(plain_error("No table changes to save"@))
    } else if !source.table.writable() {
        save.failed(plain_error("This object is read-only"@))
    } else {
        (save, SaveActionView::Batch("BEGIN"@))
    }
}

/// Starts to save a batch.
pub fn save(source: TableResultSource, changes: Vec<RowChange>) -> (started: (Save, SaveAction))
    ensures
        (started.0@, started.1@) == save_start(source@, changes.deep_view()),
{
    let empty = changes.len() == 0;
    assert(changes.deep_view().len() == changes@.len());
    let save = Save { source, changes, phase: SavePhase::Beginning };
    if empty {
        return save.fail(Error::new("No table changes to save"));
    }
    if !save.source.table.is_writable() {
        return save.fail(Error::new("This object is read-only"));
    }
    (save, SaveAction::Batch("BEGIN".to_owned()))
}

impl Save {
    fn fail(self, error: Error) -> (ended: (Save, SaveAction))
        ensures
            (ended.0@, ended.1@) == self@.failed(error@),
    {
        let mut save = self;
        save.phase = SavePhase::Finished;
        (save, SaveAction::Failed(error))
    }

    fn give_up(self, error: Error) -> (next: (Save, SaveAction))
        ensures
            (next.0@, next.1@) == self@.roll_back(error@),
    {
        let mut save = self;
        save.phase = SavePhase::RollingBack { error };
        (save, SaveAction::Rollback)
    }

    fn write_change(self, index: usize) -> (next: (Save, SaveAction))
        ensures
            (next.0@, next.1@) == self@.write(index as int),
    {
        let mut save = self;
        if index >= save.changes.len() {
            save.phase = SavePhase::Committing;
            return (save, SaveAction::Batch("COMMIT".to_owned()));
        }
        let ghost change = save@.changes[index as int];
        assert(change == save.changes@[index as int]@);
        match statement(&save.source, &save.changes[index]) {
            Ok((sql, parameters)) => {
                save.phase = SavePhase::Writing { index };
                (save, SaveAction::Execute { sql, parameters })
            },
            Err(error) => save.give_up(error),
        }
    }

    /// Takes the server's answer and goes on.
    pub fn step(self, reply: SaveReply) -> (next: (Save, SaveAction))
        ensures
            (next.0@, next.1@) == self@.step(reply@),
    {
        let mut save = self;
        let mut phase = SavePhase::Finished;
        std::mem::swap(&mut phase, &mut save.phase);
        match (phase, reply) {
            (SavePhase::Beginning, SaveReply::Completed) => {
                save.phase = SavePhase::Locking;
                let sql = concat3(
                    "LOCK TABLE ",
                    save.source.table.qualified_name().as_str(),
                    " IN ROW EXCLUSIVE MODE",
                );
                (save, SaveAction::Batch(sql))
            },
            (SavePhase::Beginning, SaveReply::Failed { error, broken: _ }) => save.fail(error),
            (SavePhase::Beginning, _) => save.fail(
                Error::new("The server answered another question"),
            ),
            (SavePhase::Locking, SaveReply::Completed) => {
                save.phase = SavePhase::Reading;
                let table = save.source.table.duplicate();
                (save, SaveAction::Columns(table))
            },
            (SavePhase::Reading, SaveReply::Columns(current)) => {
                if save.source.query.is_none() {
                    if current.same(&save.source.columns) {
                        save.write_change(0)
                    } else {
                        save.give_up(Error::new("Table definition changed; refresh before editing"))
                    }
                } else {
                    let name = save.source.table.qualified_name();
                    save.phase = SavePhase::Locating { current };
                    (save, SaveAction::TableOid(name))
                }
            },
            (SavePhase::Locating { current }, SaveReply::TableOid(oid)) => {
                let matching = match &save.source.query {
                    Some(query) => oid == query.table_oid && current.same(&query.table_columns),
                    None => false,
                };
                if matching {
                    save.phase = SavePhase::Numbering { current };
                    (save, SaveAction::Attributes(oid))
                } else {
                    save.give_up(Error::new("Table definition changed; run the query again"))
                }
            },
            (SavePhase::Numbering { current }, SaveReply::Attributes(ids)) => {
                assert(ids.deep_view() =~= ids@);
                let problem = match &save.source.query {
                    Some(query) => validate_projection(
                        &save.source.columns,
                        &**query,
                        &current,
                        &ids,
                    ),
                    None => Some("The server answered another question".to_owned()),
                };
                match problem {
                    Some(problem) => save.give_up(Error::new(problem.as_str())),
                    None => save.write_change(0),
                }
            },
            (SavePhase::Writing { index }, SaveReply::Affected(rows)) => {
                if rows == 1 {
                    if index >= save.changes.len() {
                        return save.write_change(index);
                    }
                    save.write_change(index + 1)
                } else {
                    save.give_up(
                        Error::new(
                            concat3(
                                "Row conflict: expected one matching row, found ",
                                decimal_text(rows).as_str(),
                                "; no changes saved",
                            ).as_str(),
                        ),
                    )
                }
            },
            (SavePhase::Committing, SaveReply::Completed) => {
                save.phase = SavePhase::Finished;
                (save, SaveAction::Committed)
            },
            (SavePhase::Committing, SaveReply::Failed { error, broken }) => {
                if broken {
                    let reason = error.outermost_text();
                    save.fail(Error::unknown_commit(reason))
                } else {
                    save.give_up(error)
                }
            },
            (SavePhase::RollingBack { error }, _) => save.fail(
                error.context("Batch not committed"),
            ),
            (SavePhase::Finished, _) => save.fail(
                Error::new("The server answered another question"),
            ),
            (_, SaveReply::Failed { error, broken: _ }) => save.give_up(error),
            _ => save.give_up(Error::new("The server answered another question")),
        }
    }
}

proof fn lemma_writes_so_far(start: SaveView, replies: Seq<SaveReplyView>)
    requires
        start.phase is Beginning,
        start.changes.len() <= usize::MAX,
    ensures
        start.after(replies).source == start.source,
        start.after(replies).changes == start.changes,
        match start.after(replies).phase {
            SavePhaseView::Beginning => replies.len() == 0,
            SavePhaseView::Writing { index } => index < start.changes.len() && index
                <= replies.len() && forall|k: int|
                replies.len() - index <= k < replies.len() ==> #[trigger] replies[k]
                    == SaveReplyView::Affected(1),
            SavePhaseView::Committing => start.changes.len() <= replies.len() && forall|k: int|
                replies.len() - start.changes.len() <= k < replies.len() ==> #[trigger] replies[k]
                    == SaveReplyView::Affected(1),
            _ => true,
        },
    decreases replies.len(),
{
    if replies.len() > 0 {
        let earlier = replies.drop_last();
        lemma_writes_so_far(start, earlier);
        let before = start.after(earlier);
        assert(forall|k: int| 0 <= k < earlier.len() ==> earlier[k] == replies[k]);
    }
}

/// COMMIT is requested only behind one answer per change, each of which says that exactly one row was
/// affected.
pub proof fn commits_only_after_every_change(
    source: TableResultSourceView,
    changes: Seq<RowChangeView>,
    replies: Seq<SaveReplyView>,
)
    requires
        changes.len() <= usize::MAX,
        replies.len() > 0,
        save_start(source, changes).0.asked(replies) == SaveActionView::Batch("COMMIT"@),
    ensures
        0 < changes.len() <= replies.len(),
        forall|k: int|
            replies.len() - changes.len() <= k < replies.len() ==> #[trigger] replies[k]
                == SaveReplyView::Affected(1),
{
    let start = save_start(source, changes).0;
    let earlier = replies.drop_last();
    if start.phase is Beginning {
        lemma_writes_so_far(start, earlier);
        assert(forall|k: int| 0 <= k < earlier.len() ==> earlier[k] == replies[k]);
        reveal_strlit("COMMIT");
        reveal_strlit("LOCK TABLE ");
        let lock = "LOCK TABLE "@ + source.table.qualified() + " IN ROW EXCLUSIVE MODE"@;
        assert(lock[0] == 'L');
        assert("COMMIT"@[0] == 'C');
        assert(lock != "COMMIT"@);
    } else {
        lemma_finished_stays(start, earlier);
    }
}

proof fn lemma_finished_stays(start: SaveView, replies: Seq<SaveReplyView>)
    requires
        start.phase is Finished,
    ensures
        start.after(replies).phase is Finished,
    decreases replies.len(),
{
    if replies.len() > 0 {
        lemma_finished_stays(start, replies.drop_last());
    }
}

/// A save reports success only when the server completed the COMMIT.
pub proof fn success_means_committed(save: SaveView, reply: SaveReplyView)
    ensures
        save.step(reply).1 is Committed ==> save.phase is Committing && reply is Completed,
{
}

/// A failure before COMMIT, or one of COMMIT itself over an intact connection, rolls the transaction
/// back; the outcome is reported as unknown only where the connection broke during COMMIT.
pub proof fn failures_roll_back(save: SaveView, error: ErrorView, broken: bool)
    requires
        !(save.phase is Beginning),
        !(save.phase is RollingBack),
        !(save.phase is Finished),
    ensures
        ({
            let action = save.step(SaveReplyView::Failed { error, broken }).1;
            if save.phase is Committing && broken {
                action == SaveActionView::Failed(unknown_commit_error(error.outermost()))
            } else {
                action is Rollback
            }
        }),
{
}

/// Behind a rollback the batch is reported as not committed, whatever came of the rollback.
pub proof fn rolled_back_batches_fail(save: SaveView, error: ErrorView, reply: SaveReplyView)
    requires
        save.phase == (SavePhaseView::RollingBack { error }),
    ensures
        save.step(reply).1 == SaveActionView::Failed(error.in_context("Batch not committed"@)),
{
}

/// Only batches of tables reach the server, and no empty ones.
pub proof fn only_tables_are_written(source: TableResultSourceView, changes: Seq<RowChangeView>)
    ensures
        if changes.len() > 0 && source.table.writable() {
            save_start(source, changes).1 == SaveActionView::Batch("BEGIN"@)
        } else {
            save_start(source, changes).1 is Failed
        },
{
}

} // verus!
