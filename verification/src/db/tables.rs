//! Table previews, and batches that are saved to a table. Both work on connections of their own and never
//! borrow the transaction of a SQL session.
use vstd::prelude::*;
use vstd::string::*;

use crate::db::changes::{RowChange, RowChangeView};
use crate::db::paging::{preview_statement, Cursor, CursorView, PageRefView};
use crate::db::{
    outcome_view, plain_error, Error, ErrorView, Output, OutputView, QueryResult, QueryResultView,
    ResultColumn, ResultColumnView, TableRef, TableRefView, TableResultSource,
    TableResultSourceView,
};
use crate::storage::{ConnectionProfile, ConnectionProfileView};
use crate::value::Value;

verus! {

/// How far a table job has come.
pub enum JobPhase {
    /// The result cursor of the SQL session is being closed.
    Releasing,
    /// The earlier preview is forgotten before a connection is opened.
    Replacing,
    Connecting,
    Saving,
    /// The earlier preview is forgotten before a new one starts.
    Forgetting,
    Reading,
    Opening {
        columns: Vec<ResultColumn>,
        cursor: Cursor,
    },
    Fetching {
        columns: Vec<ResultColumn>,
        cursor: Cursor,
    },
    Showing,
    Finished,
}

/// What a `JobPhase` denotes.
pub ghost enum JobPhaseView {
    Releasing,
    Replacing,
    Connecting,
    Saving,
    Forgetting,
    Reading,
    Opening {
        columns: Seq<ResultColumnView>,
        cursor: CursorView,
    },
    Fetching {
        columns: Seq<ResultColumnView>,
        cursor: CursorView,
    },
    Showing,
    Finished,
}

impl View for JobPhase {
    type V = JobPhaseView;

    open spec fn view(&self) -> JobPhaseView {
        match self {
            JobPhase::Releasing => JobPhaseView::Releasing,
            JobPhase::Replacing => JobPhaseView::Replacing,
            JobPhase::Connecting => JobPhaseView::Connecting,
            JobPhase::Saving => JobPhaseView::Saving,
            JobPhase::Forgetting => JobPhaseView::Forgetting,
            JobPhase::Reading => JobPhaseView::Reading,
            JobPhase::Opening { columns, cursor } => JobPhaseView::Opening {
                columns: columns.deep_view(),
                cursor: cursor@,
            },
            JobPhase::Fetching { columns, cursor } => JobPhaseView::Fetching {
                columns: columns.deep_view(),
                cursor: cursor@,
            },
            JobPhase::Showing => JobPhaseView::Showing,
            JobPhase::Finished => JobPhaseView::Finished,
        }
    }
}

/// A preview of a table, which may follow a batch that is saved to it.
pub struct TableJob {
    pub profile: ConnectionProfile,
    pub password: Option<String>,
    pub table: TableRef,
    /// The rows to save first, where there are any.
    pub batch: Option<(TableResultSource, Vec<RowChange>)>,
    /// Whether the batch is committed.
    pub committed: bool,
    /// The id of the cursor of the preview.
    pub cursor_id: u64,
    pub phase: JobPhase,
}

/// What a `TableJob` denotes.
pub ghost struct TableJobView {
    pub profile: ConnectionProfileView,
    pub password: Option<Seq<char>>,
    pub table: TableRefView,
    pub batch: Option<(TableResultSourceView, Seq<RowChangeView>)>,
    pub committed: bool,
    pub cursor_id: u64,
    pub phase: JobPhaseView,
}

impl View for TableJob {
    type V = TableJobView;

    open spec fn view(&self) -> TableJobView {
        TableJobView {
            profile: self.profile@,
            password: self.password.deep_view(),
            table: self.table@,
            batch: self.batch.deep_view(),
            committed: self.committed,
            cursor_id: self.cursor_id,
            phase: self.phase@,
        }
    }
}

/// What a table job asks for.
pub enum JobAction {
    /// Close the result cursor of the SQL session on the table's database, never user work.
    Release,
    /// Forget the preview of the table's database, with its connection.
    Forget,
    /// Open a connection for this job.
    Connect {
        profile: ConnectionProfile,
        password: Option<String>,
        database: String,
    },
    Save {
        source: TableResultSource,
        changes: Vec<RowChange>,
    },
    /// Read the columns of the table from the catalog.
    Columns(TableRef),
    Open {
        commands: Vec<String>,
    },
    Fetch {
        sql: String,
    },
    /// Keep the preview, as far as it continues, and report how it shows.
    Show {
        columns: Vec<ResultColumn>,
        cursor: Cursor,
        result: QueryResult,
    },
    Done(Result<Output, Error>),
}

/// What a `JobAction` denotes.
pub ghost enum JobActionView {
    Release,
    Forget,
    Connect {
        profile: ConnectionProfileView,
        password: Option<Seq<char>>,
        database: Seq<char>,
    },
    Save {
        source: TableResultSourceView,
        changes: Seq<RowChangeView>,
    },
    Columns(TableRefView),
    Open {
        commands: Seq<Seq<char>>,
    },
    Fetch {
        sql: Seq<char>,
    },
    Show {
        columns: Seq<ResultColumnView>,
        cursor: CursorView,
        result: QueryResultView,
    },
    Done(Result<OutputView, ErrorView>),
}

impl View for JobAction {
    type V = JobActionView;

    open spec fn view(&self) -> JobActionView {
        match self {
            JobAction::Release => JobActionView::Release,
            JobAction::Forget => JobActionView::Forget,
            JobAction::Connect { profile, password, database } => JobActionView::Connect {
                profile: profile@,
                password: password.deep_view(),
                database: database@,
            },
            JobAction::Save { source, changes } => JobActionView::Save {
                source: source@,
                changes: changes.deep_view(),
            },
            JobAction::Columns(table) => JobActionView::Columns(table@),
            JobAction::Open { commands } => JobActionView::Open { commands: commands.deep_view() },
            JobAction::Fetch { sql } => JobActionView::Fetch { sql: sql@ },
            JobAction::Show { columns, cursor, result } => JobActionView::Show {
                columns: columns.deep_view(),
                cursor: cursor@,
                result: result@,
            },
            JobAction::Done(outcome) => JobActionView::Done(outcome_view(*outcome)),
        }
    }
}

/// What came of an action.
pub enum JobEvent {
    Released(Option<Error>),
    Forgotten,
    Connected(Option<Error>),
    Saved(Option<Error>),
    Columns(Result<Vec<ResultColumn>, Error>),
    Opened(Option<Error>),
    Rows(Result<QueryResult, Error>),
    Shown(QueryResult),
}

/// What a `JobEvent` denotes.
pub ghost enum JobEventView {
    Released(Option<ErrorView>),
    Forgotten,
    Connected(Option<ErrorView>),
    Saved(Option<ErrorView>),
    Columns(Result<Seq<ResultColumnView>, ErrorView>),
    Opened(Option<ErrorView>),
    Rows(Result<QueryResultView, ErrorView>),
    Shown(QueryResultView),
}

impl View for JobEvent {
    type V = JobEventView;

    open spec fn view(&self) -> JobEventView {
        match self {
            JobEvent::Released(failure) => JobEventView::Released(failure.deep_view()),
            JobEvent::Forgotten => JobEventView::Forgotten,
            JobEvent::Connected(failure) => JobEventView::Connected(failure.deep_view()),
            JobEvent::Saved(failure) => JobEventView::Saved(failure.deep_view()),
            JobEvent::Columns(outcome) => JobEventView::Columns(outcome_view(*outcome)),
            JobEvent::Opened(failure) => JobEventView::Opened(failure.deep_view()),
            JobEvent::Rows(outcome) => JobEventView::Rows(outcome_view(*outcome)),
            JobEvent::Shown(result) => JobEventView::Shown(result@),
        }
    }
}

/// A state of a job and the action that it asks for.
pub type JobStepView = (TableJobView, JobActionView);

impl TableJobView {
    pub open spec fn ask(self, phase: JobPhaseView, action: JobActionView) -> JobStepView {
        (TableJobView { phase, ..self }, action)
    }

    /// How the job ends with a preview, or without one. A committed batch counts as saved, whatever came of
    /// the preview behind it.
    pub open spec fn outcome(self, shown: Result<QueryResultView, ErrorView>) -> Result<
        OutputView,
        ErrorView,
    > {
        if self.committed {
            Ok(OutputView::Saved(shown))
        } else {
            match shown {
                Ok(result) => Ok(OutputView::Result(result)),
                Err(error) => Err(error),
            }
        }
    }

    pub open spec fn end(self, shown: Result<QueryResultView, ErrorView>) -> JobStepView {
        self.ask(JobPhaseView::Finished, JobActionView::Done(self.outcome(shown)))
    }

    /// Goes on where nothing failed.
    pub open spec fn unless(self, failure: Option<ErrorView>, next: JobStepView) -> JobStepView {
        match failure {
            Some(error) => self.end(Err(error)),
            None => next,
        }
    }

    pub open spec fn connecting(self) -> JobStepView {
        self.ask(
            JobPhaseView::Connecting,
            JobActionView::Connect {
                profile: self.profile,
                password: self.password,
                database: self.table.database,
            },
        )
    }

    /// Starts the preview on the connection at hand.
    pub open spec fn previewing(self) -> JobStepView {
        self.ask(JobPhaseView::Forgetting, JobActionView::Forget)
    }

    /// The cursor of the preview, in a read-only transaction of its own.
    pub open spec fn cursor(self) -> CursorView {
        CursorView {
            page: PageRefView {
                id: self.cursor_id,
                profile_id: self.table.profile_id,
                database: self.table.database,
                preview: true,
            },
            owns_transaction: true,
        }
    }

    /// Takes what came of an action. An event that does not answer the action counts as a failure.
    pub open spec fn step(self, event: JobEventView) -> JobStepView {
        let next = TableJobView { phase: JobPhaseView::Finished, ..self };
        match (self.phase, event) {
            (JobPhaseView::Releasing, JobEventView::Released(failure)) => next.unless(
                failure,
                match self.batch {
                    Some(_) => next.connecting(),
                    None => next.ask(JobPhaseView::Replacing, JobActionView::Forget),
                },
            ),
            (JobPhaseView::Replacing, JobEventView::Forgotten) => next.connecting(),
            (JobPhaseView::Connecting, JobEventView::Connected(failure)) => next.unless(
                failure,
                match self.batch {
                    Some((source, changes)) => next.ask(
                        JobPhaseView::Saving,
                        JobActionView::Save { source, changes },
                    ),
                    None => next.previewing(),
                },
            ),
            (JobPhaseView::Saving, JobEventView::Saved(failure)) => next.unless(
                failure,
                TableJobView { committed: true, ..next }.previewing(),
            ),
            (JobPhaseView::Forgetting, JobEventView::Forgotten) => next.ask(
                JobPhaseView::Reading,
                JobActionView::Columns(self.table),
            ),
            (JobPhaseView::Reading, JobEventView::Columns(outcome)) => match outcome {
                Ok(columns) => next.ask(
                    JobPhaseView::Opening { columns, cursor: self.cursor() },
                    JobActionView::Open {
                        commands: self.cursor().opening(
                            "SELECT * FROM "@ + self.table.qualified(),
                        ),
                    },
                ),
                Err(error) => next.end(Err(error)),
            },
            (JobPhaseView::Opening { columns, cursor }, JobEventView::Opened(failure)) =>
                next.unless(
                failure,
                next.ask(
                    JobPhaseView::Fetching { columns, cursor },
                    JobActionView::Fetch { sql: cursor.fetching() },
                ),
            ),
            (JobPhaseView::Fetching { columns, cursor }, JobEventView::Rows(outcome)) =>
            match outcome {
                Ok(rows) => next.ask(
                    JobPhaseView::Showing,
                    JobActionView::Show { columns, cursor, result: cursor.fetched(rows) },
                ),
                Err(error) => next.end(Err(error)),
            },
            (JobPhaseView::Showing, JobEventView::Shown(result)) => next.end(Ok(result)),
            _ => next.end(Err(plain_error("The server answered another question"@))),
        }
    }

    /// The action that the job asks for behind a run of events; none behind no event.
    pub open spec fn asked(self, events: Seq<JobEventView>) -> Option<JobActionView> {
        if events.len() == 0 {
            None
        } else {
            Some(self.after(events.drop_last()).step(events.last()).1)
        }
    }

    /// The job behind a run of events.
    pub open spec fn after(self, events: Seq<JobEventView>) -> TableJobView
        decreases events.len(),
    {
        if events.len() == 0 {
            self
        } else {
            self.after(events.drop_last()).step(events.last()).0
        }
    }
}

/// How a preview starts.
pub open spec fn preview_job(
    profile: ConnectionProfileView,
    password: Option<Seq<char>>,
    table: TableRefView,
    cursor_id: u64,
) -> TableJobView {
    TableJobView {
        profile,
        password,
        table,
        batch: None,
        committed: false,
        cursor_id,
        phase: JobPhaseView::Releasing,
    }
}

/// How a save starts.
pub open spec fn save_job(
    profile: ConnectionProfileView,
    password: Option<Seq<char>>,
    source: TableResultSourceView,
    changes: Seq<RowChangeView>,
    cursor_id: u64,
) -> TableJobView {
    TableJobView {
        batch: Some((source, changes)),
        ..preview_job(profile, password, source.table, cursor_id)
    }
}

impl TableJob {
    /// Starts to preview a table.
    pub fn preview(
        profile: ConnectionProfile,
        password: Option<String>,
        table: TableRef,
        cursor_id: u64,
    ) -> (started: (TableJob, JobAction))
        ensures
            started.0@ == preview_job(profile@, password.deep_view(), table@, cursor_id),
            started.1@ == JobActionView::Release,
    {
        (
            TableJob {
                profile,
                password,
                table,
                batch: None,
                committed: false,
                cursor_id,
                phase: JobPhase::Releasing,
            },
            JobAction::Release,
        )
    }

    /// Starts to save a batch to its table, and to preview the table behind it.
    pub fn save(
        profile: ConnectionProfile,
        password: Option<String>,
        source: TableResultSource,
        changes: Vec<RowChange>,
        cursor_id: u64,
    ) -> (started: (TableJob, JobAction))
        ensures
            started.0@ == save_job(
                profile@,
                password.deep_view(),
                source@,
                changes.deep_view(),
                cursor_id,
            ),
            started.1@ == JobActionView::Release,
    {
        let table = source.table.duplicate();
        (
            TableJob {
                profile,
                password,
                table,
                batch: Some((source, changes)),
                committed: false,
                cursor_id,
                phase: JobPhase::Releasing,
            },
            JobAction::Release,
        )
    }

    fn ask(self, phase: JobPhase, action: JobAction) -> (next: (TableJob, JobAction))
        ensures
            (next.0@, next.1@) == self@.ask(phase@, action@),
    {
        let mut job = self;
        job.phase = phase;
        (job, action)
    }

    fn end(self, shown: Result<QueryResult, Error>) -> (next: (TableJob, JobAction))
        ensures
            (next.0@, next.1@) == self@.end(outcome_view(shown)),
    {
        let outcome = if self.committed {
            Ok(Output::Saved(shown))
        } else {
            match shown {
                Ok(result) => Ok(Output::Result(result)),
                Err(error) => Err(error),
            }
        };
        self.ask(JobPhase::Finished, JobAction::Done(outcome))
    }

    fn connect(self) -> (next: (TableJob, JobAction))
        ensures
            (next.0@, next.1@) == self@.connecting(),
    {
        let profile = self.profile.duplicate();
        let password = self.password.duplicate();
        let database = self.table.database.clone();
        self.ask(JobPhase::Connecting, JobAction::Connect { profile, password, database })
    }

    fn start_preview(self) -> (next: (TableJob, JobAction))
        ensures
            (next.0@, next.1@) == self@.previewing(),
    {
        self.ask(JobPhase::Forgetting, JobAction::Forget)
    }

    /// Takes what came of an action, and says which comes next.
    pub fn step(self, event: JobEvent) -> (next: (TableJob, JobAction))
        ensures
            (next.0@, next.1@) == self@.step(event@),
    {
        let mut job = self;
        let mut phase = JobPhase::Finished;
        std::mem::swap(&mut job.phase, &mut phase);
        match (phase, event) {
            (JobPhase::Releasing, JobEvent::Released(failure)) => match failure {
                Some(error) => job.end(Err(error)),
                None => if job.batch.is_some() {
                    job.connect()
                } else {
                    job.ask(JobPhase::Replacing, JobAction::Forget)
                },
            },
            (JobPhase::Replacing, JobEvent::Forgotten) => job.connect(),
            (JobPhase::Connecting, JobEvent::Connected(failure)) => match failure {
                Some(error) => job.end(Err(error)),
                None => {
                    let batch = job.batch.duplicate();
                    match batch {
                        Some((source, changes)) => job.ask(
                            JobPhase::Saving,
                            JobAction::Save { source, changes },
                        ),
                        None => job.start_preview(),
                    }
                },
            },
            (JobPhase::Saving, JobEvent::Saved(failure)) => match failure {
                Some(error) => job.end(Err(error)),
                None => {
                    job.committed = true;
                    job.start_preview()
                },
            },
            (JobPhase::Forgetting, JobEvent::Forgotten) => {
                let table = job.table.duplicate();
                job.ask(JobPhase::Reading, JobAction::Columns(table))
            },
            (JobPhase::Reading, JobEvent::Columns(outcome)) => match outcome {
                Ok(columns) => {
                    let cursor = Cursor::new(
                        job.cursor_id,
                        job.table.profile_id.as_str(),
                        job.table.database.as_str(),
                        true,
                        true,
                    );
                    let commands = cursor.open(preview_statement(&job.table).as_str());
                    job.ask(JobPhase::Opening { columns, cursor }, JobAction::Open { commands })
                },
                Err(error) => job.end(Err(error)),
            },
            (JobPhase::Opening { columns, cursor }, JobEvent::Opened(failure)) => match failure {
                Some(error) => job.end(Err(error)),
                None => {
                    let sql = cursor.fetch_command();
                    job.ask(JobPhase::Fetching { columns, cursor }, JobAction::Fetch { sql })
                },
            },
            (JobPhase::Fetching { columns, cursor }, JobEvent::Rows(outcome)) => match outcome {
                Ok(rows) => {
                    let result = cursor.fetch(rows);
                    job.ask(JobPhase::Showing, JobAction::Show { columns, cursor, result })
                },
                Err(error) => job.end(Err(error)),
            },
            (JobPhase::Showing, JobEvent::Shown(result)) => job.end(Ok(result)),
            _ => job.end(Err(Error::new("The server answered another question"))),
        }
    }
}

proof fn lemma_batch_stays(start: TableJobView, events: Seq<JobEventView>)
    ensures
        start.after(events).batch == start.batch,
    decreases events.len(),
{
    if events.len() > 0 {
        lemma_batch_stays(start, events.drop_last());
    }
}

/// A preview never writes.
pub proof fn previews_never_write(
    profile: ConnectionProfileView,
    password: Option<Seq<char>>,
    table: TableRefView,
    cursor_id: u64,
    events: Seq<JobEventView>,
)
    ensures
        !(preview_job(profile, password, table, cursor_id).asked(events) matches Some(action)
            && action is Save),
{
    let start = preview_job(profile, password, table, cursor_id);
    if events.len() > 0 {
        lemma_batch_stays(start, events.drop_last());
    }
}

/// Once its batch is committed, a job ends as saved, whatever comes of the preview behind it.
pub proof fn committed_batches_are_reported_as_saved(job: TableJobView, event: JobEventView)
    requires
        job.committed,
        job.step(event).1 is Done,
    ensures
        job.step(event).1->Done_0 matches Ok(output) && output is Saved,
        job.step(event).0.committed,
{
}

/// A job reports a batch as saved only behind a save that succeeded.
pub proof fn saved_means_saved(
    profile: ConnectionProfileView,
    password: Option<Seq<char>>,
    source: TableResultSourceView,
    changes: Seq<RowChangeView>,
    cursor_id: u64,
    events: Seq<JobEventView>,
)
    requires
        save_job(profile, password, source, changes, cursor_id).asked(events) matches Some(
            JobActionView::Done(Ok(OutputView::Saved(_))),
        ),
    ensures
        events.contains(JobEventView::Saved(None)),
{
    let start = save_job(profile, password, source, changes, cursor_id);
    lemma_committed_behind_a_save(start, events.drop_last());
    let front = events.drop_last();
    assert(start.after(front).committed);
    let k = choose|k: int| 0 <= k < front.len() && front[k] == JobEventView::Saved(None);
    assert(events[k] == JobEventView::Saved(None));
}

proof fn lemma_committed_behind_a_save(start: TableJobView, events: Seq<JobEventView>)
    requires
        !start.committed,
    ensures
        start.after(events).committed ==> events.contains(JobEventView::Saved(None)),
    decreases events.len(),
{
    if events.len() > 0 {
        let front = events.drop_last();
        lemma_committed_behind_a_save(start, front);
        if start.after(events).committed {
            if start.after(front).committed {
                let k = choose|k: int| 0 <= k < front.len() && front[k] == JobEventView::Saved(None);
                assert(events[k] == JobEventView::Saved(None));
            } else {
                assert(events[events.len() - 1] == JobEventView::Saved(None));
            }
        }
    }
}

} // verus!
