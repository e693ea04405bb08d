//! Database values: tables, results, requests and replies, and how failures read.
use vstd::prelude::*;
use vstd::string::*;

use crate::db::changes::{RowChange, RowChangeView};
use crate::db::paging::{PageRef, PageRefView};
use crate::db::query_edits::{QuerySource, QuerySourceView};
use crate::db::sessions::SessionState;
use crate::storage::{ConnectionProfile, ConnectionProfileView};
use crate::text::{concat, concat3, decimal, decimal_text, join, joined, replace, replaced};
use crate::value::Value;

pub mod changes;
pub mod connect;
pub mod paging;
pub mod query;
pub mod query_edits;
pub mod save;
pub mod sessions;
pub mod syntax;
pub mod tables;

verus! {

/// A table node carries enough context to reconnect and preview it.
#[derive(Debug, PartialEq, Eq)]
pub struct TableRef {
    pub profile_id: String,
    pub database: String,
    pub schema: String,
    pub name: String,
    pub kind: String,
}

/// What a `TableRef` denotes.
pub ghost struct TableRefView {
    pub profile_id: Seq<char>,
    pub database: Seq<char>,
    pub schema: Seq<char>,
    pub name: Seq<char>,
    pub kind: Seq<char>,
}

impl DeepView for TableRef {
    type V = TableRefView;

    open spec fn deep_view(&self) -> TableRefView {
        TableRefView {
            profile_id: self.profile_id@,
            database: self.database@,
            schema: self.schema@,
            name: self.name@,
            kind: self.kind@,
        }
    }
}

impl Clone for TableRef {
    fn clone(&self) -> (copy: TableRef)
        ensures
            copy@ == self@,
    {
        self.duplicate()
    }
}

impl View for TableRef {
    type V = TableRefView;

    open spec fn view(&self) -> TableRefView {
        self.deep_view()
    }
}

impl Value for TableRef {
    fn duplicate(&self) -> (copy: TableRef) {
        TableRef {
            profile_id: self.profile_id.duplicate(),
            database: self.database.duplicate(),
            schema: self.schema.duplicate(),
            name: self.name.duplicate(),
            kind: self.kind.duplicate(),
        }
    }

    fn same(&self, other: &TableRef) -> (same: bool) {
        self.profile_id.same(&other.profile_id)
            && self.database.same(&other.database)
            && self.schema.same(&other.schema)
            && self.name.same(&other.name)
            && self.kind.same(&other.kind)
    }
}

/// Database metadata required to validate and encode one editable column.
#[derive(Debug, PartialEq, Eq)]
pub struct ResultColumn {
    pub name: String,
    pub data_type: String,
    pub editable: bool,
    /// Identity and generated columns must use their server-generated insert values.
    pub insertable: bool,
    pub primary_key: bool,
}

/// What a `ResultColumn` denotes.
pub ghost struct ResultColumnView {
    pub name: Seq<char>,
    pub data_type: Seq<char>,
    pub editable: bool,
    pub insertable: bool,
    pub primary_key: bool,
}

impl DeepView for ResultColumn {
    type V = ResultColumnView;

    open spec fn deep_view(&self) -> ResultColumnView {
        ResultColumnView {
            name: self.name@,
            data_type: self.data_type@,
            editable: self.editable,
            insertable: self.insertable,
            primary_key: self.primary_key,
        }
    }
}

impl Clone for ResultColumn {
    fn clone(&self) -> (copy: ResultColumn)
        ensures
            copy@ == self@,
    {
        self.duplicate()
    }
}

impl View for ResultColumn {
    type V = ResultColumnView;

    open spec fn view(&self) -> ResultColumnView {
        self.deep_view()
    }
}

impl Value for ResultColumn {
    fn duplicate(&self) -> (copy: ResultColumn) {
        ResultColumn {
            name: self.name.duplicate(),
            data_type: self.data_type.duplicate(),
            editable: self.editable,
            insertable: self.insertable,
            primary_key: self.primary_key,
        }
    }

    fn same(&self, other: &ResultColumn) -> (same: bool) {
        self.name.same(&other.name)
            && self.data_type.same(&other.data_type)
            && self.editable == other.editable
            && self.insertable == other.insertable
            && self.primary_key == other.primary_key
    }
}

/// The table behind a result, kept for safe row updates.
#[derive(Debug, PartialEq, Eq)]
pub struct TableResultSource {
    pub table: TableRef,
    pub columns: Vec<ResultColumn>,
    /// The custom query that produced the rows; none for a direct table preview.
    pub query: Option<Box<QuerySource>>,
}

/// What a `TableResultSource` denotes.
pub ghost struct TableResultSourceView {
    pub table: TableRefView,
    pub columns: Seq<ResultColumnView>,
    pub query: Option<QuerySourceView>,
}

impl DeepView for TableResultSource {
    type V = TableResultSourceView;

    open spec fn deep_view(&self) -> TableResultSourceView {
        TableResultSourceView {
            table: self.table.deep_view(),
            columns: self.columns.deep_view(),
            query: self.query.deep_view(),
        }
    }
}

impl Clone for TableResultSource {
    fn clone(&self) -> (copy: TableResultSource)
        ensures
            copy@ == self@,
    {
        self.duplicate()
    }
}

impl View for TableResultSource {
    type V = TableResultSourceView;

    open spec fn view(&self) -> TableResultSourceView {
        self.deep_view()
    }
}

impl Value for TableResultSource {
    fn duplicate(&self) -> (copy: TableResultSource) {
        TableResultSource {
            table: self.table.duplicate(),
            columns: self.columns.duplicate(),
            query: self.query.duplicate(),
        }
    }

    fn same(&self, other: &TableResultSource) -> (same: bool) {
        self.table.same(&other.table)
            && self.columns.same(&other.columns)
            && self.query.same(&other.query)
    }
}

/// The bounded table model that the results pane shows.
#[derive(Debug, PartialEq, Eq)]
pub struct QueryResult {
    pub columns: Vec<String>,
    pub rows: Vec<Vec<Option<String>>>,
    pub status: String,
    pub truncated: bool,
    pub source: Option<TableResultSource>,
    /// A continuation identifies one live cursor, never SQL to execute again.
    pub page: Option<PageRef>,
    /// Why the rows of a custom query cannot be edited.
    pub read_only_reason: Option<String>,
}

/// What a `QueryResult` denotes.
pub ghost struct QueryResultView {
    pub columns: Seq<Seq<char>>,
    pub rows: Seq<Seq<Option<Seq<char>>>>,
    pub status: Seq<char>,
    pub truncated: bool,
    pub source: Option<TableResultSourceView>,
    pub page: Option<PageRefView>,
    pub read_only_reason: Option<Seq<char>>,
}

impl DeepView for QueryResult {
    type V = QueryResultView;

    open spec fn deep_view(&self) -> QueryResultView {
        QueryResultView {
            columns: self.columns.deep_view(),
            rows: self.rows.deep_view(),
            status: self.status@,
            truncated: self.truncated,
            source: self.source.deep_view(),
            page: self.page.deep_view(),
            read_only_reason: self.read_only_reason.deep_view(),
        }
    }
}

impl Clone for QueryResult {
    fn clone(&self) -> (copy: QueryResult)
        ensures
            copy@ == self@,
    {
        self.duplicate()
    }
}

impl View for QueryResult {
    type V = QueryResultView;

    open spec fn view(&self) -> QueryResultView {
        self.deep_view()
    }
}

impl Value for QueryResult {
    fn duplicate(&self) -> (copy: QueryResult) {
        QueryResult {
            columns: self.columns.duplicate(),
            rows: self.rows.duplicate(),
            status: self.status.duplicate(),
            truncated: self.truncated,
            source: self.source.duplicate(),
            page: self.page.duplicate(),
            read_only_reason: self.read_only_reason.duplicate(),
        }
    }

    fn same(&self, other: &QueryResult) -> (same: bool) {
        self.columns.same(&other.columns)
            && self.rows.same(&other.rows)
            && self.status.same(&other.status)
            && self.truncated == other.truncated
            && self.source.same(&other.source)
            && self.page.same(&other.page)
            && self.read_only_reason.same(&other.read_only_reason)
    }
}

/// The result with no columns, rows, status or source.
pub open spec fn empty_result() -> QueryResultView {
    QueryResultView {
        columns: Seq::empty(),
        rows: Seq::empty(),
        status: Seq::empty(),
        truncated: false,
        source: None,
        page: None,
        read_only_reason: None,
    }
}

impl Default for QueryResult {
    fn default() -> (result: QueryResult)
        ensures
            result@ == empty_result(),
    {
        let result = QueryResult {
            columns: Vec::new(),
            rows: Vec::new(),
            status: String::new(),
            truncated: false,
            source: None,
            page: None,
            read_only_reason: None,
        };
        assert(result@.columns =~= Seq::empty());
        assert(result@.rows =~= Seq::empty());
        assert(result@.status =~= Seq::empty());
        result
    }
}

/// Requests carry a fixed target; SQL connections are owned by their session.
#[derive(PartialEq, Eq)]
pub enum Request {
    /// Lifecycle actions never silently replace a lost SQL session.
    Connect {
        profile: ConnectionProfile,
        database: String,
        reconnect: bool,
    },
    Disconnect {
        profile: ConnectionProfile,
        database: String,
    },
    Databases {
        profile: ConnectionProfile,
        password: Option<String>,
    },
    Schemas {
        profile: ConnectionProfile,
        password: Option<String>,
        database: String,
    },
    Tables {
        profile: ConnectionProfile,
        password: Option<String>,
        database: String,
        schema: String,
    },
    Preview {
        profile: ConnectionProfile,
        password: Option<String>,
        table: TableRef,
    },
    Query {
        profile: ConnectionProfile,
        database: String,
        sql: String,
    },
    SaveChanges {
        profile: ConnectionProfile,
        password: Option<String>,
        source: TableResultSource,
        changes: Vec<RowChange>,
    },
    FetchPage {
        page: PageRef,
    },
}

/// What a `Request` denotes.
pub ghost enum RequestView {
    Connect {
        profile: ConnectionProfileView,
        database: Seq<char>,
        reconnect: bool,
    },
    Disconnect {
        profile: ConnectionProfileView,
        database: Seq<char>,
    },
    Databases {
        profile: ConnectionProfileView,
        password: Option<Seq<char>>,
    },
    Schemas {
        profile: ConnectionProfileView,
        password: Option<Seq<char>>,
        database: Seq<char>,
    },
    Tables {
        profile: ConnectionProfileView,
        password: Option<Seq<char>>,
        database: Seq<char>,
        schema: Seq<char>,
    },
    Preview {
        profile: ConnectionProfileView,
        password: Option<Seq<char>>,
        table: TableRefView,
    },
    Query {
        profile: ConnectionProfileView,
        database: Seq<char>,
        sql: Seq<char>,
    },
    SaveChanges {
        profile: ConnectionProfileView,
        password: Option<Seq<char>>,
        source: TableResultSourceView,
        changes: Seq<RowChangeView>,
    },
    FetchPage {
        page: PageRefView,
    },
}

impl DeepView for Request {
    type V = RequestView;

    open spec fn deep_view(&self) -> RequestView {
        match self {
            Request::Connect { profile, database, reconnect } => RequestView::Connect {
                profile: profile.deep_view(),
                database: database@,
                reconnect: *reconnect,
            },
            Request::Disconnect { profile, database } => RequestView::Disconnect {
                profile: profile.deep_view(),
                database: database@,
            },
            Request::Databases { profile, password } => RequestView::Databases {
                profile: profile.deep_view(),
                password: password.deep_view(),
            },
            Request::Schemas { profile, password, database } => RequestView::Schemas {
                profile: profile.deep_view(),
                password: password.deep_view(),
                database: database@,
            },
            Request::Tables { profile, password, database, schema } => RequestView::Tables {
                profile: profile.deep_view(),
                password: password.deep_view(),
                database: database@,
                schema: schema@,
            },
            Request::Preview { profile, password, table } => RequestView::Preview {
                profile: profile.deep_view(),
                password: password.deep_view(),
                table: table.deep_view(),
            },
            Request::Query { profile, database, sql } => RequestView::Query {
                profile: profile.deep_view(),
                database: database@,
                sql: sql@,
            },
            Request::SaveChanges { profile, password, source, changes } => RequestView::SaveChanges {
                profile: profile.deep_view(),
                password: password.deep_view(),
                source: source.deep_view(),
                changes: changes.deep_view(),
            },
            Request::FetchPage { page } => RequestView::FetchPage { page: page.deep_view() },
        }
    }
}

impl Clone for Request {
    fn clone(&self) -> (copy: Request)
        ensures
            copy@ == self@,
    {
        self.duplicate()
    }
}

impl View for Request {
    type V = RequestView;

    open spec fn view(&self) -> RequestView {
        self.deep_view()
    }
}

impl Value for Request {
    fn duplicate(&self) -> (copy: Request) {
        match self {
            Request::Connect { profile, database, reconnect } => Request::Connect {
                profile: profile.duplicate(),
                database: database.duplicate(),
                reconnect: *reconnect,
            },
            Request::Disconnect { profile, database } => Request::Disconnect {
                profile: profile.duplicate(),
                database: database.duplicate(),
            },
            Request::Databases { profile, password } => Request::Databases {
                profile: profile.duplicate(),
                password: password.duplicate(),
            },
            Request::Schemas { profile, password, database } => Request::Schemas {
                profile: profile.duplicate(),
                password: password.duplicate(),
                database: database.duplicate(),
            },
            Request::Tables { profile, password, database, schema } => Request::Tables {
                profile: profile.duplicate(),
                password: password.duplicate(),
                database: database.duplicate(),
                schema: schema.duplicate(),
            },
            Request::Preview { profile, password, table } => Request::Preview {
                profile: profile.duplicate(),
                password: password.duplicate(),
                table: table.duplicate(),
            },
            Request::Query { profile, database, sql } => Request::Query {
                profile: profile.duplicate(),
                database: database.duplicate(),
                sql: sql.duplicate(),
            },
            Request::SaveChanges { profile, password, source, changes } => Request::SaveChanges {
                profile: profile.duplicate(),
                password: password.duplicate(),
                source: source.duplicate(),
                changes: changes.duplicate(),
            },
            Request::FetchPage { page } => Request::FetchPage { page: page.duplicate() },
        }
    }

    fn same(&self, other: &Request) -> (same: bool) {
        match (self, other) {
            (
                Request::Connect {
                    profile: profile_a,
                    database: database_a,
                    reconnect: reconnect_a,
                },
                Request::Connect {
                    profile: profile_b,
                    database: database_b,
                    reconnect: reconnect_b,
                },
            ) => {
                profile_a.same(profile_b)
                    && database_a.same(database_b)
                    && *reconnect_a == *reconnect_b
            },
            (
                Request::Disconnect { profile: profile_a, database: database_a },
                Request::Disconnect { profile: profile_b, database: database_b },
            ) => {
                profile_a.same(profile_b) && database_a.same(database_b)
            },
            (
                Request::Databases { profile: profile_a, password: password_a },
                Request::Databases { profile: profile_b, password: password_b },
            ) => {
                profile_a.same(profile_b) && password_a.same(password_b)
            },
            (
                Request::Schemas { profile: profile_a, password: password_a, database: database_a },
                Request::Schemas { profile: profile_b, password: password_b, database: database_b },
            ) => {
                profile_a.same(profile_b)
                    && password_a.same(password_b)
                    && database_a.same(database_b)
            },
            (
                Request::Tables {
                    profile: profile_a,
                    password: password_a,
                    database: database_a,
                    schema: schema_a,
                },
                Request::Tables {
                    profile: profile_b,
                    password: password_b,
                    database: database_b,
                    schema: schema_b,
                },
            ) => {
                profile_a.same(profile_b)
                    && password_a.same(password_b)
                    && database_a.same(database_b)
                    && schema_a.same(schema_b)
            },
            (
                Request::Preview { profile: profile_a, password: password_a, table: table_a },
                Request::Preview { profile: profile_b, password: password_b, table: table_b },
            ) => {
                profile_a.same(profile_b) && password_a.same(password_b) && table_a.same(table_b)
            },
            (
                Request::Query { profile: profile_a, database: database_a, sql: sql_a },
                Request::Query { profile: profile_b, database: database_b, sql: sql_b },
            ) => {
                profile_a.same(profile_b) && database_a.same(database_b) && sql_a.same(sql_b)
            },
            (
                Request::SaveChanges {
                    profile: profile_a,
                    password: password_a,
                    source: source_a,
                    changes: changes_a,
                },
                Request::SaveChanges {
                    profile: profile_b,
                    password: password_b,
                    source: source_b,
                    changes: changes_b,
                },
            ) => {
                profile_a.same(profile_b)
                    && password_a.same(password_b)
                    && source_a.same(source_b)
                    && changes_a.same(changes_b)
            },
            (Request::FetchPage { page: page_a }, Request::FetchPage { page: page_b }) => {
                page_a.same(page_b)
            },
            _ => false,
        }
    }
}

/// A confirmed cancellation, as opposed to an unknown write outcome.
#[derive(Clone, Copy, Debug, PartialEq, Eq, Structural)]
pub struct Cancelled;

impl Cancelled {
    /// How the cancellation reads.
    pub fn text(&self) -> (text: &'static str)
        ensures
            text@ == "Database operation cancelled"@,
    {
        "Database operation cancelled"
    }
}

/// A lost COMMIT acknowledgement; retrying inserts after it can duplicate data.
#[derive(Debug, PartialEq, Eq)]
pub struct UnknownCommit {
    /// The outermost description of what was lost.
    pub reason: String,
}

/// What a `UnknownCommit` denotes.
pub ghost struct UnknownCommitView {
    pub reason: Seq<char>,
}

impl DeepView for UnknownCommit {
    type V = UnknownCommitView;

    open spec fn deep_view(&self) -> UnknownCommitView {
        UnknownCommitView {
            reason: self.reason@,
        }
    }
}

impl Clone for UnknownCommit {
    fn clone(&self) -> (copy: UnknownCommit)
        ensures
            copy@ == self@,
    {
        self.duplicate()
    }
}

impl View for UnknownCommit {
    type V = UnknownCommitView;

    open spec fn view(&self) -> UnknownCommitView {
        self.deep_view()
    }
}

impl Value for UnknownCommit {
    fn duplicate(&self) -> (copy: UnknownCommit) {
        UnknownCommit {
            reason: self.reason.duplicate(),
        }
    }

    fn same(&self, other: &UnknownCommit) -> (same: bool) {
        self.reason.same(&other.reason)
    }
}

impl UnknownCommitView {
    /// How the failure reads.
    pub open spec fn message(self) -> Seq<char> {
        "Save outcome is unknown; refresh and verify the table before making more changes: "@
            + self.reason
    }
}

impl UnknownCommit {
    /// Keeps the recovery instruction visible wherever the failure is shown.
    pub fn text(&self) -> (text: String)
        ensures
            text@ == self@.message(),
    {
        concat(
            "Save outcome is unknown; refresh and verify the table before making more changes: ",
            self.reason.as_str(),
        )
    }
}

/// Where in the SQL text an error was found.
#[derive(Debug, PartialEq, Eq)]
pub enum ErrorPosition {
    Original(u32),
    Internal {
        position: u32,
        query: String,
    },
}

/// What a `ErrorPosition` denotes.
pub ghost enum ErrorPositionView {
    Original(u32),
    Internal {
        position: u32,
        query: Seq<char>,
    },
}

impl DeepView for ErrorPosition {
    type V = ErrorPositionView;

    open spec fn deep_view(&self) -> ErrorPositionView {
        match self {
            ErrorPosition::Original(value) => ErrorPositionView::Original(*value),
            ErrorPosition::Internal { position, query } => ErrorPositionView::Internal {
                position: *position,
                query: query@,
            },
        }
    }
}

impl Clone for ErrorPosition {
    fn clone(&self) -> (copy: ErrorPosition)
        ensures
            copy@ == self@,
    {
        self.duplicate()
    }
}

impl View for ErrorPosition {
    type V = ErrorPositionView;

    open spec fn view(&self) -> ErrorPositionView {
        self.deep_view()
    }
}

impl Value for ErrorPosition {
    fn duplicate(&self) -> (copy: ErrorPosition) {
        match self {
            ErrorPosition::Original(value) => ErrorPosition::Original(*value),
            ErrorPosition::Internal { position, query } => ErrorPosition::Internal {
                position: *position,
                query: query.duplicate(),
            },
        }
    }

    fn same(&self, other: &ErrorPosition) -> (same: bool) {
        match (self, other) {
            (ErrorPosition::Original(value_a), ErrorPosition::Original(value_b)) => {
                *value_a == *value_b
            },
            (
                ErrorPosition::Internal { position: position_a, query: query_a },
                ErrorPosition::Internal { position: position_b, query: query_b },
            ) => {
                *position_a == *position_b && query_a.same(query_b)
            },
            _ => false,
        }
    }
}

/// A structured report from the database server.
#[derive(Debug, PartialEq, Eq)]
pub struct ServerError {
    pub code: String,
    pub severity: String,
    pub message: String,
    pub detail: Option<String>,
    pub hint: Option<String>,
    pub position: Option<ErrorPosition>,
}

/// What a `ServerError` denotes.
pub ghost struct ServerErrorView {
    pub code: Seq<char>,
    pub severity: Seq<char>,
    pub message: Seq<char>,
    pub detail: Option<Seq<char>>,
    pub hint: Option<Seq<char>>,
    pub position: Option<ErrorPositionView>,
}

impl DeepView for ServerError {
    type V = ServerErrorView;

    open spec fn deep_view(&self) -> ServerErrorView {
        ServerErrorView {
            code: self.code@,
            severity: self.severity@,
            message: self.message@,
            detail: self.detail.deep_view(),
            hint: self.hint.deep_view(),
            position: self.position.deep_view(),
        }
    }
}

impl Clone for ServerError {
    fn clone(&self) -> (copy: ServerError)
        ensures
            copy@ == self@,
    {
        self.duplicate()
    }
}

impl View for ServerError {
    type V = ServerErrorView;

    open spec fn view(&self) -> ServerErrorView {
        self.deep_view()
    }
}

impl Value for ServerError {
    fn duplicate(&self) -> (copy: ServerError) {
        ServerError {
            code: self.code.duplicate(),
            severity: self.severity.duplicate(),
            message: self.message.duplicate(),
            detail: self.detail.duplicate(),
            hint: self.hint.duplicate(),
            position: self.position.duplicate(),
        }
    }

    fn same(&self, other: &ServerError) -> (same: bool) {
        self.code.same(&other.code)
            && self.severity.same(&other.severity)
            && self.message.same(&other.message)
            && self.detail.same(&other.detail)
            && self.hint.same(&other.hint)
            && self.position.same(&other.position)
    }
}

/// What lies at the bottom of a failed operation.
#[derive(Debug, PartialEq, Eq)]
pub enum Cause {
    Cancelled,
    UnknownCommit(UnknownCommit),
    Server(ServerError),
    /// A description with its own causes, from the outermost inwards.
    Other(String),
}

/// What a `Cause` denotes.
pub ghost enum CauseView {
    Cancelled,
    UnknownCommit(UnknownCommitView),
    Server(ServerErrorView),
    Other(Seq<char>),
}

impl DeepView for Cause {
    type V = CauseView;

    open spec fn deep_view(&self) -> CauseView {
        match self {
            Cause::Cancelled => CauseView::Cancelled,
            Cause::UnknownCommit(value) => CauseView::UnknownCommit(value.deep_view()),
            Cause::Server(value) => CauseView::Server(value.deep_view()),
            Cause::Other(value) => CauseView::Other(value@),
        }
    }
}

impl Clone for Cause {
    fn clone(&self) -> (copy: Cause)
        ensures
            copy@ == self@,
    {
        self.duplicate()
    }
}

impl View for Cause {
    type V = CauseView;

    open spec fn view(&self) -> CauseView {
        self.deep_view()
    }
}

impl Value for Cause {
    fn duplicate(&self) -> (copy: Cause) {
        match self {
            Cause::Cancelled => Cause::Cancelled,
            Cause::UnknownCommit(value) => Cause::UnknownCommit(value.duplicate()),
            Cause::Server(value) => Cause::Server(value.duplicate()),
            Cause::Other(value) => Cause::Other(value.duplicate()),
        }
    }

    fn same(&self, other: &Cause) -> (same: bool) {
        match (self, other) {
            (Cause::Cancelled, Cause::Cancelled) => true,
            (Cause::UnknownCommit(value_a), Cause::UnknownCommit(value_b)) => value_a.same(value_b),
            (Cause::Server(value_a), Cause::Server(value_b)) => value_a.same(value_b),
            (Cause::Other(value_a), Cause::Other(value_b)) => value_a.same(value_b),
            _ => false,
        }
    }
}

/// A failed operation: its cause, and what was being attempted, outermost first.
#[derive(Debug, PartialEq, Eq)]
pub struct Error {
    pub contexts: Vec<String>,
    pub cause: Cause,
}

/// What a `Error` denotes.
pub ghost struct ErrorView {
    pub contexts: Seq<Seq<char>>,
    pub cause: CauseView,
}

impl DeepView for Error {
    type V = ErrorView;

    open spec fn deep_view(&self) -> ErrorView {
        ErrorView {
            contexts: self.contexts.deep_view(),
            cause: self.cause.deep_view(),
        }
    }
}

impl Clone for Error {
    fn clone(&self) -> (copy: Error)
        ensures
            copy@ == self@,
    {
        self.duplicate()
    }
}

impl View for Error {
    type V = ErrorView;

    open spec fn view(&self) -> ErrorView {
        self.deep_view()
    }
}

impl Value for Error {
    fn duplicate(&self) -> (copy: Error) {
        Error {
            contexts: self.contexts.duplicate(),
            cause: self.cause.duplicate(),
        }
    }

    fn same(&self, other: &Error) -> (same: bool) {
        self.contexts.same(&other.contexts)
            && self.cause.same(&other.cause)
    }
}

/// The first line of a server report.
pub open spec fn error_header(code: Seq<char>, severity: Seq<char>, message: Seq<char>) -> Seq<
    char,
> {
    "SQL Error ["@ + code + "]: "@ + severity + ": "@ + message
}

/// The first line of a server report.
pub fn sql_error_header(code: &str, severity: &str, message: &str) -> (header: String)
    ensures
        header@ == error_header(code@, severity@, message@),
{
    let mut header = concat3("SQL Error [", code, "]: ");
    header.append(severity);
    header.append(": ");
    header.append(message);
    header
}

impl ErrorPositionView {
    /// The lines that describe the position.
    pub open spec fn lines(self) -> Seq<Seq<char>> {
        match self {
            ErrorPositionView::Original(position) => seq!["Position: "@ + decimal(position as nat)],
            ErrorPositionView::Internal { position, query } => seq![
                "Internal position: "@ + decimal(position as nat),
                "Internal query: "@ + query,
            ],
        }
    }
}

/// The lines that describe a position.
pub fn format_error_position(position: &ErrorPosition) -> (lines: Vec<String>)
    ensures
        lines.deep_view() == position@.lines(),
{
    let mut lines: Vec<String> = Vec::new();
    match position {
        ErrorPosition::Original(position) => {
            lines.push(concat("Position: ", decimal_text(*position as u64).as_str()));
        },
        ErrorPosition::Internal { position, query } => {
            lines.push(concat("Internal position: ", decimal_text(*position as u64).as_str()));
            lines.push(concat("Internal query: ", query.as_str()));
        },
    }
    assert(lines.deep_view() =~= position@.lines());
    lines
}

impl ServerErrorView {
    /// The lines of the report; absent parts have none.
    pub open spec fn lines(self) -> Seq<Seq<char>> {
        seq![error_header(self.code, self.severity, self.message)] + (match self.detail {
            Some(detail) => seq!["Detail: "@ + detail],
            None => Seq::empty(),
        }) + (match self.hint {
            Some(hint) => seq!["Hint: "@ + hint],
            None => Seq::empty(),
        }) + (match self.position {
            Some(position) => position.lines(),
            None => Seq::empty(),
        })
    }

    /// The report as one text.
    pub open spec fn report(self) -> Seq<char> {
        joined(self.lines(), "\n"@)
    }
}

/// Renders a structured server report.
pub fn format_database_error(error: &ServerError) -> (text: String)
    ensures
        text@ == error@.report(),
{
    let mut lines: Vec<String> = Vec::new();
    lines.push(
        sql_error_header(error.code.as_str(), error.severity.as_str(), error.message.as_str()),
    );
    match &error.detail {
        Some(detail) => lines.push(concat("Detail: ", detail.as_str())),
        None => {},
    }
    match &error.hint {
        Some(hint) => lines.push(concat("Hint: ", hint.as_str())),
        None => {},
    }
    let ghost front = lines.deep_view();
    proof {
        assert(front =~= seq![error_header(error@.code, error@.severity, error@.message)] + (
        match error@.detail {
            Some(detail) => seq!["Detail: "@ + detail],
            None => Seq::empty(),
        }) + (match error@.hint {
            Some(hint) => seq!["Hint: "@ + hint],
            None => Seq::empty(),
        }));
    }
    match &error.position {
        Some(position) => {
            let mut rest = format_error_position(position);
            let ghost tail = rest.deep_view();
            lines.append(&mut rest);
            assert(lines.deep_view() =~= front + tail);
        },
        None => {},
    }
    assert(lines.deep_view() =~= error@.lines());
    join(&lines, "\n")
}

impl CauseView {
    /// How the cause reads on its own.
    pub open spec fn message(self) -> Seq<char> {
        match self {
            CauseView::Cancelled => "Database operation cancelled"@,
            CauseView::UnknownCommit(unknown) => unknown.message(),
            CauseView::Server(report) => report.report(),
            CauseView::Other(text) => text,
        }
    }
}

impl ErrorView {
    /// How the failure reads: a server report alone where there is one, and otherwise every context
    /// and the cause, outermost first.
    pub open spec fn message(self) -> Seq<char> {
        match self.cause {
            CauseView::Server(report) => report.report(),
            cause => "Database error: "@ + joined(self.contexts.push(cause.message()), ": "@),
        }
    }

    /// The outermost description.
    pub open spec fn outermost(self) -> Seq<char> {
        if self.contexts.len() > 0 {
            self.contexts[0]
        } else {
            self.cause.message()
        }
    }

    /// The failure of a larger attempt that this one made fail.
    pub open spec fn in_context(self, context: Seq<char>) -> ErrorView {
        ErrorView { contexts: seq![context] + self.contexts, cause: self.cause }
    }
}

/// A failure described by one text.
pub open spec fn plain_error(text: Seq<char>) -> ErrorView {
    ErrorView { contexts: Seq::empty(), cause: CauseView::Other(text) }
}

/// A confirmed cancellation.
pub open spec fn cancelled_error() -> ErrorView {
    ErrorView { contexts: Seq::empty(), cause: CauseView::Cancelled }
}

/// A lost COMMIT acknowledgement.
pub open spec fn unknown_commit_error(reason: Seq<char>) -> ErrorView {
    ErrorView {
        contexts: Seq::empty(),
        cause: CauseView::UnknownCommit(UnknownCommitView { reason }),
    }
}

impl Error {
    /// A failure with no context.
    pub fn caused_by(cause: Cause) -> (error: Error)
        ensures
            error@ == (ErrorView { contexts: Seq::empty(), cause: cause@ }),
    {
        let error = Error { contexts: Vec::new(), cause };
        assert(error@.contexts =~= Seq::empty());
        error
    }

    /// A failure described by one text.
    pub fn new(text: &str) -> (error: Error)
        ensures
            error@ == plain_error(text@),
    {
        Error::caused_by(Cause::Other(text.to_owned()))
    }

    /// A confirmed cancellation.
    pub fn cancelled() -> (error: Error)
        ensures
            error@ == cancelled_error(),
    {
        Error::caused_by(Cause::Cancelled)
    }

    /// A lost COMMIT acknowledgement.
    pub fn unknown_commit(reason: String) -> (error: Error)
        ensures
            error@ == unknown_commit_error(reason@),
    {
        Error::caused_by(Cause::UnknownCommit(UnknownCommit { reason }))
    }

    /// Adds what was being attempted.
    pub fn context(self, context: &str) -> (error: Error)
        ensures
            error@ == self@.in_context(context@),
    {
        let ghost inner = self@;
        let mut contexts: Vec<String> = Vec::new();
        contexts.push(context.to_owned());
        let mut rest = self.contexts;
        let ghost tail = rest.deep_view();
        contexts.append(&mut rest);
        assert(contexts.deep_view() =~= seq![context@] + tail);
        Error { contexts, cause: self.cause }
    }

    /// Whether the operation was cancelled.
    pub fn is_cancelled(&self) -> (result: bool)
        ensures
            result == (self@.cause is Cancelled),
    {
        match self.cause {
            Cause::Cancelled => true,
            _ => false,
        }
    }

    /// Whether a COMMIT may or may not have taken effect.
    pub fn is_unknown_commit(&self) -> (result: bool)
        ensures
            result == (self@.cause is UnknownCommit),
    {
        match self.cause {
            Cause::UnknownCommit(_) => true,
            _ => false,
        }
    }

    /// The outermost description.
    pub fn outermost_text(&self) -> (text: String)
        ensures
            text@ == self@.outermost(),
    {
        if self.contexts.len() > 0 {
            return self.contexts[0].clone();
        }
        cause_text(&self.cause)
    }
}

fn cause_text(cause: &Cause) -> (text: String)
    ensures
        text@ == cause@.message(),
{
    match cause {
        Cause::Cancelled => Cancelled.text().to_owned(),
        Cause::UnknownCommit(unknown) => unknown.text(),
        Cause::Server(report) => format_database_error(report),
        Cause::Other(text) => text.clone(),
    }
}

/// Preserves structured server reports and falls back for other failures.
pub fn format_error(error: &Error) -> (text: String)
    ensures
        text@ == error@.message(),
{
    match &error.cause {
        Cause::Server(report) => format_database_error(report),
        cause => {
            let mut parts = error.contexts.duplicate();
            let ghost contexts = parts.deep_view();
            parts.push(cause_text(cause));
            assert(parts.deep_view() =~= contexts.push(cause@.message()));
            concat("Database error: ", join(&parts, ": ").as_str())
        },
    }
}

/// What a fallible outcome denotes.
pub open spec fn outcome_view<A: DeepView, E: DeepView>(outcome: Result<A, E>) -> Result<
    A::V,
    E::V,
> {
    match outcome {
        Ok(value) => Ok(value.deep_view()),
        Err(error) => Err(error.deep_view()),
    }
}

/// Typed output prevents a response from being accepted for the wrong node.
#[derive(Debug)]
pub enum Output {
    Session,
    Databases { profile_id: String, names: Vec<String> },
    Schemas { profile_id: String, database: String, names: Vec<String> },
    Tables { profile_id: String, database: String, schema: String, tables: Vec<TableRef> },
    Result(QueryResult),
    /// The write is committed even when its separate preview refresh fails.
    Saved(Result<QueryResult, Error>),
    /// A custom query's rows are committed; its snapshot is stale.
    QuerySaved,
    Page { requested: PageRef, result: QueryResult },
}

/// What an `Output` denotes.
pub ghost enum OutputView {
    Session,
    Databases { profile_id: Seq<char>, names: Seq<Seq<char>> },
    Schemas { profile_id: Seq<char>, database: Seq<char>, names: Seq<Seq<char>> },
    Tables {
        profile_id: Seq<char>,
        database: Seq<char>,
        schema: Seq<char>,
        tables: Seq<TableRefView>,
    },
    Result(QueryResultView),
    Saved(Result<QueryResultView, ErrorView>),
    QuerySaved,
    Page { requested: PageRefView, result: QueryResultView },
}

impl DeepView for Output {
    type V = OutputView;

    open spec fn deep_view(&self) -> OutputView {
        match self {
            Output::Session => OutputView::Session,
            Output::Databases { profile_id, names } => OutputView::Databases {
                profile_id: profile_id@,
                names: names.deep_view(),
            },
            Output::Schemas { profile_id, database, names } => OutputView::Schemas {
                profile_id: profile_id@,
                database: database@,
                names: names.deep_view(),
            },
            Output::Tables { profile_id, database, schema, tables } => OutputView::Tables {
                profile_id: profile_id@,
                database: database@,
                schema: schema@,
                tables: tables.deep_view(),
            },
            Output::Result(result) => OutputView::Result(result@),
            Output::Saved(outcome) => OutputView::Saved(outcome_view(*outcome)),
            Output::QuerySaved => OutputView::QuerySaved,
            Output::Page { requested, result } => OutputView::Page {
                requested: requested@,
                result: result@,
            },
        }
    }
}

impl View for Output {
    type V = OutputView;

    open spec fn view(&self) -> OutputView {
        self.deep_view()
    }
}

/// An operation id keeps responses associated with the worker that owns them.
#[derive(Debug)]
pub struct Response {
    pub session_state: Option<SessionState>,
    pub operation_id: u64,
    pub result: Result<Output, Error>,
}

/// What a `Response` denotes.
pub ghost struct ResponseView {
    pub session_state: Option<SessionState>,
    pub operation_id: u64,
    pub result: Result<OutputView, ErrorView>,
}

impl View for Response {
    type V = ResponseView;

    open spec fn view(&self) -> ResponseView {
        ResponseView {
            session_state: self.session_state,
            operation_id: self.operation_id,
            result: outcome_view(self.result),
        }
    }
}

/// What an operation leaves to report when the interface is gone: every failure but a cancellation.
pub fn shutdown_failure(result: &Result<Output, Error>) -> (failure: Option<String>)
    ensures
        failure.deep_view() == (match outcome_view(*result) {
            Err(error) => if error.cause is Cancelled {
                None
            } else {
                Some(error.message())
            },
            Ok(_) => None,
        }),
{
    match result {
        Err(error) => {
            if error.is_cancelled() {
                None
            } else {
                Some(format_error(error))
            }
        },
        Ok(_) => None,
    }
}

/// A running operation, known to the interface by its id.
#[derive(Clone, Copy, Debug, PartialEq, Eq, Structural)]
pub struct Task {
    pub operation_id: u64,
}

impl Task {
    /// The id that the operation's response carries.
    pub fn operation_id(&self) -> (id: u64)
        ensures
            id == self.operation_id,
    {
        self.operation_id
    }
}

/// An identifier between double quotes, with every quote in it doubled.
pub open spec fn quoted(identifier: Seq<char>) -> Seq<char> {
    "\""@ + replaced(identifier, '"', "\"\""@) + "\""@
}

/// PostgreSQL identifiers cannot use value parameters, so they are quoted as identifiers.
pub fn quote_identifier(identifier: &str) -> (text: String)
    ensures
        text@ == quoted(identifier@),
{
    concat3("\"", replace(identifier, '"', "\"\"").as_str(), "\"")
}

impl TableRefView {
    /// The quoted, schema-qualified name.
    pub open spec fn qualified(self) -> Seq<char> {
        quoted(self.schema) + "."@ + quoted(self.name)
    }

    /// Whether rows of this kind of object can be written.
    pub open spec fn writable(self) -> bool {
        self.kind == "table"@ || self.kind == "partitioned table"@
    }
}

impl TableRef {
    /// The quoted, schema-qualified name.
    pub fn qualified_name(&self) -> (name: String)
        ensures
            name@ == self@.qualified(),
    {
        concat3(
            quote_identifier(self.schema.as_str()).as_str(),
            ".",
            quote_identifier(self.name.as_str()).as_str(),
        )
    }

    /// Whether rows of this kind of object can be written.
    pub fn is_writable(&self) -> (writable: bool)
        ensures
            writable == self@.writable(),
    {
        crate::text::same_text(self.kind.as_str(), "table") || crate::text::same_text(
            self.kind.as_str(),
            "partitioned table",
        )
    }
}

/// Whether some column is part of the primary key.
pub open spec fn has_primary_key(columns: Seq<ResultColumnView>) -> bool {
    exists|i: int| 0 <= i < columns.len() && (#[trigger] columns[i]).primary_key
}

/// Whether some column is part of the primary key.
pub fn any_primary_key(columns: &Vec<ResultColumn>) -> (found: bool)
    ensures
        found == has_primary_key(columns.deep_view()),
{
    let mut i: usize = 0;
    while i < columns.len()
        invariant
            i <= columns@.len(),
            forall|k: int| 0 <= k < i ==> !(#[trigger] columns.deep_view()[k]).primary_key,
        decreases columns@.len() - i,
    {
        if columns[i].primary_key {
            assert(columns.deep_view()[i as int].primary_key);
            return true;
        }
        assert(!columns.deep_view()[i as int].primary_key);
        i += 1;
    }
    false
}

proof fn lemma_doubling_is_injective(a: Seq<char>, b: Seq<char>)
    requires
        replaced(a, '"', "\"\""@) == replaced(b, '"', "\"\""@),
    ensures
        a == b,
    decreases a.len(),
{
    reveal_strlit("\"\"");
    let both = "\"\""@;
    let whole = replaced(a, '"', both);
    assert(both =~= seq!['"', '"']);
    if a.len() == 0 {
        if b.len() > 0 {
            assert(whole.len() > 0);
        }
        assert(a =~= b);
    } else if b.len() == 0 {
        assert(whole.len() > 0);
    } else {
        assert(whole.last() == a.last());
        assert(whole.last() == b.last());
        let front = replaced(a.drop_last(), '"', both);
        let other = replaced(b.drop_last(), '"', both);
        assert(front.len() == other.len());
        assert(front =~= whole.take(front.len() as int));
        assert(other =~= whole.take(front.len() as int));
        lemma_doubling_is_injective(a.drop_last(), b.drop_last());
        assert(a =~= a.drop_last().push(a.last()));
        assert(b =~= b.drop_last().push(b.last()));
    }
}

/// Different identifiers never read the same once they are quoted.
pub proof fn quoted_identifiers_differ(a: Seq<char>, b: Seq<char>)
    requires
        a != b,
    ensures
        quoted(a) != quoted(b),
{
    reveal_strlit("\"");
    if quoted(a) == quoted(b) {
        let inner = replaced(a, '"', "\"\""@);
        let other = replaced(b, '"', "\"\""@);
        assert(quoted(a).len() == inner.len() + 2);
        assert(quoted(b).len() == other.len() + 2);
        assert(inner =~= quoted(a).subrange(1, quoted(a).len() - 1));
        assert(other =~= quoted(b).subrange(1, quoted(b).len() - 1));
        lemma_doubling_is_injective(a, b);
    }
}

} // verus!
