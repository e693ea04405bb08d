//! Each cursor fetches a bounded page from the same execution and database snapshot.
use vstd::prelude::*;
use vstd::string::*;

use crate::db::{
    outcome_view, plain_error, Error, ErrorView, QueryResult, QueryResultView, ResultColumn,
    ResultColumnView, TableRef, TableRefView, TableResultSource, TableResultSourceView,
};
use crate::keyed::{without_owner, KeyedMap};
use crate::text::{concat, concat3, decimal, decimal_text};
use crate::value::Value;

verus! {

/// Identifies one live cursor, so that a continuation cannot fetch a newer result or another
/// database's cursor.
#[derive(Debug, PartialEq, Eq)]
pub struct PageRef {
    pub id: u64,
    pub profile_id: String,
    pub database: String,
    pub preview: bool,
}

/// What a `PageRef` denotes.
pub ghost struct PageRefView {
    pub id: u64,
    pub profile_id: Seq<char>,
    pub database: Seq<char>,
    pub preview: bool,
}

impl DeepView for PageRef {
    type V = PageRefView;

    open spec fn deep_view(&self) -> PageRefView {
        PageRefView {
            id: self.id,
            profile_id: self.profile_id@,
            database: self.database@,
            preview: self.preview,
        }
    }
}

impl Clone for PageRef {
    fn clone(&self) -> (copy: PageRef)
        ensures
            copy@ == self@,
    {
        self.duplicate()
    }
}

impl View for PageRef {
    type V = PageRefView;

    open spec fn view(&self) -> PageRefView {
        self.deep_view()
    }
}

impl Value for PageRef {
    fn duplicate(&self) -> (copy: PageRef) {
        PageRef {
            id: self.id,
            profile_id: self.profile_id.duplicate(),
            database: self.database.duplicate(),
            preview: self.preview,
        }
    }

    fn same(&self, other: &PageRef) -> (same: bool) {
        self.id == other.id
            && self.profile_id.same(&other.profile_id)
            && self.database.same(&other.database)
            && self.preview == other.preview
    }
}

/// An open cursor. SQL sessions own their transaction; previews always own a read-only one.
#[derive(Debug, PartialEq, Eq)]
pub struct Cursor {
    pub page: PageRef,
    pub owns_transaction: bool,
}

/// What a `Cursor` denotes.
pub ghost struct CursorView {
    pub page: PageRefView,
    pub owns_transaction: bool,
}

impl DeepView for Cursor {
    type V = CursorView;

    open spec fn deep_view(&self) -> CursorView {
        CursorView {
            page: self.page.deep_view(),
            owns_transaction: self.owns_transaction,
        }
    }
}

impl Clone for Cursor {
    fn clone(&self) -> (copy: Cursor)
        ensures
            copy@ == self@,
    {
        self.duplicate()
    }
}

impl View for Cursor {
    type V = CursorView;

    open spec fn view(&self) -> CursorView {
        self.deep_view()
    }
}

impl Value for Cursor {
    fn duplicate(&self) -> (copy: Cursor) {
        Cursor {
            page: self.page.duplicate(),
            owns_transaction: self.owns_transaction,
        }
    }

    fn same(&self, other: &Cursor) -> (same: bool) {
        self.page.same(&other.page)
            && self.owns_transaction == other.owns_transaction
    }
}

/// What came of a request to close a cursor.
#[derive(Debug, PartialEq, Eq)]
pub enum CloseOutcome {
    Completed,
    Failed(Error),
    TimedOut,
}

/// What a `CloseOutcome` denotes.
pub ghost enum CloseOutcomeView {
    Completed,
    Failed(ErrorView),
    TimedOut,
}

impl DeepView for CloseOutcome {
    type V = CloseOutcomeView;

    open spec fn deep_view(&self) -> CloseOutcomeView {
        match self {
            CloseOutcome::Completed => CloseOutcomeView::Completed,
            CloseOutcome::Failed(value) => CloseOutcomeView::Failed(value.deep_view()),
            CloseOutcome::TimedOut => CloseOutcomeView::TimedOut,
        }
    }
}

impl Clone for CloseOutcome {
    fn clone(&self) -> (copy: CloseOutcome)
        ensures
            copy@ == self@,
    {
        self.duplicate()
    }
}

impl View for CloseOutcome {
    type V = CloseOutcomeView;

    open spec fn view(&self) -> CloseOutcomeView {
        self.deep_view()
    }
}

impl Value for CloseOutcome {
    fn duplicate(&self) -> (copy: CloseOutcome) {
        match self {
            CloseOutcome::Completed => CloseOutcome::Completed,
            CloseOutcome::Failed(value) => CloseOutcome::Failed(value.duplicate()),
            CloseOutcome::TimedOut => CloseOutcome::TimedOut,
        }
    }

    fn same(&self, other: &CloseOutcome) -> (same: bool) {
        match (self, other) {
            (CloseOutcome::Completed, CloseOutcome::Completed) => true,
            (CloseOutcome::Failed(value_a), CloseOutcome::Failed(value_b)) => value_a.same(value_b),
            (CloseOutcome::TimedOut, CloseOutcome::TimedOut) => true,
            _ => false,
        }
    }
}

/// The number of rows in a full page; it keeps even expensive row expressions from running ahead of
/// what is shown.
pub const PAGE_SIZE: usize = 200;

/// The status of a result of which `rows` rows are loaded. The total is unknown until a page comes
/// back short, be it empty.
pub open spec fn page_status_text(rows: nat, more: bool) -> Seq<char> {
    if more {
        decimal(rows) + " rows loaded · scroll down for more"@
    } else {
        decimal(rows) + " row(s) · complete"@
    }
}

/// The status of a result of which `rows` rows are loaded.
pub fn page_status(rows: usize, more: bool) -> (status: String)
    ensures
        status@ == page_status_text(rows as nat, more),
{
    let count = decimal_text(rows as u64);
    if more {
        concat(count.as_str(), " rows loaded · scroll down for more")
    } else {
        concat(count.as_str(), " row(s) · complete")
    }
}

impl CursorView {
    /// The quoted name of the cursor on the server.
    pub open spec fn name(self) -> Seq<char> {
        "\"textgres_result_"@ + decimal(self.page.id as nat) + "\""@
    }

    /// The SQL that opens the cursor for a statement.
    pub open spec fn opening(self, sql: Seq<char>) -> Seq<Seq<char>> {
        let declare = "DECLARE "@ + self.name() + " NO SCROLL CURSOR FOR\n"@ + sql + "\n"@;
        if self.owns_transaction {
            seq!["BEGIN READ ONLY"@, declare]
        } else {
            seq![declare]
        }
    }

    /// The SQL that fetches the next page.
    pub open spec fn fetching(self) -> Seq<char> {
        "FETCH FORWARD "@ + decimal(PAGE_SIZE as nat) + " FROM "@ + self.name()
    }

    /// The SQL that closes the cursor; a transaction that the user started stays as it is.
    pub open spec fn closing(self) -> Seq<char> {
        if self.owns_transaction {
            "ROLLBACK"@
        } else {
            "CLOSE "@ + self.name()
        }
    }

    /// A fetched page: a full one continues with this cursor.
    pub open spec fn fetched(self, result: QueryResultView) -> QueryResultView {
        let page = if result.rows.len() == PAGE_SIZE { Some(self.page) } else { result.page };
        QueryResultView {
            page,
            status: page_status_text(result.rows.len(), page is Some),
            ..result
        }
    }
}

/// The id that the cursor with this number gets; numbers start at zero, and ids at one.
pub open spec fn id_at(number: nat) -> u64 {
    ((number + 1) % 0x1_0000_0000_0000_0000) as u64
}

/// Hands out the ids of the cursors of a process.
pub struct CursorIds {
    next: u64,
    issued: Ghost<nat>,
}

impl View for CursorIds {
    type V = nat;

    /// How many ids were handed out.
    closed spec fn view(&self) -> nat {
        self.issued@
    }
}

impl CursorIds {
    #[verifier::type_invariant]
    closed spec fn in_step(self) -> bool {
        self.next == id_at(self.issued@)
    }

    /// Ids of which none was handed out.
    pub fn new() -> (ids: CursorIds)
        ensures
            ids@ == 0,
    {
        CursorIds { next: 1, issued: Ghost(0) }
    }

    /// A new id: none of those before is the same, as long as there are any left.
    pub fn next(&mut self) -> (id: u64)
        ensures
            final(self)@ == old(self)@ + 1,
            id == id_at(old(self)@),
            old(self)@ < 0x1_0000_0000_0000_0000 ==> forall|earlier: nat|
                earlier < old(self)@ ==> id != #[trigger] id_at(earlier),
    {
        proof {
            use_type_invariant(&*self);
        }
        let id = self.next;
        let ghost count = self.issued@;
        let following: u64 = if id == u64::MAX {
            0
        } else {
            id + 1
        };
        assert(following == id_at(count + 1));
        *self = CursorIds { next: following, issued: Ghost(count + 1) };
        id
    }
}

/// Cursors with different numbers, of which a process has fewer than there are ids, differ in their id and in
/// their name on the server, and a continuation of one is never one of the other.
pub proof fn cursors_of_a_process_differ(
    first: nat,
    second: nat,
    a: CursorView,
    b: CursorView,
)
    requires
        first < second < 0x1_0000_0000_0000_0000,
        a.page.id == id_at(first),
        b.page.id == id_at(second),
    ensures
        a.page.id != b.page.id,
        a.page != b.page,
        a.name() != b.name(),
{
    crate::text::decimals_differ(a.page.id as nat, b.page.id as nat);
    let front = "\"textgres_result_"@;
    let end = "\""@;
    let one = decimal(a.page.id as nat);
    let other = decimal(b.page.id as nat);
    if a.name() == b.name() {
        assert(a.name().len() == front.len() + one.len() + end.len());
        assert(b.name().len() == front.len() + other.len() + end.len());
        assert(one =~= a.name().subrange(front.len() as int, (front.len() + one.len()) as int));
        assert(other =~= b.name().subrange(front.len() as int, (front.len() + one.len()) as int));
    }
}

impl Cursor {
    /// A cursor with a process-unique id, which `CursorIds` hands out, so that a stale continuation cannot address a replacement.
    pub fn new(
        id: u64,
        profile_id: &str,
        database: &str,
        preview: bool,
        owns_transaction: bool,
    ) -> (cursor: Cursor)
        ensures
            cursor@ == (CursorView {
                page: PageRefView { id, profile_id: profile_id@, database: database@, preview },
                owns_transaction,
            }),
    {
        Cursor {
            page: PageRef {
                id,
                profile_id: profile_id.to_owned(),
                database: database.to_owned(),
                preview,
            },
            owns_transaction,
        }
    }

    /// The quoted name of the cursor; only generated identifiers enter cursor commands.
    pub fn name(&self) -> (name: String)
        ensures
            name@ == self@.name(),
    {
        concat3("\"textgres_result_", decimal_text(self.page.id).as_str(), "\"")
    }

    /// The commands that open the cursor, in order. NO SCROLL avoids storing consumed rows on the
    /// server.
    pub fn open(&self, sql: &str) -> (commands: Vec<String>)
        ensures
            commands.deep_view() == self@.opening(sql@),
    {
        let mut declare = concat3("DECLARE ", self.name().as_str(), " NO SCROLL CURSOR FOR\n");
        declare.append(sql);
        declare.append("\n");
        let mut commands: Vec<String> = Vec::new();
        if self.owns_transaction {
            commands.push("BEGIN READ ONLY".to_owned());
        }
        commands.push(declare);
        assert(commands.deep_view() =~= self@.opening(sql@));
        commands
    }

    /// The command that fetches the next page.
    pub fn fetch_command(&self) -> (sql: String)
        ensures
            sql@ == self@.fetching(),
    {
        let mut sql = concat3("FETCH FORWARD ", decimal_text(PAGE_SIZE as u64).as_str(), " FROM ");
        sql.append(self.name().as_str());
        sql
    }

    /// The command that closes the cursor.
    pub fn close(&self) -> (sql: String)
        ensures
            sql@ == self@.closing(),
    {
        if self.owns_transaction {
            "ROLLBACK".to_owned()
        } else {
            concat("CLOSE ", self.name().as_str())
        }
    }

    /// Marks a fetched page with its continuation and status.
    pub fn fetch(&self, result: QueryResult) -> (page: QueryResult)
        ensures
            page@ == self@.fetched(result@),
    {
        let mut result = result;
        assert(result@.rows.len() == result.rows@.len());
        if result.rows.len() == PAGE_SIZE {
            result.page = Some(self.page.duplicate());
        }
        result.status = page_status(result.rows.len(), result.page.is_some());
        result
    }
}

/// The failure of a close, and whether the connection must be given up.
pub open spec fn close_failure(outcome: CloseOutcomeView) -> (Option<ErrorView>, bool) {
    match outcome {
        CloseOutcomeView::Completed => (None, false),
        CloseOutcomeView::Failed(error) => (Some(error), false),
        CloseOutcomeView::TimedOut => (
            Some(plain_error("Timed out closing result cursor; reconnect the SQL session"@)),
            true,
        ),
    }
}

/// The failure of a close, and whether the connection must be given up.
pub fn close_result(outcome: CloseOutcome) -> (result: (Option<Error>, bool))
    ensures
        (result.0.deep_view(), result.1) == close_failure(outcome@),
{
    match outcome {
        CloseOutcome::Completed => (None, false),
        CloseOutcome::Failed(error) => (Some(error), false),
        CloseOutcome::TimedOut => (
            Some(Error::new("Timed out closing result cursor; reconnect the SQL session")),
            true,
        ),
    }
}

/// Whether a fetched page leaves its cursor open.
pub open spec fn continues(result: Result<QueryResultView, ErrorView>) -> bool {
    result is Ok && result->Ok_0.page is Some
}

/// Whether a fetched page leaves its cursor open.
pub fn is_continued(result: &Result<QueryResult, Error>) -> (open: bool)
    ensures
        open == continues(outcome_view(*result)),
{
    match result {
        Ok(result) => result.page.is_some(),
        Err(_) => false,
    }
}

/// The outcome of a read whose cursor was closed: a cleanup failure behind a successful read counts,
/// and an earlier failure is retained.
pub open spec fn closed_read(
    result: Result<QueryResultView, ErrorView>,
    cleanup: Option<ErrorView>,
) -> Result<QueryResultView, ErrorView> {
    match (result, cleanup) {
        (Ok(_), Some(error)) => Err(error),
        _ => result,
    }
}

/// The outcome of a read whose cursor was closed.
pub fn finish_read(result: Result<QueryResult, Error>, cleanup: Option<Error>) -> (finished: Result<
    QueryResult,
    Error,
>)
    ensures
        outcome_view(finished) == closed_read(outcome_view(result), cleanup.deep_view()),
{
    match (result, cleanup) {
        (Ok(_), Some(error)) => Err(error),
        (result, _) => result,
    }
}

/// Closing a cursor touches a transaction only where the cursor owns it.
pub proof fn closing_spares_user_transactions(cursor: CursorView)
    ensures
        (cursor.closing() == "ROLLBACK"@) == cursor.owns_transaction,
{
    reveal_strlit("ROLLBACK");
    reveal_strlit("CLOSE ");
    if !cursor.owns_transaction {
        assert(cursor.closing()[0] == 'C');
        assert("ROLLBACK"@[0] == 'R');
    }
}

/// A page continues exactly when it is full, given that the raw rows carry no continuation.
pub proof fn full_pages_continue(cursor: CursorView, result: QueryResultView)
    requires
        result.page is None,
    ensures
        cursor.fetched(result).page == (if result.rows.len() == PAGE_SIZE {
            Some(cursor.page)
        } else {
            None
        }),
        cursor.fetched(result).rows == result.rows,
{
}

/// The open table previews. Each uses a connection of its own, so that fetching does not alter a
/// user's SQL transaction.
pub struct Previews {
    entries: KeyedMap<(String, String), Cursor>,
}

impl View for Previews {
    type V = Map<(Seq<char>, Seq<char>), CursorView>;

    closed spec fn view(&self) -> Map<(Seq<char>, Seq<char>), CursorView> {
        self.entries@
    }
}

/// A preview's result: editable when the table's columns are exactly those that came back.
pub open spec fn preview_result(
    table: TableRefView,
    columns: Seq<ResultColumnView>,
    result: QueryResultView,
) -> QueryResultView {
    if Seq::new(columns.len(), |i: int| columns[i].name) == result.columns {
        QueryResultView {
            source: Some(TableResultSourceView { table, columns, query: None }),
            ..result
        }
    } else {
        result
    }
}

fn columns_match(columns: &Vec<ResultColumn>, names: &Vec<String>) -> (same: bool)
    ensures
        same == (Seq::new(columns@.len(), |i: int| columns.deep_view()[i].name)
            == names.deep_view()),
{
    let ghost shown = Seq::new(columns@.len(), |i: int| columns.deep_view()[i].name);
    if columns.len() != names.len() {
        assert(shown.len() != names.deep_view().len());
        return false;
    }
    let mut i: usize = 0;
    while i < columns.len()
        invariant
            i <= columns@.len(),
            columns@.len() == names@.len(),
            shown == Seq::new(columns@.len(), |i: int| columns.deep_view()[i].name),
            forall|k: int| 0 <= k < i ==> shown[k] == names.deep_view()[k],
        decreases columns@.len() - i,
    {
        if !columns[i].name.same(&names[i]) {
            assert(shown[i as int] != names.deep_view()[i as int]);
            return false;
        }
        i += 1;
    }
    assert(shown =~= names.deep_view());
    true
}

/// The statement that a table preview reads.
pub fn preview_statement(table: &TableRef) -> (sql: String)
    ensures
        sql@ == "SELECT * FROM "@ + table@.qualified(),
{
    concat("SELECT * FROM ", table.qualified_name().as_str())
}

/// Why a page of a preview cannot be fetched.
pub open spec fn preview_problem(
    entries: Map<(Seq<char>, Seq<char>), CursorView>,
    page: PageRefView,
    busy: bool,
) -> Option<Seq<char>> {
    let key = (page.profile_id, page.database);
    if !entries.contains_key(key) {
        Some("Result cursor is closed; refresh the table"@)
    } else if busy {
        Some("Result cursor is busy"@)
    } else if entries[key].page != page {
        Some("Result cursor was replaced; refresh the table"@)
    } else {
        None
    }
}

impl Previews {
    /// No previews.
    pub fn new() -> (previews: Previews)
        ensures
            previews@ == Map::<(Seq<char>, Seq<char>), CursorView>::empty(),
    {
        Previews { entries: KeyedMap::new() }
    }

    /// Forgets the preview of a database; its connection, with cursor and transaction, goes with it.
    pub fn remove(&mut self, profile_id: &str, database: &str)
        ensures
            final(self)@ == old(self)@.remove((profile_id@, database@)),
    {
        let _ = self.entries.remove(&(profile_id.to_owned(), database.to_owned()));
    }

    /// Forgets the previews of one profile, or all of them.
    pub fn clear(&mut self, profile_id: Option<&str>)
        ensures
            final(self)@ == (match profile_id {
                Some(id) => without_owner::<(String, String), CursorView>(old(self)@, id@),
                None => Map::empty(),
            }),
    {
        match profile_id {
            Some(id) => self.entries.forget_owner(id),
            None => {
                self.entries = KeyedMap::new();
            },
        }
    }

    /// Takes the first page of a new preview. The cursor is kept where the page continues.
    pub fn start_connected(
        &mut self,
        table: &TableRef,
        columns: Vec<ResultColumn>,
        cursor: Cursor,
        result: QueryResult,
    ) -> (shown: QueryResult)
        ensures
            shown@ == preview_result(table@, columns.deep_view(), result@),
            final(self)@ == (if result@.page is Some {
                old(self)@.insert((table@.profile_id, table@.database), cursor@)
            } else {
                old(self)@
            }),
    {
        let mut result = result;
        assert(columns.deep_view().len() == columns@.len());
        if columns_match(&columns, &result.columns) {
            result.source = Some(
                TableResultSource { table: table.duplicate(), columns, query: None },
            );
        }
        if result.page.is_some() {
            self.entries.insert((table.profile_id.clone(), table.database.clone()), cursor);
        }
        result
    }

    /// The cursor that a continuation addresses. `busy` says that it is in use.
    pub fn claim(&self, page: &PageRef, busy: bool) -> (result: Result<Cursor, Error>)
        ensures
            match preview_problem(self@, page@, busy) {
                Some(problem) => outcome_view(result) == Err::<CursorView, ErrorView>(
                    plain_error(problem),
                ),
                None => outcome_view(result) == Ok::<CursorView, ErrorView>(
                    self@[(page@.profile_id, page@.database)],
                ),
            },
    {
        match self.entries.get(&(page.profile_id.clone(), page.database.clone())) {
            None => Err(Error::new("Result cursor is closed; refresh the table")),
            Some(cursor) => {
                if busy {
                    return Err(Error::new("Result cursor is busy"));
                }
                if !cursor.page.same(page) {
                    return Err(Error::new("Result cursor was replaced; refresh the table"));
                }
                Ok(cursor.duplicate())
            },
        }
    }

    /// Drops the cursor behind a fetch that did not continue. A failed fetch invalidates the cursor
    /// too: another one could skip rows that were already consumed.
    pub fn fetched(&mut self, page: &PageRef, result: &Result<QueryResult, Error>)
        ensures
            final(self)@ == (if continues(outcome_view(*result)) {
                old(self)@
            } else {
                old(self)@.remove((page@.profile_id, page@.database))
            }),
    {
        if !is_continued(result) {
            self.remove(page.profile_id.as_str(), page.database.as_str());
        }
    }
}

/// A preview whose cursor was replaced or closed refuses every older continuation.
pub proof fn stale_pages_are_refused(
    entries: Map<(Seq<char>, Seq<char>), CursorView>,
    cursor: CursorView,
    page: PageRefView,
)
    requires
        page.id != cursor.page.id,
        cursor.page.profile_id == page.profile_id,
        cursor.page.database == page.database,
    ensures
        preview_problem(
            entries.insert((page.profile_id, page.database), cursor),
            page,
            false,
        ) is Some,
        preview_problem(
            entries.remove((page.profile_id, page.database)),
            page,
            false,
        ) is Some,
{
}

} // verus!
