//! Statements, cursors, sessions and the other database decisions.
use textgres::db::changes::{build_update, statement, RowChange};
use textgres::db::connect::{
    connect_settings, ensure_not_cancelled, metadata_output, plan_metadata, ssh_arguments,
    table_columns, tunnel_settings, watch_tunnel, CatalogColumn, MetadataReply, TunnelAction,
    TunnelEvent, TunnelManager, TunnelSettings,
};
use textgres::db::paging::{
    close_result, finish_read, page_status, preview_statement, CloseOutcome, Cursor, PageRef,
    Previews, PAGE_SIZE,
};
use textgres::db::query::{supervise, Message, QueryRun, StatementOutcome, MAX_RESULT_ROWS};
use textgres::db::query_edits::{
    attach, validate_projection, AttachAction, AttachReply, Field, QuerySource, Relation,
};
use textgres::db::save::{save, SaveAction, SaveReply};
use textgres::db::sessions::{
    observed_state, Operation, Route, RunAction, RunEvent, Session, SessionManager, SessionState,
    TransactionState,
};
use textgres::db::syntax::{select_statement, single_read_text, supported, SyntaxNode};
use textgres::db::tables::{JobAction, JobEvent, TableJob};
use textgres::db::{
    format_error, format_error_position, quote_identifier, shutdown_failure, sql_error_header,
    Cause, Error, ErrorPosition, Output, QueryResult, Request, ResultColumn, ServerError, TableRef,
    TableResultSource, UnknownCommit,
};
use textgres::storage::{ConnectionProfile, SshConfig};

fn some(text: &str) -> Option<String> {
    Some(text.to_owned())
}

fn column(name: &str, data_type: &str, editable: bool, primary_key: bool) -> ResultColumn {
    ResultColumn {
        name: name.into(),
        data_type: data_type.into(),
        editable,
        insertable: editable,
        primary_key,
    }
}

fn table(schema: &str, name: &str) -> TableRef {
    TableRef {
        profile_id: "local".into(),
        database: "postgres".into(),
        schema: schema.into(),
        name: name.into(),
        kind: "table".into(),
    }
}

fn source() -> TableResultSource {
    TableResultSource {
        table: table("odd schema", "user"),
        columns: vec![
            column("id", "integer", true, true),
            column("display name", "text", true, false),
        ],
        query: None,
    }
}

fn profile() -> ConnectionProfile {
    ConnectionProfile {
        id: "local".into(),
        name: "Local".into(),
        host: "db.internal".into(),
        port: 5432,
        database: "postgres".into(),
        user: "postgres".into(),
        password: None,
        ssh: None,
        require_tls: true,
    }
}

#[test]
fn quotes_postgres_identifiers() {
    assert_eq!(quote_identifier("odd\"name"), "\"odd\"\"name\"");
}

#[test]
fn formats_postgres_error_identity_and_position() {
    let mut lines =
        vec![sql_error_header("42P01", "ERROR", "relation \"derp\" does not exist")];
    lines.extend(format_error_position(&ErrorPosition::Original(52)));

    assert_eq!(
        lines.join("\n"),
        "SQL Error [42P01]: ERROR: relation \"derp\" does not exist\nPosition: 52"
    );
}

#[test]
fn formats_server_reports_and_other_failures() {
    let report = ServerError {
        code: "23505".into(),
        severity: "ERROR".into(),
        message: "duplicate key".into(),
        detail: some("Key (id)=(1) exists."),
        hint: some("Pick another."),
        position: Some(ErrorPosition::Internal { position: 3, query: "SELECT 1".into() }),
    };
    let error = Error::caused_by(Cause::Server(report)).context("Batch not committed");
    assert_eq!(
        format_error(&error),
        "SQL Error [23505]: ERROR: duplicate key\nDetail: Key (id)=(1) exists.\nHint: Pick another.\nInternal position: 3\nInternal query: SELECT 1"
    );
    let error = Error::new("Row conflict").context("Batch not committed");
    assert_eq!(format_error(&error), "Database error: Batch not committed: Row conflict");
    assert_eq!(error.outermost_text(), "Batch not committed");
    assert_eq!(
        format_error(&Error::unknown_commit("lost".into())),
        "Database error: Save outcome is unknown; refresh and verify the table before making more changes: lost"
    );
    assert_eq!(UnknownCommit { reason: "x".into() }.text().ends_with(": x"), true);
    assert!(Error::cancelled().context("Batch not committed").is_cancelled());
    assert_eq!(shutdown_failure(&Err(Error::cancelled())), None);
    assert_eq!(shutdown_failure(&Err(Error::new("lost"))), some("Database error: lost"));
    assert_eq!(shutdown_failure(&Ok(Output::Session)), None);
}

// ---- Statements ----

#[test]
fn builds_primary_key_update_with_typed_parameters() {
    let (sql, parameters) = build_update(
        &source(),
        &vec![some("7"), some("before")],
        &vec![some("7"), some("after'; DROP TABLE x")],
    )
    .unwrap();

    assert_eq!(
        sql,
        "UPDATE \"odd schema\".\"user\" SET \"display name\" = $1::text::text \
         WHERE \"id\" IS NOT DISTINCT FROM $2::text::integer AND \
         to_jsonb(\"display name\") IS NOT DISTINCT FROM to_jsonb($3::text::text)"
    );
    assert_eq!(parameters, vec![some("after'; DROP TABLE x"), some("7"), some("before")]);
    assert!(!sql.contains("DROP"));
}

#[test]
fn refuses_updates_that_do_not_fit_their_table() {
    let message = |source: &TableResultSource, original: Vec<Option<String>>, values| {
        format_error(&build_update(source, &original, &values).unwrap_err())
    };
    assert_eq!(
        message(&source(), vec![None], vec![None]),
        "Database error: row data does not match the table metadata"
    );
    assert_eq!(
        message(&source(), vec![some("7"), None], vec![some("7"), None]),
        "Database error: the row has no editable changes"
    );
    let mut fixed = source();
    fixed.columns[1].editable = false;
    assert_eq!(
        message(&fixed, vec![some("7"), None], vec![some("7"), some("x")]),
        "Database error: generated or read-only columns cannot be changed"
    );
    let mut keyless = source();
    keyless.columns[0].primary_key = false;
    assert_eq!(
        message(&keyless, vec![some("7"), None], vec![some("7"), some("x")]),
        "Database error: the table has no primary key"
    );
}

#[test]
fn builds_inserts_and_deletes() {
    let insert = |values: Vec<Option<String>>, defaults: Vec<bool>| {
        statement(&source(), &RowChange::Insert { values, defaults })
    };
    assert_eq!(
        insert(vec![some("1"), None], vec![true, false]).unwrap(),
        (
            "INSERT INTO \"odd schema\".\"user\" (\"display name\") VALUES ($1::text::text)".into(),
            vec![None]
        )
    );
    assert_eq!(
        insert(vec![None, None], vec![true, true]).unwrap(),
        ("INSERT INTO \"odd schema\".\"user\" DEFAULT VALUES".into(), vec![])
    );
    assert_eq!(
        format_error(&insert(vec![None], vec![true]).unwrap_err()),
        "Database error: Row does not match table metadata"
    );
    let mut generated = source();
    generated.columns[1].insertable = false;
    let change = RowChange::Insert { values: vec![some("1"), some("x")], defaults: vec![false, false] };
    assert_eq!(
        format_error(&statement(&generated, &change).unwrap_err()),
        "Database error: Column display name requires its generated default"
    );
    let delete = RowChange::Delete { original: vec![some("1"), None] };
    assert_eq!(
        statement(&source(), &delete).unwrap(),
        (
            "DELETE FROM \"odd schema\".\"user\" WHERE \"id\" IS NOT DISTINCT FROM $1::text::integer AND to_jsonb(\"display name\") IS NOT DISTINCT FROM to_jsonb($2::text::text)".into(),
            vec![some("1"), None]
        )
    );
    let mut keyless = source();
    keyless.columns[0].primary_key = false;
    assert_eq!(
        format_error(&statement(&keyless, &delete).unwrap_err()),
        "Database error: Deletion requires a primary key"
    );
    let mut custom = source();
    custom.query = Some(Box::new(query_source()));
    assert_eq!(
        format_error(&statement(&custom, &delete).unwrap_err()),
        "Database error: Custom query results support updates only"
    );
}

fn query_source() -> QuerySource {
    QuerySource {
        sql: "SELECT id FROM items".into(),
        execution_id: 1,
        table_oid: 42,
        table_columns: source().columns,
        attribute_ids: vec![1, 2],
        mapping: vec![Some(0), Some(1)],
    }
}

// ---- Saving ----

fn update(value: &str) -> RowChange {
    RowChange::Update {
        original: vec![some("7"), some("before")],
        values: vec![some("7"), some(value)],
    }
}

#[test]
fn batches_commit_only_after_every_row_matched() {
    let (run, action) = save(source(), vec![update("a"), update("b")]);
    assert_eq!(action, SaveAction::Batch("BEGIN".into()));
    let (run, action) = run.step(SaveReply::Completed);
    assert_eq!(
        action,
        SaveAction::Batch("LOCK TABLE \"odd schema\".\"user\" IN ROW EXCLUSIVE MODE".into())
    );
    let (run, action) = run.step(SaveReply::Completed);
    assert_eq!(action, SaveAction::Columns(source().table));
    let (run, action) = run.step(SaveReply::Columns(source().columns));
    assert!(matches!(action, SaveAction::Execute { .. }));
    let (run, action) = run.step(SaveReply::Affected(1));
    assert!(matches!(action, SaveAction::Execute { .. }));
    let (run, action) = run.step(SaveReply::Affected(1));
    assert_eq!(action, SaveAction::Batch("COMMIT".into()));
    let (_, action) = run.step(SaveReply::Completed);
    assert_eq!(action, SaveAction::Committed);
}

fn until_writing(source: TableResultSource) -> textgres::db::save::Save {
    let columns = source.columns.clone();
    let (run, _) = save(source, vec![update("a")]);
    let (run, _) = run.step(SaveReply::Completed);
    let (run, _) = run.step(SaveReply::Completed);
    run.step(SaveReply::Columns(columns)).0
}

#[test]
fn conflicts_and_failures_roll_back() {
    let (run, action) = until_writing(source()).step(SaveReply::Affected(0));
    assert_eq!(action, SaveAction::Rollback);
    let (_, action) = run.step(SaveReply::Completed);
    match action {
        SaveAction::Failed(error) => assert_eq!(
            format_error(&error),
            "Database error: Batch not committed: Row conflict: expected one matching row, found 0; no changes saved"
        ),
        _ => panic!("the batch must fail"),
    }
    let (run, _) = until_writing(source()).step(SaveReply::Affected(1));
    let (_, action) =
        run.step(SaveReply::Failed { error: Error::new("reset").context("lost"), broken: true });
    match action {
        SaveAction::Failed(error) => assert!(error.is_unknown_commit()),
        _ => panic!("the outcome must be unknown"),
    }
    let (run, _) = until_writing(source()).step(SaveReply::Affected(1));
    let (_, action) = run.step(SaveReply::Failed { error: Error::new("refused"), broken: false });
    assert_eq!(action, SaveAction::Rollback);
    let (run, _) = save(source(), vec![update("a")]);
    let (run, _) = run.step(SaveReply::Completed);
    let (run, _) = run.step(SaveReply::Completed);
    let (run, action) = run.step(SaveReply::Columns(vec![]));
    assert_eq!(action, SaveAction::Rollback);
    match run.step(SaveReply::Completed).1 {
        SaveAction::Failed(error) => assert_eq!(
            format_error(&error),
            "Database error: Batch not committed: Table definition changed; refresh before editing"
        ),
        _ => panic!("the batch must fail"),
    }
    match save(source(), vec![]).1 {
        SaveAction::Failed(error) => {
            assert_eq!(format_error(&error), "Database error: No table changes to save")
        }
        _ => panic!("an empty batch must fail"),
    }
    let mut view = source();
    view.table.kind = "view".into();
    match save(view, vec![update("a")]).1 {
        SaveAction::Failed(error) => {
            assert_eq!(format_error(&error), "Database error: This object is read-only")
        }
        _ => panic!("a view must fail"),
    }
}

#[test]
fn custom_batches_check_their_table_first() {
    let mut custom = source();
    custom.query = Some(Box::new(query_source()));
    let run = until_writing(custom.clone());
    let (run, action) = run.step(SaveReply::TableOid(42));
    assert_eq!(action, SaveAction::Attributes(42));
    let (_, action) = run.step(SaveReply::Attributes(vec![1, 2]));
    assert!(matches!(action, SaveAction::Execute { .. }));
    let (_, action) = until_writing(custom).step(SaveReply::TableOid(43));
    assert_eq!(action, SaveAction::Rollback);
    let query = query_source();
    let columns = source().columns;
    assert_eq!(validate_projection(&columns, &query, &columns, &vec![1, 2]), None);
    assert_eq!(
        validate_projection(&columns, &query, &columns, &vec![1, 3]),
        some("Table definition changed; run the query again")
    );
    assert_eq!(
        validate_projection(&vec![columns[0].clone()], &query, &columns, &vec![1, 2]),
        some("Invalid query column mapping")
    );
    let mut renamed = columns.clone();
    renamed[1].name = "other".into();
    assert_eq!(
        validate_projection(&columns, &query, &renamed, &vec![1, 2]),
        some("Query columns changed; run the query again")
    );
    let mut partial = query_source();
    partial.mapping = vec![Some(1), None];
    let shown = vec![columns[1].clone(), column("x", "", false, false)];
    assert_eq!(
        validate_projection(&shown, &partial, &columns, &vec![1, 2]),
        some("Include the complete primary key to edit rows")
    );
}

// ---- Custom queries ----

#[test]
fn restricts_custom_update_query_shapes() {
    for sql in [
        "SELECT id, name AS label FROM public.items WHERE id > 2 ORDER BY name LIMIT 5",
        "SELECT i.*, id + 1 AS next FROM items i",
        "SELECT id, CASE WHEN name IS NULL THEN 'empty' ELSE name END FROM items",
    ] {
        assert!(supported(sql), "{sql}");
    }
    for sql in [
        "SELECT 1",
        "SELECT * FROM a, b",
        "SELECT * FROM a JOIN b USING(id)",
        "SELECT DISTINCT id FROM a",
        "SELECT id FROM a GROUP BY id",
        "SELECT id FROM a UNION SELECT id FROM b",
        "SELECT * FROM (SELECT * FROM a) q",
        "WITH q AS (SELECT * FROM a) SELECT * FROM q",
        "SELECT id, generate_series(1,2) FROM a",
        "SELECT id, count(*) OVER () FROM a",
        "SELECT * FROM generate_series(1,2) a",
        "SELECT id FROM a WHERE id IN (SELECT id FROM b)",
    ] {
        assert!(!supported(sql), "{sql}");
    }
}

#[test]
fn classifies_single_reads_without_rewriting_sql() {
    for sql in [
        "select * from race_data.apx_cp_p;",
        "-- hello\nSELECT ';' AS value; -- trailing",
        "/* leading */ SELECT $$a;b$$;",
        "WITH data AS (SELECT * FROM items) SELECT * FROM data",
        "SELECT * FROM a UNION ALL SELECT * FROM b",
        "SELECT * FROM items ORDER BY id LIMIT 400 OFFSET 2",
    ] {
        assert!(select_statement(sql).is_some(), "not paged: {sql}");
    }
    for sql in [
        "SELECT 1; SELECT 2",
        "SELECT * INTO new_table FROM items",
        "WITH changed AS (DELETE FROM items RETURNING *) SELECT * FROM changed",
        "UPDATE items SET id=1 RETURNING *",
        "CREATE VIEW v AS SELECT * FROM items",
        "EXPLAIN ANALYZE SELECT * FROM items",
        "SELECT * FROM items FOR UPDATE",
        "SELECT 'unfinished",
        "BEGIN; SELECT * FROM items; COMMIT",
    ] {
        assert!(select_statement(sql).is_none(), "unsafe paging: {sql}");
    }
}

#[test]
fn selects_keep_their_text() {
    assert_eq!(
        select_statement("-- hello\nSELECT 'å;' AS value; -- trailing"),
        some("SELECT 'å;' AS value")
    );
}

fn node(depth: u32, kind: &str, named: bool) -> SyntaxNode {
    SyntaxNode { depth, kind: kind.into(), named, has_error: false, text: kind.into() }
}

#[test]
fn anonymous_nodes_hide_what_is_below_them() {
    let mut nodes = vec![
        node(0, "program", true),
        node(1, "statement", true),
        node(2, "select", true),
        node(3, "(", false),
        node(4, "keyword_into", true),
    ];
    assert_eq!(single_read_text(&nodes), some("statement"));
    nodes[3].named = true;
    assert_eq!(single_read_text(&nodes), None);
    nodes.truncate(3);
    nodes.push(node(1, "comment", true));
    assert_eq!(single_read_text(&nodes), some("statement"));
    nodes[0].has_error = true;
    assert_eq!(single_read_text(&nodes), None);
}

fn field(name: &str, table_oid: Option<u32>, column_id: Option<i16>) -> Field {
    Field { name: name.into(), table_oid, column_id }
}

fn page_ref() -> PageRef {
    PageRef { id: 9, profile_id: "local".into(), database: "postgres".into(), preview: false }
}

fn analyse(fields: Vec<Field>, relation: Relation, catalog: Vec<ResultColumn>) -> AttachAction {
    let result = QueryResult {
        columns: fields.iter().map(|field| field.name.clone()).collect(),
        ..Default::default()
    };
    let sql = "SELECT id, name AS label FROM items";
    let (run, action) = attach(sql, &page_ref(), true, result);
    assert_eq!(action, AttachAction::Prepare(sql.into()));
    let (run, action) = run.step(AttachReply::Fields(fields));
    if !matches!(action, AttachAction::Relation(42)) {
        return action;
    }
    let (run, action) = run.step(AttachReply::Relation(relation));
    if !matches!(action, AttachAction::Columns(_)) {
        return action;
    }
    let ids = (1..=catalog.len() as i16).collect();
    let (run, action) = run.step(AttachReply::Columns(catalog));
    assert_eq!(action, AttachAction::Attributes(42));
    run.step(AttachReply::Attributes(ids)).1
}

fn items() -> Relation {
    Relation { schema: "public".into(), name: "items".into(), kind: "r".into(), inherited: false }
}

fn reason(action: AttachAction) -> Option<String> {
    match action {
        AttachAction::Done(result) => {
            assert!(result.source.is_none());
            result.read_only_reason
        }
        _ => panic!("the analysis must end"),
    }
}

#[test]
fn custom_queries_resolve_their_table_columns() {
    let catalog = source().columns;
    let fields = vec![
        field("id", Some(42), Some(1)),
        field("label", Some(42), Some(2)),
        field("next", None, None),
    ];
    match analyse(fields.clone(), items(), catalog.clone()) {
        AttachAction::Done(result) => {
            assert_eq!(result.read_only_reason, None);
            let source = result.source.unwrap();
            assert_eq!(source.table, table("public", "items"));
            assert_eq!(source.columns[1].name, "display name");
            assert!(!source.columns[2].editable);
            let query = source.query.unwrap();
            assert_eq!(query.mapping, vec![Some(0), Some(1), None]);
            assert_eq!(query.execution_id, 9);
        }
        _ => panic!("the analysis must end"),
    }
    assert_eq!(
        reason(analyse(vec![field("label", Some(42), Some(2))], items(), catalog.clone())),
        some("Include primary key column(s) id to edit rows")
    );
    let twice = vec![field("id", Some(42), Some(1)), field("again", Some(42), Some(1))];
    assert_eq!(
        reason(analyse(twice, items(), catalog.clone())),
        some("The same source column appears more than once; select each column once to edit rows")
    );
    let keyless = vec![column("id", "integer", true, false)];
    assert_eq!(
        reason(analyse(vec![field("id", Some(42), Some(1))], items(), keyless)),
        some("This table has no primary key; query results are read-only")
    );
    let mut view = items();
    view.kind = "v".into();
    assert!(reason(analyse(fields.clone(), view, catalog.clone())).unwrap().contains("physical table"));
    let mut parent = items();
    parent.inherited = true;
    assert!(reason(analyse(fields, parent, catalog.clone())).unwrap().contains("inheritance parents"));
    let mixed = vec![field("id", Some(42), Some(1)), field("other", Some(43), Some(1))];
    assert!(reason(analyse(mixed, items(), catalog)).unwrap().contains("single-table SELECT"));
}

#[test]
fn custom_queries_in_transactions_are_read_only() {
    let (_, action) = attach("SELECT id FROM items", &page_ref(), false, QueryResult::default());
    assert!(reason(action).unwrap().contains("inside an explicit transaction"));
    let (_, action) = attach("SELECT now()", &page_ref(), true, QueryResult::default());
    assert!(reason(action).unwrap().contains("without joins, grouping"));
    let (run, _) = attach("SELECT id FROM items", &page_ref(), true, QueryResult::default());
    match run.step(AttachReply::Fields(vec![field("id", Some(42), Some(1))])).1 {
        AttachAction::Failed(error) => assert_eq!(
            format_error(&error),
            "Database error: Query metadata changed; run the query again"
        ),
        _ => panic!("changed metadata must fail"),
    }
}

// ---- Cursors ----

#[test]
fn cursors_close_only_their_own_transactions() {
    let own = Cursor::new(3, "local", "postgres", true, true);
    assert_eq!(own.name(), "\"textgres_result_3\"");
    assert_eq!(
        own.open("SELECT 1"),
        vec![
            "BEGIN READ ONLY".to_owned(),
            "DECLARE \"textgres_result_3\" NO SCROLL CURSOR FOR\nSELECT 1\n".to_owned()
        ]
    );
    assert_eq!(own.fetch_command(), "FETCH FORWARD 200 FROM \"textgres_result_3\"");
    assert_eq!(own.close(), "ROLLBACK");
    let shared = Cursor::new(4, "local", "postgres", false, false);
    assert_eq!(shared.open("SELECT 1").len(), 1);
    assert_eq!(shared.close(), "CLOSE \"textgres_result_4\"");
}

#[test]
fn full_pages_continue_and_short_ones_end() {
    let cursor = Cursor::new(3, "local", "postgres", true, true);
    let full = QueryResult { rows: vec![vec![None]; PAGE_SIZE], ..Default::default() };
    let page = cursor.fetch(full);
    assert_eq!(page.page, Some(cursor.page.clone()));
    assert_eq!(page.status, "200 rows loaded · scroll down for more");
    let page = cursor.fetch(QueryResult { rows: vec![vec![None]], ..Default::default() });
    assert_eq!(page.page, None);
    assert_eq!(page.status, "1 row(s) · complete");
    assert_eq!(page_status(0, false), "0 row(s) · complete");
    let (error, gone) = close_result(CloseOutcome::TimedOut);
    assert!(gone);
    assert!(finish_read(Ok(QueryResult::default()), error).is_err());
    assert_eq!(close_result(CloseOutcome::Completed), (None, false));
    assert!(finish_read(Err(Error::cancelled()), Some(Error::new("x"))).unwrap_err().is_cancelled());
}

#[test]
fn previews_refuse_stale_pages() {
    let mut previews = Previews::new();
    let cursor = Cursor::new(7, "local", "postgres", true, true);
    let first = QueryResult {
        columns: vec!["id".into(), "display name".into()],
        page: Some(cursor.page.clone()),
        ..Default::default()
    };
    let message = |result: Result<Cursor, Error>| format_error(&result.unwrap_err());
    assert_eq!(
        message(previews.claim(&cursor.page, false)),
        "Database error: Result cursor is closed; refresh the table"
    );
    let shown =
        previews.start_connected(&source().table, source().columns, cursor.clone(), first.clone());
    assert_eq!(shown.source.unwrap().columns, source().columns);
    assert_eq!(previews.claim(&cursor.page, false).unwrap(), cursor);
    assert_eq!(
        message(previews.claim(&cursor.page, true)),
        "Database error: Result cursor is busy"
    );
    let mut stale = cursor.page.clone();
    stale.id = 6;
    assert_eq!(
        message(previews.claim(&stale, false)),
        "Database error: Result cursor was replaced; refresh the table"
    );
    previews.fetched(&cursor.page, &Ok(first.clone()));
    assert!(previews.claim(&cursor.page, false).is_ok());
    previews.fetched(&cursor.page, &Err(Error::new("lost")));
    assert!(previews.claim(&cursor.page, false).is_err());
    let renamed = QueryResult { columns: vec!["id".into()], ..Default::default() };
    let shown = previews.start_connected(&source().table, source().columns, cursor.clone(), renamed);
    assert!(shown.source.is_none());
    previews.start_connected(&source().table, source().columns, cursor.clone(), first.clone());
    previews.clear(Some("other"));
    assert!(previews.claim(&cursor.page, false).is_ok());
    previews.clear(Some("local"));
    assert!(previews.claim(&cursor.page, false).is_err());
    previews.start_connected(&source().table, source().columns, cursor.clone(), first);
    previews.clear(None);
    assert!(previews.claim(&cursor.page, false).is_err());
    assert_eq!(preview_statement(&source().table), "SELECT * FROM \"odd schema\".\"user\"");
}

// ---- Table jobs ----

fn finished(action: JobAction) -> Result<Output, Error> {
    match action {
        JobAction::Done(outcome) => outcome,
        _ => panic!("the job must be done"),
    }
}

fn connected_job(started: (TableJob, JobAction)) -> (TableJob, JobAction) {
    assert!(matches!(started.1, JobAction::Release));
    let (mut job, mut action) = started.0.step(JobEvent::Released(None));
    if matches!(action, JobAction::Forget) {
        (job, action) = job.step(JobEvent::Forgotten);
    }
    match action {
        JobAction::Connect { database, .. } => assert_eq!(database, "postgres"),
        _ => panic!("a connection must be opened"),
    }
    job.step(JobEvent::Connected(None))
}

fn save_job() -> (TableJob, JobAction) {
    TableJob::save(profile(), None, source(), vec![update("a")], 8)
}

#[test]
fn previews_open_a_cursor_of_their_own() {
    let (job, action) = connected_job(TableJob::preview(profile(), None, source().table, 8));
    assert!(matches!(action, JobAction::Forget));
    let (job, action) = job.step(JobEvent::Forgotten);
    assert!(matches!(action, JobAction::Columns(found) if found == source().table));
    let (job, action) = job.step(JobEvent::Columns(Ok(source().columns)));
    match action {
        JobAction::Open { commands } => assert_eq!(
            commands,
            [
                "BEGIN READ ONLY",
                "DECLARE \"textgres_result_8\" NO SCROLL CURSOR FOR\nSELECT * FROM \"odd schema\".\"user\"\n"
            ]
        ),
        _ => panic!("a cursor must open"),
    }
    let (job, action) = job.step(JobEvent::Opened(None));
    assert!(matches!(action, JobAction::Fetch { sql } if sql.starts_with("FETCH FORWARD 200")));
    let rows = QueryResult { rows: vec![vec![None]; PAGE_SIZE], ..Default::default() };
    let (job, action) = job.step(JobEvent::Rows(Ok(rows)));
    let shown = match action {
        JobAction::Show { columns, cursor, result } => {
            assert_eq!(columns, source().columns);
            assert_eq!(result.page, Some(cursor.page));
            result
        }
        _ => panic!("the preview must show"),
    };
    let (_, action) = job.step(JobEvent::Shown(shown.clone()));
    assert!(matches!(finished(action), Ok(Output::Result(found)) if found == shown));
}

#[test]
fn committed_batches_stay_saved_without_their_preview() {
    let (job, action) = connected_job(save_job());
    match action {
        JobAction::Save { changes, .. } => assert_eq!(changes, vec![update("a")]),
        _ => panic!("the batch must be saved"),
    }
    let (job, _) = job.step(JobEvent::Saved(None));
    let (job, _) = job.step(JobEvent::Forgotten);
    let (_, action) = job.step(JobEvent::Columns(Err(Error::cancelled())));
    assert!(matches!(finished(action), Ok(Output::Saved(Err(error))) if error.is_cancelled()));
    let (job, _) = connected_job(save_job());
    let (_, action) = job.step(JobEvent::Saved(Some(Error::new("conflict"))));
    assert_eq!(format_error(&finished(action).unwrap_err()), "Database error: conflict");
    let (_, action) = save_job().0.step(JobEvent::Released(Some(Error::new("busy"))));
    assert_eq!(format_error(&finished(action).unwrap_err()), "Database error: busy");
}

// ---- Running SQL ----

fn receive(messages: Vec<Message>) -> QueryResult {
    messages.into_iter().fold(QueryRun::new(), QueryRun::receive).finish()
}

#[test]
fn results_keep_the_last_set_and_are_bounded() {
    let result = receive(vec![
        Message::Columns(vec!["a".into()]),
        Message::Row(vec![some("1")]),
        Message::Complete(1),
        Message::Columns(vec!["b".into()]),
        Message::Row(vec![None]),
        Message::Row(vec![some("2")]),
        Message::Complete(2),
        Message::Other,
    ]);
    assert_eq!(result.columns, vec!["b"]);
    assert_eq!(result.rows, vec![vec![None], vec![some("2")]]);
    assert_eq!(result.status, "2 row(s)");
    let mut messages = vec![Message::Columns(vec!["a".into()])];
    messages.extend((0..MAX_RESULT_ROWS + 1).map(|row| Message::Row(vec![Some(row.to_string())])));
    let result = receive(messages);
    assert!(result.truncated);
    assert_eq!(result.rows.len(), 500);
    assert_eq!(result.status, "Showing first 500 rows; result truncated");
    assert_eq!(receive(vec![]).status, "Query completed");
    assert_eq!(
        receive(vec![Message::Complete(2), Message::Complete(3)]).status,
        "Query completed; 5 row(s) affected"
    );
}

fn report(code: &str, severity: &str) -> ServerError {
    ServerError {
        code: code.into(),
        severity: severity.into(),
        message: "stopped".into(),
        detail: None,
        hint: None,
        position: None,
    }
}

#[test]
fn statement_outcomes_tell_cancellation_from_loss() {
    let text = |outcome, cancelled| {
        let (error, broken) = supervise(outcome, cancelled);
        (error.map(|error| format_error(&error)), broken)
    };
    assert_eq!(text(StatementOutcome::Completed, true), (None, false));
    assert_eq!(
        text(StatementOutcome::Refused(report("57014", "ERROR")), true),
        (some("Database error: Database operation cancelled"), false)
    );
    assert_eq!(
        text(StatementOutcome::Refused(report("57014", "ERROR")), false),
        (some("SQL Error [57014]: ERROR: stopped"), false)
    );
    assert_eq!(
        text(StatementOutcome::Refused(report("57P01", "FATAL")), false),
        (
            some("Database error: Database connection failed; write outcome is unknown: SQL Error [57P01]: FATAL: stopped"),
            true
        )
    );
    assert_eq!(
        text(StatementOutcome::Disconnected("reset".into()), false),
        (
            some("Database error: Database connection failed; write outcome is unknown: reset"),
            true
        )
    );
    assert_eq!(
        text(StatementOutcome::Unconfirmed(some("refused")), true),
        (
            some("Database error: Cancellation was not confirmed within 5 seconds; write outcome is unknown; cancel request failed: refused"),
            true
        )
    );
    assert_eq!(
        text(StatementOutcome::Unconfirmed(None), true).0,
        some("Database error: Cancellation was not confirmed within 5 seconds; write outcome is unknown")
    );
}

// ---- Connections ----

#[test]
fn builds_noninteractive_local_forward_arguments() {
    let settings = TunnelSettings {
        database_host: "db.internal".into(),
        database_port: 5432,
        ssh: SshConfig {
            host: "gateway.example.com".into(),
            port: 2222,
            user: "devin".into(),
            identity_file: some("~/.ssh/work"),
        },
    };

    let arguments = ssh_arguments(&settings, 32123);

    assert!(arguments.windows(2).any(|pair| pair == ["-L", "127.0.0.1:32123:db.internal:5432"]));
    assert!(arguments.windows(2).any(|pair| pair == ["-i", "~/.ssh/work"]));
    assert!(arguments.windows(2).any(|pair| pair == ["-p", "2222"]));
    assert!(arguments.contains(&"BatchMode=yes".into()));
    assert!(!arguments.contains(&"ClearAllForwardings=yes".into()));
    assert_eq!(arguments.last().unwrap(), "gateway.example.com");
    let mut wide = settings;
    wide.database_host = "::1".into();
    wide.ssh.identity_file = Some(String::new());
    let arguments = ssh_arguments(&wide, 1);
    assert!(arguments.contains(&"127.0.0.1:1:[::1]:5432".into()));
    assert!(!arguments.contains(&"-i".into()));
}

#[test]
fn tunnels_are_shared_and_watched() {
    let mut direct = profile();
    assert_eq!(tunnel_settings(&direct), None);
    direct.ssh = Some(SshConfig {
        host: "gateway".into(),
        port: 22,
        user: "devin".into(),
        identity_file: None,
    });
    let settings = tunnel_settings(&direct).unwrap();
    let mut manager = TunnelManager::new();
    assert_eq!(manager.endpoint("local", &settings, true), None);
    manager.opened("local", settings.clone(), 4000);
    assert_eq!(manager.endpoint("local", &settings, true), Some(4000));
    assert_eq!(manager.endpoint("local", &settings, false), None);
    manager.opened("local", settings.clone(), 4001);
    manager.invalidate("local");
    assert_eq!(manager.endpoint("local", &settings, true), None);
    assert_eq!(watch_tunnel(&TunnelEvent::Ready), TunnelAction::Use);
    assert_eq!(watch_tunnel(&TunnelEvent::Pending), TunnelAction::Wait);
    assert_eq!(
        watch_tunnel(&TunnelEvent::Cancelled),
        TunnelAction::Kill(Error::new("SSH connection was cancelled"))
    );
    assert_eq!(
        watch_tunnel(&TunnelEvent::Exited { status: "exit status: 255".into(), diagnostics: " denied \n".into() }),
        TunnelAction::Report(Error::new("SSH tunnel failed with exit status: 255: denied"))
    );
    assert_eq!(
        watch_tunnel(&TunnelEvent::Expired { diagnostics: "\u{2003}".into() }),
        TunnelAction::Kill(Error::new(
            "SSH tunnel did not become ready within 10 seconds: no diagnostic output"
        ))
    );
    assert!(ensure_not_cancelled(true).unwrap_err().is_cancelled());
    assert!(ensure_not_cancelled(false).is_ok());
}

#[test]
fn given_passwords_come_before_the_environment() {
    let environment = some("from environment");
    let settings = connect_settings(&profile(), &some("given"), &environment, "other", None);
    assert_eq!(settings.password, some("given"));
    assert_eq!((settings.port, settings.through_localhost), (5432, false));
    assert_eq!(settings.database, "other");
    assert!(settings.require_tls);
    let settings = connect_settings(&profile(), &some(""), &environment, "other", Some(4000));
    assert_eq!(settings.password, environment);
    assert_eq!(settings.host, "db.internal");
    assert_eq!((settings.port, settings.through_localhost), (4000, true));
}

#[test]
fn metadata_requests_have_catalog_queries() {
    let request = Request::Tables {
        profile: profile(),
        password: None,
        database: "postgres".into(),
        schema: "public".into(),
    };
    let query = plan_metadata(&request).unwrap_or_else(|_| panic!("tables are metadata"));
    assert!(query.sql.starts_with("SELECT c.relname"));
    assert_eq!(query.parameters, vec!["public"]);
    let reply = MetadataReply::Relations(vec![("items".into(), "table".into())]);
    match metadata_output(&request, reply).unwrap() {
        Output::Tables { tables, .. } => assert_eq!(tables, vec![table("public", "items")]),
        _ => panic!("tables must come back"),
    }
    assert!(metadata_output(&request, MetadataReply::Names(vec![])).is_err());
    let request = Request::Databases { profile: profile(), password: None };
    let query = plan_metadata(&request).unwrap_or_else(|_| panic!("databases are metadata"));
    assert_eq!(query.database, "postgres");
    match metadata_output(&request, MetadataReply::Names(vec!["a".into()])).unwrap() {
        Output::Databases { names, .. } => assert_eq!(names, vec!["a"]),
        _ => panic!("databases must come back"),
    }
    let refused = |request| match plan_metadata(&request) {
        Ok(_) => panic!("no metadata"),
        Err(error) => format_error(&error),
    };
    assert_eq!(
        refused(Request::FetchPage { page: page_ref() }),
        "Database error: session lifecycle requests require a session manager"
    );
    assert_eq!(
        refused(Request::Preview { profile: profile(), password: None, table: table("a", "b") }),
        "Database error: table results require a cursor manager"
    );
}

#[test]
fn only_table_columns_are_editable() {
    let catalog = vec![CatalogColumn {
        name: "id".into(),
        data_type: "integer".into(),
        stored: true,
        primary_key: true,
        insertable: false,
    }];
    let columns = table_columns(&table("public", "items"), &catalog);
    assert!(columns[0].editable && !columns[0].insertable && columns[0].primary_key);
    let mut view = table("public", "items");
    view.kind = "view".into();
    assert!(!table_columns(&view, &catalog)[0].editable);
}

// ---- Sessions ----

fn query(sql: &str) -> Request {
    Request::Query { profile: profile(), database: "postgres".into(), sql: sql.into() }
}

fn operate(session: Session, request: Request, first: bool) -> (Operation, RunAction) {
    Operation::new(session, request, "postgres".into(), first, 11).begin(false, false)
}

fn connected_session() -> Session {
    let mut session = Session::new(profile());
    session.connected = true;
    session.pid = 5;
    session.state = SessionState::Connected(TransactionState::Idle);
    session
}

fn outcome(action: RunAction) -> (Result<Output, Error>, SessionState) {
    match action {
        RunAction::Done { outcome, state } => (outcome, state),
        _ => panic!("the operation must be done"),
    }
}

fn observe(step: (Operation, RunAction), state: TransactionState) -> (Operation, RunAction) {
    assert!(matches!(step.1, RunAction::Observe { pid: 5, .. }));
    step.0.step(RunEvent::Observed(state), false)
}

#[test]
fn session_labels_and_confirmation_follow_the_state() {
    let labels = [
        (SessionState::Disconnected, "disconnected", false),
        (SessionState::Connected(TransactionState::Idle), "autocommit", false),
        (SessionState::Connected(TransactionState::Paging), "result cursor open", false),
        (SessionState::Connected(TransactionState::Open), "transaction open", true),
        (
            SessionState::Connected(TransactionState::Failed),
            "transaction failed · ROLLBACK required",
            true,
        ),
        (SessionState::Connected(TransactionState::Unknown), "transaction state unknown", true),
        (SessionState::Lost, "session lost · reconnect required", false),
    ];
    for (state, label, confirm) in labels {
        assert_eq!(state.label(), label);
        assert_eq!(state.needs_confirmation(), confirm);
    }
    assert_eq!(observed_state(&some("idle")), Some(TransactionState::Idle));
    assert_eq!(observed_state(&some("idle in transaction")), Some(TransactionState::Open));
    assert_eq!(
        observed_state(&some("idle in transaction (aborted)")),
        Some(TransactionState::Failed)
    );
    assert_eq!(observed_state(&some("active")), None);
    assert_eq!(observed_state(&None), Some(TransactionState::Unknown));
}

#[test]
fn first_queries_connect_and_page_their_rows() {
    let (run, action) = operate(Session::new(profile()), query("SELECT id FROM items"), true);
    assert!(matches!(action, RunAction::Connect { .. }));
    let (run, action) = run.step(RunEvent::Connected(Ok(5)), false);
    match action {
        RunAction::Open { commands } => assert_eq!(commands[0], "BEGIN READ ONLY"),
        _ => panic!("a cursor must open"),
    }
    let (run, action) = run.step(RunEvent::Opened(None), false);
    assert!(matches!(action, RunAction::Fetch { .. }));
    let rows = QueryResult { rows: vec![vec![some("1")]; PAGE_SIZE], ..Default::default() };
    let (run, action) = run.step(RunEvent::Rows(Ok(rows)), false);
    let mut result = match action {
        RunAction::Attach { sql, autocommit, result, .. } => {
            assert_eq!(sql, "SELECT id FROM items");
            assert!(autocommit);
            result
        }
        _ => panic!("the query must be analysed"),
    };
    assert!(result.page.is_some());
    result.source = Some(source());
    let step = run.step(RunEvent::Attached(Ok(result)), false);
    let (run, action) = observe(step, TransactionState::Open);
    let (output, state) = outcome(action);
    assert!(matches!(output, Ok(Output::Result(_))));
    assert_eq!(state, SessionState::Connected(TransactionState::Paging));
    assert!(run.session.cursor.is_some());
    assert_eq!(run.session.edit_source, Some(source()));

    let page = run.session.cursor.as_ref().unwrap().page.clone();
    let mut stale = page.clone();
    stale.id = 10;
    let (_, action) = operate(run.session.clone(), Request::FetchPage { page: stale }, false);
    assert!(matches!(action, RunAction::Observe { .. }));
    let (next, action) = operate(run.session.clone(), Request::FetchPage { page }, false);
    assert!(matches!(action, RunAction::Fetch { .. }));
    let (next, action) = next.step(RunEvent::Rows(Ok(QueryResult::default())), false);
    match &action {
        RunAction::Close { sql } => assert_eq!(sql, "ROLLBACK"),
        _ => panic!("a finished cursor must close"),
    }
    let step = next.step(RunEvent::Closed(CloseOutcome::Completed), false);
    let (next, action) = observe(step, TransactionState::Idle);
    assert!(matches!(outcome(action).0, Ok(Output::Page { .. })));
    assert!(next.session.cursor.is_none());

    let (replaced, action) = operate(run.session, query("COMMIT"), false);
    assert!(matches!(action, RunAction::Close { .. }));
    assert_eq!(replaced.session.edit_source, None);
    let (replaced, action) = replaced.step(RunEvent::Closed(CloseOutcome::Completed), false);
    assert!(matches!(action, RunAction::Execute { .. }));
    let step = replaced.step(RunEvent::Rows(Ok(QueryResult::default())), false);
    let (_, action) = observe(step, TransactionState::Idle);
    assert!(matches!(outcome(action).0, Ok(Output::Result(_))));
}

#[test]
fn lost_sessions_wait_for_an_explicit_connect() {
    let (run, action) =
        Operation::new(connected_session(), query("SELECT 1"), "postgres".into(), false, 1)
            .begin(false, true);
    let (result, state) = outcome(action);
    assert_eq!(state, SessionState::Lost);
    assert_eq!(
        format_error(&result.unwrap_err()),
        "Database error: SQL session is disconnected or lost; use Connect or Reconnect explicitly"
    );
    let connect =
        Request::Connect { profile: profile(), database: "postgres".into(), reconnect: false };
    let (run, action) = operate(run.session, connect, false);
    assert!(matches!(action, RunAction::Connect { .. }));
    let (run, action) = run.step(RunEvent::Connected(Err(Error::new("refused"))), false);
    assert_eq!(outcome(action).1, SessionState::Lost);
    let mut other = profile();
    other.host = "elsewhere".into();
    let connect = Request::Connect { profile: other, database: "postgres".into(), reconnect: false };
    let (_, action) = operate(run.session, connect, false);
    assert_eq!(
        format_error(&outcome(action).0.unwrap_err()),
        "Database error: Connection settings changed; disconnect and reopen the session"
    );
    let (_, action) =
        Operation::new(Session::new(profile()), query("SELECT 1"), "postgres".into(), true, 1)
            .begin(true, false);
    assert!(outcome(action).0.unwrap_err().is_cancelled());
}

#[test]
fn custom_saves_need_the_current_result() {
    let request = Request::SaveChanges {
        profile: profile(),
        password: None,
        source: source(),
        changes: vec![update("a")],
    };
    let refused = |session: Session| {
        let (run, action) = operate(session, request.clone(), false);
        let step = observe((run, action), TransactionState::Idle);
        format_error(&outcome(step.1).0.unwrap_err())
    };
    assert_eq!(
        refused(connected_session()),
        "Database error: Query result is no longer current; run the query again"
    );
    let mut current = connected_session();
    current.edit_source = Some(source());
    let mut open = current.clone();
    open.state = SessionState::Connected(TransactionState::Open);
    assert_eq!(
        refused(open),
        "Database error: End the SQL transaction and run the query again before editing"
    );
    let mut shared = current.clone();
    shared.cursor = Some(Cursor::new(1, "local", "postgres", false, false));
    assert_eq!(refused(shared), "Database error: Cannot save inside a user transaction");
    let (run, action) = operate(current.clone(), request.clone(), false);
    assert!(matches!(action, RunAction::Save { .. }));
    let step = run.step(RunEvent::Saved(None), false);
    let (run, action) = observe(step, TransactionState::Idle);
    assert!(matches!(outcome(action).0, Ok(Output::QuerySaved)));
    assert_eq!(run.session.edit_source, None);
    let (run, _) = operate(current.clone(), request.clone(), false);
    let (run, _) = run.step(RunEvent::Saved(Some(Error::new("conflict"))), false);
    assert_eq!(run.session.edit_source, Some(source()));
    let (run, _) = operate(current, request, false);
    let (run, _) = run.step(RunEvent::Saved(Some(Error::unknown_commit("lost".into()))), false);
    assert_eq!(run.session.edit_source, None);
}

#[test]
fn the_session_table_routes_requests() {
    let key = ("local".to_owned(), "postgres".to_owned());
    let mut manager = SessionManager::new();
    let (session, first) = match manager.route(&query("SELECT 1")) {
        Route::Session { session, first, .. } => (session, first),
        _ => panic!("a session must serve SQL"),
    };
    assert!(first);
    match manager.route(&query("SELECT 1")) {
        Route::Refused(error) => assert_eq!(
            format_error(&error),
            "Database error: This SQL session already has an active operation"
        ),
        _ => panic!("a busy session must refuse"),
    }
    assert!(manager.states(&vec![]).is_empty());
    assert_eq!(
        format_error(&manager.invalidate_profile("local", &vec![]).unwrap_err()),
        "Database error: Wait for the running operation on local"
    );
    manager.release(&key.0, &key.1, session);
    assert_eq!(manager.states(&vec![]), vec![(key.clone(), SessionState::Disconnected)]);
    match manager.route(&query("SELECT 1")) {
        Route::Session { first, .. } => assert!(!first),
        _ => panic!("a session must serve SQL"),
    }
    manager.release(&key.0, &key.1, connected_session());
    assert_eq!(
        format_error(&manager.invalidate_profile("local", &vec![]).unwrap_err()),
        "Database error: Disconnect all SQL sessions for this profile before changing or deleting it"
    );
    assert_eq!(
        manager.states(&vec![key.clone()]),
        vec![(key.clone(), SessionState::Lost)]
    );
    assert!(manager.invalidate_profile("local", &vec![]).is_ok());
    assert!(manager.states(&vec![]).is_empty());
    match manager.route(&Request::FetchPage { page: page_ref() }) {
        Route::Refused(error) => assert_eq!(
            format_error(&error),
            "Database error: SQL result cursor is closed; run the query again"
        ),
        _ => panic!("an unknown cursor must be refused"),
    }
    let preview =
        Request::Preview { profile: profile(), password: None, table: source().table };
    assert!(matches!(manager.route(&preview), Route::Preview));
    let mut page = page_ref();
    page.preview = true;
    assert!(matches!(manager.route(&Request::FetchPage { page }), Route::PreviewPage));
    manager.close_all();
}

#[test]
fn previews_take_the_cursor_of_the_sql_session() {
    let mut manager = SessionManager::new();
    assert_eq!(manager.begin_cursor_close("local", "postgres", false).unwrap().is_none(), true);
    manager.route(&query("SELECT 1"));
    assert!(manager.begin_cursor_close("local", "postgres", false).is_err());
    let mut session = connected_session();
    session.cursor = Some(Cursor::new(1, "local", "postgres", false, true));
    session.state = SessionState::Connected(TransactionState::Paging);
    session.edit_source = Some(source());
    manager.release("local", "postgres", session);
    let taken = manager.begin_cursor_close("local", "postgres", false);
    let (session, cursor) = match taken {
        Ok(Some(taken)) => taken,
        _ => panic!("the cursor must be handed out"),
    };
    assert_eq!(session.edit_source, None);
    let failure = manager.end_cursor_close(
        "local",
        "postgres",
        session,
        &cursor,
        CloseOutcome::Completed,
        false,
    );
    assert_eq!(failure, None);
    assert_eq!(
        manager.states(&vec![])[0].1,
        SessionState::Connected(TransactionState::Idle)
    );
}
