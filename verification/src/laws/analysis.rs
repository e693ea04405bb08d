//! Custom queries become editable only where each row is one row of one table.
use vstd::prelude::*;
use vstd::string::*;

use crate::db::paging::PageRefView;
use crate::db::query_edits::{
    attach_start, catalog_index, common_table, field_mapping, field_names, is_first,
    missing_keys, projected_columns, repeats_column, resolve_source, AttachActionView,
    AttachPhaseView, AttachReplyView, AttachView, FieldView, RelationView,
};
use crate::db::syntax::{
    named_child, names_object, occurs, one_table_read, part, reached, read_text, single_read, SyntaxNodeView,
};
use crate::db::{QueryResultView, ResultColumnView, TableRefView, TableResultSourceView};
use crate::selection::{selected, selected_ascends};

verus! {

/// A statement that is read page by page is written nowhere: it is the only statement, every word that
/// inserts, updates, deletes, merges, stores or locks is absent, and it runs as it was written.
pub proof fn paged_statements_only_read(nodes: Seq<SyntaxNodeView>, text: Seq<char>, i: int)
    requires
        read_text(nodes) == Some(text),
    ensures
        exists|s: int|
            #![trigger part(nodes, 0, s)]
            part(nodes, 0, s) && nodes[s].kind == "statement"@ && nodes[s].text == text && (
            part(nodes, 0, i) ==> i == s) && (reached(nodes, s, i) ==> nodes[i].kind
                != "keyword_insert"@ && nodes[i].kind != "keyword_update"@ && nodes[i].kind
                != "keyword_delete"@ && nodes[i].kind != "keyword_merge"@ && nodes[i].kind
                != "keyword_into"@ && nodes[i].kind != "keyword_for"@) && (part(nodes, s, i) ==> (
            nodes[i].kind == "select"@ || nodes[i].kind == "from"@ || nodes[i].kind
                == "set_operation"@ || nodes[i].kind == "cte"@ || nodes[i].kind == "keyword_with"@
                || nodes[i].kind == "keyword_recursive"@)),
        !nodes[0].has_error,
{
    let s = choose|s: int| single_read(nodes, s);
    assert(single_read(nodes, s));
    assert(part(nodes, 0, s));
}

/// Rows are those of one table only where nothing joins, groups, nests, combines or calls: exactly one select
/// from exactly one relation, which names an object.
pub proof fn one_table_reads_combine_nothing(nodes: Seq<SyntaxNodeView>, i: int)
    requires
        one_table_read(nodes),
    ensures
        !nodes[0].has_error,
        reached(nodes, 0, i) ==> nodes[i].kind != "cte"@ && nodes[i].kind != "subquery"@
            && nodes[i].kind != "set_operation"@ && nodes[i].kind != "group_by"@ && nodes[i].kind
            != "keyword_distinct"@ && nodes[i].kind != "join"@ && nodes[i].kind != "cross_join"@
            && nodes[i].kind != "lateral_join"@ && nodes[i].kind != "lateral_cross_join"@
            && nodes[i].kind != "invocation"@ && nodes[i].kind != "window_function"@
            && nodes[i].kind != "window_clause"@ && nodes[i].kind != "keyword_into"@
            && nodes[i].kind != "keyword_for"@,
        occurs(nodes, "relation"@, i) ==> exists|c: int|
            #![trigger nodes[c]]
            i < c < nodes.len() && nodes[c].depth == nodes[i].depth + 1 && nodes[c].named
                && nodes[c].kind == "object_reference"@,
{
    if occurs(nodes, "relation"@, i) {
        assert(names_object(nodes, i));
        let c = choose|c: int|
            named_child(nodes, i, c) && nodes[c].kind == "object_reference"@;
        assert(named_child(nodes, i, c) && nodes[c].kind == "object_reference"@);
        assert(nodes[c].named);
    }
}

/// Two different selects, or two different relations, are more than one table.
pub proof fn one_table_reads_have_one_relation(nodes: Seq<SyntaxNodeView>, i: int, j: int)
    requires
        one_table_read(nodes),
    ensures
        occurs(nodes, "relation"@, i) && occurs(nodes, "relation"@, j) ==> i == j,
        occurs(nodes, "select"@, i) && occurs(nodes, "select"@, j) ==> i == j,
        exists|r: int| occurs(nodes, "relation"@, r),
        exists|r: int| occurs(nodes, "select"@, r),
{
    let relations = |i: int| occurs(nodes, "relation"@, i);
    let selects = |i: int| occurs(nodes, "select"@, i);
    selected_ascends(nodes.len(), relations);
    selected_ascends(nodes.len(), selects);
    let one = selected(nodes.len(), relations);
    let two = selected(nodes.len(), selects);
    assert(relations(one[0]));
    assert(selects(two[0]));
    if relations(i) {
        assert(one.contains(i));
    }
    if relations(j) {
        assert(one.contains(j));
    }
    if selects(i) {
        assert(two.contains(i));
    }
    if selects(j) {
        assert(two.contains(j));
    }
}

/// Analysing a query keeps what it showed: columns, rows, status, truncation and continuation.
pub open spec fn same_rows(a: QueryResultView, b: QueryResultView) -> bool {
    a.columns == b.columns && a.rows == b.rows && a.status == b.status && a.truncated
        == b.truncated && a.page == b.page
}

/// The analysis of a query never changes what was fetched; it ends either with a source, and then without a
/// reason, or with a reason.
pub proof fn analysis_keeps_the_rows(attach: AttachView, reply: AttachReplyView)
    requires
        attach.result.source is None,
        attach.result.read_only_reason is Some,
    ensures
        same_rows(attach.step(reply).0.result, attach.result),
        attach.step(reply).1 matches AttachActionView::Done(result) ==> same_rows(
            result,
            attach.result,
        ) && (result.source is Some <==> result.read_only_reason is None),
        !(attach.step(reply).1 is Done) ==> attach.step(reply).0.result == attach.result,
        attach.step(reply).0.sql == attach.sql && attach.step(reply).0.page == attach.page,
{
}

/// Inside a transaction of the user, and for every shape but a plain read of one table, nothing is prepared
/// and the rows are read-only. Otherwise the very statement is prepared.
pub proof fn analysis_starts_in_autocommit_only(
    sql: Seq<char>,
    page: PageRefView,
    autocommit: bool,
    result: QueryResultView,
)
    requires
        result.source is None,
    ensures
        ({
            let (attach, action) = attach_start(sql, page, autocommit, result);
            &&& same_rows(attach.result, result)
            &&& attach.result.source is None && attach.result.read_only_reason is Some
            &&& !autocommit ==> action is Done
            &&& action matches AttachActionView::Done(shown) ==> shown == attach.result
            &&& !(action is Done) ==> action == AttachActionView::Prepare(sql) && attach.sql == sql
                && attach.page == page && attach.phase is Preparing
        }),
{
}

/// The fields of a query point at one table: that of every field that has one. Fields of two tables end the
/// analysis, and so do fields that are named otherwise than the columns that came.
pub proof fn fields_point_at_one_table(attach: AttachView, fields: Seq<FieldView>, k: int)
    requires
        attach.phase is Preparing,
        0 <= k < fields.len(),
    ensures
        attach.step(AttachReplyView::Fields(fields)).1 matches AttachActionView::Relation(oid) ==> {
            &&& fields[k].table_oid is Some ==> fields[k].table_oid == Some(oid)
            &&& attach.result.columns.len() == fields.len() && attach.result.columns[k]
                == fields[k].name
            &&& attach.step(AttachReplyView::Fields(fields)).0.phase == (AttachPhaseView::Locating {
                fields,
                oid,
            })
        },
{
    if attach.step(AttachReplyView::Fields(fields)).1 is Relation {
        let oid = choose|oid: u32| common_table(fields, oid);
        assert(common_table(fields, oid));
        assert(field_names(fields)[k] == fields[k].name);
    }
}

/// Only ordinary tables without heirs and partitioned tables go on, as tables of the page's profile and
/// database.
pub proof fn only_physical_tables_are_analysed(
    attach: AttachView,
    fields: Seq<FieldView>,
    oid: u32,
    relation: RelationView,
)
    requires
        attach.phase == (AttachPhaseView::Locating { fields, oid }),
    ensures
        ({
            let (next, action) = attach.step(AttachReplyView::Relation(relation));
            &&& action is Columns <==> (relation.kind == "r"@ && !relation.inherited)
                || relation.kind == "p"@
            &&& !(action is Columns) ==> action is Done && next.result.source is None
                == attach.result.source is None && next.result.read_only_reason is Some
            &&& action matches AttachActionView::Columns(table) ==> table.profile_id
                == attach.page.profile_id && table.database == attach.page.database && table.schema
                == relation.schema && table.name == relation.name && table.kind == (
            if relation.kind == "p"@ {
                "partitioned table"@
            } else {
                "table"@
            })
        }),
{
    reveal_strlit("r");
    reveal_strlit("p");
    assert("r"@[0] == 'r' && "p"@[0] == 'p');
}

/// Whether a field is column `j` of the table: by the table's object id and the column's number.
pub open spec fn is_column(field: FieldView, oid: u32, attribute_ids: Seq<i16>, j: int) -> bool {
    0 <= j < attribute_ids.len() && field.table_oid == Some(oid) && field.column_id == Some(
        attribute_ids[j],
    )
}

/// Each column of an editable query is the table column that its field shows, by number and not by name; an
/// expression is read-only and keeps the name it was given. No table column is shown twice, and the whole key
/// is shown.
pub proof fn editable_columns_are_the_fields_columns(
    sql: Seq<char>,
    execution_id: u64,
    oid: u32,
    table: TableRefView,
    fields: Seq<FieldView>,
    catalog: Seq<ResultColumnView>,
    attribute_ids: Seq<i16>,
    source: TableResultSourceView,
)
    requires
        catalog.len() == attribute_ids.len() <= usize::MAX,
        attribute_ids.no_duplicates(),
        resolve_source(sql, execution_id, oid, table, fields, catalog, attribute_ids) == Ok::<
            TableResultSourceView,
            Seq<char>,
        >(source),
    ensures
        source.table == table && source.columns.len() == fields.len(),
        source.query matches Some(query) && query.sql == sql && query.execution_id == execution_id
            && query.table_oid == oid && query.table_columns == catalog && query.attribute_ids
            == attribute_ids && query.mapping.len() == fields.len(),
        forall|k: int, j: int|
            0 <= k < fields.len() && #[trigger] is_column(fields[k], oid, attribute_ids, j)
                ==> source.columns[k] == catalog[j] && source.query->Some_0.mapping[k] == Some(
                j as usize,
            ),
        forall|k: int|
            0 <= k < fields.len() && (forall|j: int|
                !is_column(fields[k], oid, attribute_ids, j)) ==> (
            #[trigger] source.columns[k]).name == fields[k].name && !source.columns[k].editable
                && !source.columns[k].primary_key && !source.columns[k].insertable
                && source.query->Some_0.mapping[k] is None,
        forall|j: int|
            0 <= j < catalog.len() && (#[trigger] catalog[j]).primary_key ==> exists|k: int|
                0 <= k < fields.len() && #[trigger] is_column(fields[k], oid, attribute_ids, j),
{
    let mapping = field_mapping(fields, oid, attribute_ids);
    assert(source.columns == projected_columns(fields, mapping, catalog));
    assert forall|k: int, j: int|
        0 <= k < fields.len() && #[trigger] is_column(fields[k], oid, attribute_ids, j) implies mapping[k]
        == Some(j as usize) by {
        lemma_mapped(fields[k], oid, attribute_ids, j);
    }
    assert forall|k: int|
        0 <= k < fields.len() && (forall|j: int|
            !is_column(fields[k], oid, attribute_ids, j)) implies #[trigger] mapping[k] is None by {
        if mapping[k] is Some {
            let j = choose|j: int| is_first(attribute_ids, fields[k].column_id->Some_0, j);
            assert(is_first(attribute_ids, fields[k].column_id->Some_0, j));
            assert(is_column(fields[k], oid, attribute_ids, j));
        }
    }
    assert forall|j: int| 0 <= j < catalog.len() && (
    #[trigger] catalog[j]).primary_key implies exists|k: int|
        0 <= k < fields.len() && #[trigger] is_column(fields[k], oid, attribute_ids, j) by {
        let absent = |i: int| catalog[i].primary_key && !mapping.contains(Some(i as usize));
        selected_ascends(catalog.len(), absent);
        assert(missing_keys(catalog, mapping) == selected(catalog.len(), absent));
        if absent(j) {
            assert(selected(catalog.len(), absent).contains(j));
        }
        let k = choose|k: int| 0 <= k < mapping.len() && mapping[k] == Some(j as usize);
        let other = choose|i: int| is_first(attribute_ids, fields[k].column_id->Some_0, i);
        assert(catalog_index(fields[k], oid, attribute_ids) == Some(j as usize));
        assert(is_first(attribute_ids, fields[k].column_id->Some_0, other));
        assert(other == j);
        assert(is_column(fields[k], oid, attribute_ids, j));
    }
}

proof fn lemma_mapped(field: FieldView, oid: u32, attribute_ids: Seq<i16>, j: int)
    requires
        attribute_ids.len() <= usize::MAX,
        attribute_ids.no_duplicates(),
        is_column(field, oid, attribute_ids, j),
    ensures
        catalog_index(field, oid, attribute_ids) == Some(j as usize),
{
    assert(is_first(attribute_ids, field.column_id->Some_0, j));
    let other = choose|i: int| is_first(attribute_ids, field.column_id->Some_0, i);
    assert(attribute_ids[other] == attribute_ids[j]);
}

/// Rows of a query stay read-only where a column of the table is shown twice, where the table has no key, and
/// where the key is not shown completely; otherwise they become editable.
pub proof fn incomplete_queries_stay_read_only(
    sql: Seq<char>,
    execution_id: u64,
    oid: u32,
    table: TableRefView,
    fields: Seq<FieldView>,
    catalog: Seq<ResultColumnView>,
    attribute_ids: Seq<i16>,
    j: int,
    first: int,
    second: int,
)
    requires
        catalog.len() == attribute_ids.len() <= usize::MAX,
        attribute_ids.no_duplicates(),
        0 <= j < catalog.len(),
    ensures
        0 <= first < second < fields.len() && is_column(fields[first], oid, attribute_ids, j)
            && is_column(fields[second], oid, attribute_ids, j) ==> resolve_source(
            sql,
            execution_id,
            oid,
            table,
            fields,
            catalog,
            attribute_ids,
        ) is Err,
        catalog[j].primary_key && (forall|k: int|
            0 <= k < fields.len() ==> !is_column(#[trigger] fields[k], oid, attribute_ids, j))
            ==> resolve_source(sql, execution_id, oid, table, fields, catalog, attribute_ids) is Err,
        (forall|i: int| 0 <= i < catalog.len() ==> !(#[trigger] catalog[i]).primary_key)
            ==> resolve_source(sql, execution_id, oid, table, fields, catalog, attribute_ids) is Err,
{
    let mapping = field_mapping(fields, oid, attribute_ids);
    if 0 <= first < second < fields.len() && is_column(fields[first], oid, attribute_ids, j)
        && is_column(fields[second], oid, attribute_ids, j) {
        lemma_mapped(fields[first], oid, attribute_ids, j);
        lemma_mapped(fields[second], oid, attribute_ids, j);
        assert(mapping[second] is Some && mapping[first] == mapping[second]);
        assert(repeats_column(mapping));
    }
    let resolved = resolve_source(sql, execution_id, oid, table, fields, catalog, attribute_ids);
    if resolved is Ok && catalog[j].primary_key {
        editable_columns_are_the_fields_columns(
            sql,
            execution_id,
            oid,
            table,
            fields,
            catalog,
            attribute_ids,
            resolved->Ok_0,
        );
    }
}

} // verus!
