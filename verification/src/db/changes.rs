//! Batch writes use one dedicated transaction, separate from the SQL editor's session.
use vstd::prelude::*;
use vstd::string::*;

use crate::db::{
    any_primary_key, has_primary_key, outcome_view, plain_error, quote_identifier, quoted, Error,
    ErrorView, ResultColumn, ResultColumnView, TableResultSource, TableResultSourceView,
};
use crate::selection::{
    lemma_positions_push, lemma_selected_agree, lemma_selected_prefix, positions, selected,
    selected_ascends,
};
use crate::text::{concat3, decimal, decimal_text, join, joined};
use crate::value::Value;

verus! {

/// A staged change of one row. A false default flag with no value means SQL NULL; true lets the
/// server supply the default.
#[derive(Debug, PartialEq, Eq)]
pub enum RowChange {
    Insert {
        values: Vec<Option<String>>,
        defaults: Vec<bool>,
    },
    Update {
        original: Vec<Option<String>>,
        values: Vec<Option<String>>,
    },
    Delete {
        original: Vec<Option<String>>,
    },
}

/// What a `RowChange` denotes.
pub ghost enum RowChangeView {
    Insert {
        values: Seq<Option<Seq<char>>>,
        defaults: Seq<bool>,
    },
    Update {
        original: Seq<Option<Seq<char>>>,
        values: Seq<Option<Seq<char>>>,
    },
    Delete {
        original: Seq<Option<Seq<char>>>,
    },
}

impl DeepView for RowChange {
    type V = RowChangeView;

    open spec fn deep_view(&self) -> RowChangeView {
        match self {
            RowChange::Insert { values, defaults } => RowChangeView::Insert {
                values: values.deep_view(),
                defaults: defaults.deep_view(),
            },
            RowChange::Update { original, values } => RowChangeView::Update {
                original: original.deep_view(),
                values: values.deep_view(),
            },
            RowChange::Delete { original } => RowChangeView::Delete {
                original: original.deep_view(),
            },
        }
    }
}

impl Clone for RowChange {
    fn clone(&self) -> (copy: RowChange)
        ensures
            copy@ == self@,
    {
        self.duplicate()
    }
}

impl View for RowChange {
    type V = RowChangeView;

    open spec fn view(&self) -> RowChangeView {
        self.deep_view()
    }
}

impl Value for RowChange {
    fn duplicate(&self) -> (copy: RowChange) {
        match self {
            RowChange::Insert { values, defaults } => RowChange::Insert {
                values: values.duplicate(),
                defaults: defaults.duplicate(),
            },
            RowChange::Update { original, values } => RowChange::Update {
                original: original.duplicate(),
                values: values.duplicate(),
            },
            RowChange::Delete { original } => RowChange::Delete { original: original.duplicate() },
        }
    }

    fn same(&self, other: &RowChange) -> (same: bool) {
        match (self, other) {
            (
                RowChange::Insert { values: values_a, defaults: defaults_a },
                RowChange::Insert { values: values_b, defaults: defaults_b },
            ) => {
                values_a.same(values_b) && defaults_a.same(defaults_b)
            },
            (
                RowChange::Update { original: original_a, values: values_a },
                RowChange::Update { original: original_b, values: values_b },
            ) => {
                original_a.same(original_b) && values_a.same(values_b)
            },
            (RowChange::Delete { original: original_a }, RowChange::Delete { original: original_b }) => original_a.same(original_b),
            _ => false,
        }
    }
}

/// The `number`th parameter, converted from text to the column's type.
pub open spec fn typed_parameter(number: nat, data_type: Seq<char>) -> Seq<char> {
    "$"@ + decimal(number) + "::text::"@ + data_type
}

fn typed_parameter_text(number: usize, data_type: &str) -> (text: String)
    ensures
        text@ == typed_parameter(number as nat, data_type@),
{
    let mut text = concat3("$", decimal_text(number as u64).as_str(), "::text::");
    text.append(data_type);
    text
}

/// The condition that a column still holds the value of a parameter. Primary keys keep native
/// equality; other values also support json, xml and geometric types.
pub open spec fn column_predicate(column: ResultColumnView, number: nat) -> Seq<char> {
    let value = typed_parameter(number, column.data_type);
    if column.primary_key {
        quoted(column.name) + " IS NOT DISTINCT FROM "@ + value
    } else {
        "to_jsonb("@ + quoted(column.name) + ") IS NOT DISTINCT FROM to_jsonb("@ + value + ")"@
    }
}

/// The condition that a column still holds the value of a parameter.
pub fn predicate(column: &ResultColumn, parameter: usize) -> (text: String)
    ensures
        text@ == column_predicate(column@, parameter as nat),
{
    let name = quote_identifier(column.name.as_str());
    let value = typed_parameter_text(parameter, column.data_type.as_str());
    if column.primary_key {
        concat3(name.as_str(), " IS NOT DISTINCT FROM ", value.as_str())
    } else {
        let mut text = concat3("to_jsonb(", name.as_str(), ") IS NOT DISTINCT FROM to_jsonb(");
        text.append(value.as_str());
        text.append(")");
        text
    }
}

/// One row's cells; none is SQL NULL.
pub type RowView = Seq<Option<Seq<char>>>;

/// A statement and its parameters.
pub type StatementView = (Seq<char>, RowView);

/// The columns that an update assigns: those that are editable and differ.
pub open spec fn changed_columns(
    columns: Seq<ResultColumnView>,
    original: RowView,
    values: RowView,
) -> Seq<int> {
    selected(columns.len(), |i: int| columns[i].editable && original[i] != values[i])
}

/// The columns that identify a row.
pub open spec fn key_columns(columns: Seq<ResultColumnView>) -> Seq<int> {
    selected(columns.len(), |i: int| columns[i].primary_key)
}

/// The columns that an update compares: the key, and then the original edited values, so that a
/// concurrent edit is not overwritten.
pub open spec fn compared_columns(
    columns: Seq<ResultColumnView>,
    original: RowView,
    values: RowView,
) -> Seq<int> {
    key_columns(columns) + selected(
        columns.len(),
        |i: int| columns[i].editable && original[i] != values[i] && !columns[i].primary_key,
    )
}

/// The assignments of an update, numbered from the first parameter.
pub open spec fn assignments(columns: Seq<ResultColumnView>, changed: Seq<int>) -> Seq<Seq<char>> {
    Seq::new(
        changed.len(),
        |k: int|
            quoted(columns[changed[k]].name) + " = "@ + typed_parameter(
                (k + 1) as nat,
                columns[changed[k]].data_type,
            ),
    )
}

/// The conditions on some columns, numbered behind `earlier` parameters.
pub open spec fn predicates(
    columns: Seq<ResultColumnView>,
    compared: Seq<int>,
    earlier: nat,
) -> Seq<Seq<char>> {
    Seq::new(
        compared.len(),
        |k: int| column_predicate(columns[compared[k]], (earlier + k + 1) as nat),
    )
}

/// The cells at some positions.
pub open spec fn cells_at(row: RowView, indices: Seq<int>) -> RowView {
    Seq::new(indices.len(), |k: int| row[indices[k]])
}

/// The text of an update that assigns `changed` and compares `compared`.
pub open spec fn update_text(
    source: TableResultSourceView,
    changed: Seq<int>,
    compared: Seq<int>,
) -> Seq<char> {
    "UPDATE "@ + source.table.qualified() + " SET "@ + joined(
        assignments(source.columns, changed),
        ", "@,
    ) + " WHERE "@ + joined(predicates(source.columns, compared, changed.len()), " AND "@)
}

/// Whether a column that cannot be edited differs.
pub open spec fn read_only_changed(
    columns: Seq<ResultColumnView>,
    original: RowView,
    values: RowView,
) -> bool {
    exists|i: int|
        0 <= i < columns.len() && !(#[trigger] columns[i]).editable && original[i] != values[i]
}

/// The statement that updates one row.
pub open spec fn update_statement(
    source: TableResultSourceView,
    original: RowView,
    values: RowView,
) -> Result<StatementView, ErrorView> {
    let columns = source.columns;
    let changed = changed_columns(columns, original, values);
    let compared = compared_columns(columns, original, values);
    if columns.len() != original.len() || original.len() != values.len() {
        Err(plain_error("row data does not match the table metadata"@))
    } else if read_only_changed(columns, original, values) {
        Err(plain_error("generated or read-only columns cannot be changed"@))
    } else if changed.len() == 0 {
        Err(plain_error("the row has no editable changes"@))
    } else if !has_primary_key(columns) {
        Err(plain_error("the table has no primary key"@))
    } else {
        Ok(
            (
                update_text(source, changed, compared),
                cells_at(values, changed) + cells_at(original, compared),
            ),
        )
    }
}

fn differs(a: &Vec<Option<String>>, b: &Vec<Option<String>>, index: usize) -> (result: bool)
    requires
        index < a@.len(),
        index < b@.len(),
    ensures
        result == (a.deep_view()[index as int] != b.deep_view()[index as int]),
{
    !a[index].same(&b[index])
}

fn push_cell(row: &mut Vec<Option<String>>, cell: &Option<String>)
    ensures
        final(row).deep_view() == old(row).deep_view().push(cell.deep_view()),
        final(row)@.len() == old(row)@.len() + 1,
{
    row.push(cell.duplicate());
    assert(row.deep_view() =~= old(row).deep_view().push(cell.deep_view()));
}

fn push_text(texts: &mut Vec<String>, text: String)
    ensures
        final(texts).deep_view() == old(texts).deep_view().push(text@),
{
    texts.push(text);
    assert(texts.deep_view() =~= old(texts).deep_view().push(text@));
}

/// Builds typed parameters from catalog metadata; edited values never enter the text.
pub fn build_update(
    source: &TableResultSource,
    original: &Vec<Option<String>>,
    values: &Vec<Option<String>>,
) -> (result: Result<(String, Vec<Option<String>>), Error>)
    ensures
        outcome_view(result) == update_statement(
            source@,
            original.deep_view(),
            values.deep_view(),
        ),
{
    let ghost columns = source@.columns;
    let ghost before = original.deep_view();
    let ghost after = values.deep_view();
    let count: usize = source.columns.len();
    if count != original.len() || original.len() != values.len() {
        return Err(Error::new("row data does not match the table metadata"));
    }
    let mut changed: Vec<usize> = Vec::new();
    let mut keys: Vec<usize> = Vec::new();
    let mut others: Vec<usize> = Vec::new();
    let ghost is_changed = |i: int| columns[i].editable && before[i] != after[i];
    let ghost is_key = |i: int| columns[i].primary_key;
    let ghost is_other = |i: int|
        columns[i].editable && before[i] != after[i] && !columns[i].primary_key;
    let mut i: usize = 0;
    while i < count
        invariant
            i <= count,
            count == source.columns@.len(),
            count == original@.len(),
            count == values@.len(),
            columns == source@.columns,
            before == original.deep_view(),
            after == values.deep_view(),
            is_changed == (|i: int| columns[i].editable && before[i] != after[i]),
            is_key == (|i: int| columns[i].primary_key),
            is_other == (|i: int|
                columns[i].editable && before[i] != after[i] && !columns[i].primary_key),
            positions(changed@) =~= selected(i as nat, is_changed),
            positions(keys@) =~= selected(i as nat, is_key),
            positions(others@) =~= selected(i as nat, is_other),
            forall|k: int| 0 <= k < changed@.len() ==> changed@[k] < i,
            forall|k: int| 0 <= k < keys@.len() ==> keys@[k] < i,
            forall|k: int| 0 <= k < others@.len() ==> others@[k] < i,
            forall|k: int|
                0 <= k < i && !(#[trigger] columns[k]).editable ==> before[k] == after[k],
            keys@.len() == 0 ==> forall|k: int| 0 <= k < i ==> !(#[trigger] columns[k]).primary_key,
            keys@.len() > 0 ==> has_primary_key(columns),
        decreases count - i,
    {
        let column = &source.columns[i];
        assert(columns[i as int] == column@);
        let different = differs(original, values, i);
        if !column.editable && different {
            return Err(Error::new("generated or read-only columns cannot be changed"));
        }
        proof {
            lemma_positions_push(changed@, i);
            lemma_positions_push(keys@, i);
            lemma_positions_push(others@, i);
        }
        if column.editable && different {
            changed.push(i);
            if !column.primary_key {
                others.push(i);
            }
        }
        if column.primary_key {
            keys.push(i);
        }
        i += 1;
    }
    if changed.len() == 0 {
        assert(positions(changed@).len() == 0);
        return Err(Error::new("the row has no editable changes"));
    }
    assert(positions(changed@).len() > 0);
    if keys.len() == 0 {
        return Err(Error::new("the table has no primary key"));
    }
    let ghost targets = positions(changed@);
    let mut parameters: Vec<Option<String>> = Vec::new();
    let mut settings: Vec<String> = Vec::new();
    let mut k: usize = 0;
    while k < changed.len()
        invariant
            k <= changed@.len(),
            count == source.columns@.len(),
            count == values@.len(),
            columns == source@.columns,
            after == values.deep_view(),
            targets == positions(changed@),
            forall|j: int| 0 <= j < changed@.len() ==> changed@[j] < count,
            parameters.deep_view() =~= cells_at(after, targets).take(k as int),
            parameters@.len() == k,
            settings.deep_view() =~= assignments(columns, targets).take(k as int),
        decreases changed@.len() - k,
    {
        let index = changed[k];
        let column = &source.columns[index];
        assert(columns[index as int] == column@);
        push_cell(&mut parameters, &values[index]);
        let text = concat3(
            quote_identifier(column.name.as_str()).as_str(),
            " = ",
            typed_parameter_text(k + 1, column.data_type.as_str()).as_str(),
        );
        push_text(&mut settings, text);
        k += 1;
    }
    let ghost earlier = changed@.len();
    let ghost compared = positions(keys@) + positions(others@);
    keys.append(&mut others);
    proof {
        assert(positions(keys@) =~= compared);
        assert(parameters.deep_view() =~= cells_at(after, targets));
        assert(settings.deep_view() =~= assignments(columns, targets));
    }
    let mut conditions: Vec<String> = Vec::new();
    let mut m: usize = 0;
    while m < keys.len()
        invariant
            m <= keys@.len(),
            count == source.columns@.len(),
            count == original@.len(),
            columns == source@.columns,
            before == original.deep_view(),
            compared == positions(keys@),
            earlier == targets.len(),
            forall|j: int| 0 <= j < keys@.len() ==> keys@[j] < count,
            parameters@.len() == earlier + m,
            parameters.deep_view() =~= cells_at(after, targets) + cells_at(before, compared).take(
                m as int,
            ),
            conditions.deep_view() =~= predicates(columns, compared, earlier).take(m as int),
        decreases keys@.len() - m,
    {
        let index = keys[m];
        let column = &source.columns[index];
        assert(columns[index as int] == column@);
        push_cell(&mut parameters, &original[index]);
        push_text(&mut conditions, predicate(column, parameters.len()));
        m += 1;
    }
    proof {
        assert(parameters.deep_view() =~= cells_at(after, targets) + cells_at(before, compared));
        assert(conditions.deep_view() =~= predicates(columns, compared, earlier));
    }
    let mut sql = concat3("UPDATE ", source.table.qualified_name().as_str(), " SET ");
    sql.append(join(&settings, ", ").as_str());
    sql.append(" WHERE ");
    sql.append(join(&conditions, " AND ").as_str());
    Ok((sql, parameters))
}

/// The columns that an insert names: those without a default.
pub open spec fn given_columns(defaults: Seq<bool>) -> Seq<int> {
    selected(defaults.len(), |i: int| !defaults[i])
}

/// The first column that is given a value although the server generates it.
pub open spec fn generated_column(
    columns: Seq<ResultColumnView>,
    defaults: Seq<bool>,
    index: int,
) -> bool {
    0 <= index < columns.len() && !defaults[index] && !columns[index].insertable && forall|i: int|
        0 <= i < index && !defaults[i] ==> (#[trigger] columns[i]).insertable
}

/// The text of an insert that gives values to `given`.
pub open spec fn insert_text(source: TableResultSourceView, given: Seq<int>) -> Seq<char> {
    if given.len() == 0 {
        "INSERT INTO "@ + source.table.qualified() + " DEFAULT VALUES"@
    } else {
        "INSERT INTO "@ + source.table.qualified() + " ("@ + joined(
            Seq::new(given.len(), |k: int| quoted(source.columns[given[k]].name)),
            ", "@,
        ) + ") VALUES ("@ + joined(
            Seq::new(
                given.len(),
                |k: int| typed_parameter((k + 1) as nat, source.columns[given[k]].data_type),
            ),
            ", "@,
        ) + ")"@
    }
}

/// The statement that inserts one row.
pub open spec fn insert_statement(
    source: TableResultSourceView,
    values: RowView,
    defaults: Seq<bool>,
) -> Result<StatementView, ErrorView> {
    let given = given_columns(defaults);
    if values.len() != source.columns.len() || defaults.len() != values.len() {
        Err(plain_error("Row does not match table metadata"@))
    } else if exists|i: int| generated_column(source.columns, defaults, i) {
        let index = choose|i: int| generated_column(source.columns, defaults, i);
        Err(
            plain_error(
                "Column "@ + source.columns[index].name + " requires its generated default"@,
            ),
        )
    } else {
        Ok((insert_text(source, given), cells_at(values, given)))
    }
}

/// The text of a delete; it compares the full original row, so that it cannot silently erase
/// someone else's edits.
pub open spec fn delete_text(source: TableResultSourceView) -> Seq<char> {
    "DELETE FROM "@ + source.table.qualified() + " WHERE "@ + joined(
        predicates(source.columns, Seq::new(source.columns.len(), |i: int| i), 0),
        " AND "@,
    )
}

/// The statement that deletes one row.
pub open spec fn delete_statement(source: TableResultSourceView, original: RowView) -> Result<
    StatementView,
    ErrorView,
> {
    if original.len() != source.columns.len() {
        Err(plain_error("Row does not match table metadata"@))
    } else if !has_primary_key(source.columns) {
        Err(plain_error("Deletion requires a primary key"@))
    } else {
        Ok((delete_text(source), original))
    }
}

/// The statement that carries out one change. Custom projections support updates only.
pub open spec fn change_statement(source: TableResultSourceView, change: RowChangeView) -> Result<
    StatementView,
    ErrorView,
> {
    match change {
        RowChangeView::Update { original, values } => update_statement(source, original, values),
        RowChangeView::Delete { original } => if source.query is Some {
            Err(plain_error("Custom query results support updates only"@))
        } else {
            delete_statement(source, original)
        },
        RowChangeView::Insert { values, defaults } => if source.query is Some {
            Err(plain_error("Custom query results support updates only"@))
        } else {
            insert_statement(source, values, defaults)
        },
    }
}

fn build_delete(source: &TableResultSource, original: &Vec<Option<String>>) -> (result: Result<
    (String, Vec<Option<String>>),
    Error,
>)
    ensures
        outcome_view(result) == delete_statement(source@, original.deep_view()),
{
    if original.len() != source.columns.len() {
        return Err(Error::new("Row does not match table metadata"));
    }
    if !any_primary_key(&source.columns) {
        return Err(Error::new("Deletion requires a primary key"));
    }
    let ghost columns = source@.columns;
    let ghost everything = Seq::new(columns.len(), |i: int| i);
    let mut conditions: Vec<String> = Vec::new();
    let mut i: usize = 0;
    while i < source.columns.len()
        invariant
            i <= source.columns@.len(),
            columns == source@.columns,
            everything == Seq::new(columns.len(), |i: int| i),
            conditions.deep_view() =~= predicates(columns, everything, 0).take(i as int),
        decreases source.columns@.len() - i,
    {
        assert(columns[i as int] == source.columns@[i as int]@);
        push_text(&mut conditions, predicate(&source.columns[i], i + 1));
        i += 1;
    }
    assert(conditions.deep_view() =~= predicates(columns, everything, 0));
    let mut sql = concat3("DELETE FROM ", source.table.qualified_name().as_str(), " WHERE ");
    sql.append(join(&conditions, " AND ").as_str());
    Ok((sql, original.duplicate()))
}

fn build_insert(
    source: &TableResultSource,
    values: &Vec<Option<String>>,
    defaults: &Vec<bool>,
) -> (result: Result<(String, Vec<Option<String>>), Error>)
    ensures
        outcome_view(result) == insert_statement(source@, values.deep_view(), defaults@),
{
    if values.len() != source.columns.len() || defaults.len() != values.len() {
        return Err(Error::new("Row does not match table metadata"));
    }
    let count: usize = values.len();
    let ghost columns = source@.columns;
    let ghost cells = values.deep_view();
    let ghost given = given_columns(defaults@);
    let ghost is_given = |i: int| !defaults@[i];
    let ghost names = Seq::new(given.len(), |k: int| quoted(columns[given[k]].name));
    let ghost types = Seq::new(
        given.len(),
        |k: int| typed_parameter((k + 1) as nat, columns[given[k]].data_type),
    );
    let mut columns_text: Vec<String> = Vec::new();
    let mut expressions: Vec<String> = Vec::new();
    let mut parameters: Vec<Option<String>> = Vec::new();
    let mut i: usize = 0;
    while i < count
        invariant
            i <= count,
            count == values@.len(),
            count == defaults@.len(),
            count == source.columns@.len(),
            columns == source@.columns,
            cells == values.deep_view(),
            is_given == (|i: int| !defaults@[i]),
            given == selected(count as nat, is_given),
            names == Seq::new(given.len(), |k: int| quoted(columns[given[k]].name)),
            types == Seq::new(
                given.len(),
                |k: int| typed_parameter((k + 1) as nat, columns[given[k]].data_type),
            ),
            parameters@.len() == selected(i as nat, is_given).len(),
            parameters.deep_view() =~= cells_at(cells, selected(i as nat, is_given)),
            columns_text.deep_view() =~= names.take(parameters@.len() as int),
            expressions.deep_view() =~= types.take(parameters@.len() as int),
            parameters@.len() <= given.len(),
            forall|k: int| 0 <= k < i && !defaults@[k] ==> (#[trigger] columns[k]).insertable,
        decreases count - i,
    {
        let column = &source.columns[i];
        let ghost so_far = selected(i as nat, is_given);
        assert(columns[i as int] == column@);
        if !defaults[i] {
            if !column.insertable {
                proof {
                    assert(generated_column(columns, defaults@, i as int));
                    let other = choose|j: int| generated_column(columns, defaults@, j);
                    assert(other == i) by {
                        if other < i {
                            assert(columns[other].insertable);
                        } else if i < other {
                            assert(columns[i as int].insertable);
                        }
                    }
                }
                return Err(
                    Error::new(
                        concat3(
                            "Column ",
                            column.name.as_str(),
                            " requires its generated default",
                        ).as_str(),
                    ),
                );
            }
            proof {
                lemma_selected_prefix(i as nat + 1, count as nat, is_given);
                assert(selected((i + 1) as nat, is_given) == so_far.push(i as int));
                assert(given[so_far.len() as int] == i);
            }
            push_text(&mut columns_text, quote_identifier(column.name.as_str()));
            push_cell(&mut parameters, &values[i]);
            push_text(
                &mut expressions,
                typed_parameter_text(parameters.len(), column.data_type.as_str()),
            );
        }
        i += 1;
    }
    proof {
        assert forall|j: int| !generated_column(columns, defaults@, j) by {
            if 0 <= j < count && !defaults@[j] {
                assert(columns[j].insertable);
            }
        }
        assert(columns_text.deep_view() =~= names);
        assert(expressions.deep_view() =~= types);
    }
    let table = source.table.qualified_name();
    let sql = if parameters.len() == 0 {
        concat3("INSERT INTO ", table.as_str(), " DEFAULT VALUES")
    } else {
        let mut sql = concat3("INSERT INTO ", table.as_str(), " (");
        sql.append(join(&columns_text, ", ").as_str());
        sql.append(") VALUES (");
        sql.append(join(&expressions, ", ").as_str());
        sql.append(")");
        sql
    };
    Ok((sql, parameters))
}

/// The statement and parameters of one change. Values always use parameters; DEFAULT is explicit
/// instead of overloading NULL.
pub fn statement(source: &TableResultSource, change: &RowChange) -> (result: Result<
    (String, Vec<Option<String>>),
    Error,
>)
    ensures
        outcome_view(result) == change_statement(source@, change@),
{
    match change {
        RowChange::Update { original, values } => build_update(source, original, values),
        RowChange::Delete { original } => {
            if source.query.is_some() {
                return Err(Error::new("Custom query results support updates only"));
            }
            build_delete(source, original)
        },
        RowChange::Insert { values, defaults } => {
            if source.query.is_some() {
                return Err(Error::new("Custom query results support updates only"));
            }
            assert(defaults.deep_view() =~= defaults@);
            build_insert(source, values, defaults)
        },
    }
}

/// The text of an update depends on which cells differ, and not on any cell's contents.
pub proof fn update_text_ignores_values(
    source: TableResultSourceView,
    original: RowView,
    values: RowView,
    other_original: RowView,
    other_values: RowView,
)
    requires
        update_statement(source, original, values) is Ok,
        update_statement(source, other_original, other_values) is Ok,
        forall|i: int|
            0 <= i < source.columns.len() ==> (original[i] == values[i]) == (
            #[trigger] other_original[i] == #[trigger] other_values[i]),
    ensures
        update_statement(source, original, values)->Ok_0.0 == update_statement(
            source,
            other_original,
            other_values,
        )->Ok_0.0,
{
    let columns = source.columns;
    lemma_selected_agree(
        columns.len(),
        |i: int| columns[i].editable && original[i] != values[i],
        |i: int| columns[i].editable && other_original[i] != other_values[i],
    );
    lemma_selected_agree(
        columns.len(),
        |i: int| columns[i].editable && original[i] != values[i] && !columns[i].primary_key,
        |i: int|
            columns[i].editable && other_original[i] != other_values[i] && !columns[i].primary_key,
    );
}

/// The text of an insert depends on which columns keep their default, and not on any value.
pub proof fn insert_text_ignores_values(
    source: TableResultSourceView,
    values: RowView,
    other_values: RowView,
    defaults: Seq<bool>,
)
    requires
        insert_statement(source, values, defaults) is Ok,
        insert_statement(source, other_values, defaults) is Ok,
    ensures
        insert_statement(source, values, defaults)->Ok_0.0 == insert_statement(
            source,
            other_values,
            defaults,
        )->Ok_0.0,
{
}

/// The text of a delete does not depend on the row.
pub proof fn delete_text_ignores_values(
    source: TableResultSourceView,
    original: RowView,
    other: RowView,
)
    requires
        delete_statement(source, original) is Ok,
        delete_statement(source, other) is Ok,
    ensures
        delete_statement(source, original)->Ok_0.0 == delete_statement(source, other)->Ok_0.0,
{
}

/// An accepted update compares every key column with its original value.
pub proof fn updates_compare_the_whole_key(
    source: TableResultSourceView,
    original: RowView,
    values: RowView,
    index: int,
)
    requires
        update_statement(source, original, values) is Ok,
        0 <= index < source.columns.len(),
        source.columns[index].primary_key,
    ensures
        compared_columns(source.columns, original, values).contains(index),
{
    let columns = source.columns;
    let key = |i: int| columns[i].primary_key;
    selected_ascends(columns.len(), key);
    let keys = key_columns(columns);
    assert(key(index));
    assert(keys.contains(index));
    let k = choose|k: int| 0 <= k < keys.len() && keys[k] == index;
    assert(compared_columns(columns, original, values)[k] == index);
}

/// An accepted update assigns every cell that differs, and compares each with its original value.
pub proof fn updates_cover_every_difference(
    source: TableResultSourceView,
    original: RowView,
    values: RowView,
    index: int,
)
    requires
        update_statement(source, original, values) is Ok,
        0 <= index < source.columns.len(),
    ensures
        (original[index] != values[index]) <==> changed_columns(
            source.columns,
            original,
            values,
        ).contains(index),
        original[index] != values[index] ==> compared_columns(
            source.columns,
            original,
            values,
        ).contains(index),
{
    let columns = source.columns;
    let changed = |i: int| columns[i].editable && original[i] != values[i];
    let other = |i: int|
        columns[i].editable && original[i] != values[i] && !columns[i].primary_key;
    selected_ascends(columns.len(), changed);
    selected_ascends(columns.len(), other);
    assert(changed_columns(columns, original, values) == selected(columns.len(), changed));
    let keys = key_columns(columns);
    let others = selected(columns.len(), other);
    assert(compared_columns(columns, original, values) == keys + others);
    if original[index] != values[index] {
        assert(columns[index].editable);
        assert(changed(index));
        if columns[index].primary_key {
            updates_compare_the_whole_key(source, original, values, index);
        } else {
            assert(other(index));
            assert(others.contains(index));
            let k = choose|k: int| 0 <= k < others.len() && others[k] == index;
            assert((keys + others)[keys.len() + k] == index);
        }
    }
}

/// Updates and deletes are refused without a primary key.
pub proof fn writes_require_a_primary_key(source: TableResultSourceView, change: RowChangeView)
    requires
        !has_primary_key(source.columns),
        !(change is Insert),
    ensures
        change_statement(source, change) is Err,
{
}

/// Rows of a custom query can be updated, but neither added nor deleted.
pub proof fn custom_results_only_update(source: TableResultSourceView, change: RowChangeView)
    requires
        source.query is Some,
        change_statement(source, change) is Ok,
    ensures
        change is Update,
{
}

} // verus!
