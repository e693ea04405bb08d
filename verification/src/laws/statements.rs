//! Row changes reach the server with every value bound to its own column.
use vstd::prelude::*;
use vstd::string::*;

use crate::db::changes::{
    assignments, change_statement, changed_columns, column_predicate, compared_columns,
    delete_statement, given_columns, insert_statement, key_columns, predicates, typed_parameter,
    update_statement, RowChangeView, RowView,
};
use crate::db::{quoted, ResultColumnView, TableResultSourceView};
use crate::selection::{selected, selected_ascends};
use crate::text::{decimal, joined};

verus! {

/// Whether a text is `before`, then a parameter that holds a value and is converted to a type, then `after`.
pub open spec fn binds(
    text: Seq<char>,
    before: Seq<char>,
    data_type: Seq<char>,
    after: Seq<char>,
    parameters: RowView,
    value: Option<Seq<char>>,
) -> bool {
    exists|n: int|
        1 <= n <= parameters.len() && #[trigger] parameters[n - 1] == value && text == before + ("$"@
            + decimal(n as nat) + "::text::"@ + data_type) + after
}

/// Whether a text assigns a value to a column.
pub open spec fn assigns(
    text: Seq<char>,
    column: ResultColumnView,
    parameters: RowView,
    value: Option<Seq<char>>,
) -> bool {
    binds(text, quoted(column.name) + " = "@, column.data_type, ""@, parameters, value)
}

/// Whether a text asks that a column still holds a value: by its own equality for a key, and otherwise as
/// JSON.
pub open spec fn compares(
    text: Seq<char>,
    column: ResultColumnView,
    parameters: RowView,
    value: Option<Seq<char>>,
) -> bool {
    if column.primary_key {
        binds(
            text,
            quoted(column.name) + " IS NOT DISTINCT FROM "@,
            column.data_type,
            ""@,
            parameters,
            value,
        )
    } else {
        binds(
            text,
            "to_jsonb("@ + quoted(column.name) + ") IS NOT DISTINCT FROM to_jsonb("@,
            column.data_type,
            ")"@,
            parameters,
            value,
        )
    }
}

/// Whether a list names exactly the columns below `count` with a property, each once.
pub open spec fn names_columns(list: Seq<int>, count: nat, member: spec_fn(int) -> bool) -> bool {
    list.no_duplicates() && forall|c: int| #[trigger]
        list.contains(c) <==> 0 <= c < count && member(c)
}

/// The quoted, schema-qualified name of the table of a source.
pub open spec fn table_name(source: TableResultSourceView) -> Seq<char> {
    quoted(source.table.schema) + "."@ + quoted(source.table.name)
}

/// Whether a statement updates one row as it was edited: each changed column gets its own new value, and
/// every key column and every changed column is compared with its own original value.
pub open spec fn updates_the_row(
    source: TableResultSourceView,
    original: RowView,
    values: RowView,
    text: Seq<char>,
    parameters: RowView,
    sets: Seq<Seq<char>>,
    changed: Seq<int>,
    wheres: Seq<Seq<char>>,
    compared: Seq<int>,
) -> bool {
    let columns = source.columns;
    &&& text == "UPDATE "@ + table_name(source) + " SET "@ + joined(sets, ", "@) + " WHERE "@
        + joined(wheres, " AND "@)
    &&& sets.len() == changed.len() && wheres.len() == compared.len()
    &&& parameters.len() == changed.len() + compared.len()
    &&& names_columns(changed, columns.len(), |c: int| original[c] != values[c])
    &&& names_columns(
        compared,
        columns.len(),
        |c: int| columns[c].primary_key || original[c] != values[c],
    )
    &&& forall|k: int|
        0 <= k < sets.len() ==> assigns(
            #[trigger] sets[k],
            columns[changed[k]],
            parameters,
            values[changed[k]],
        )
    &&& forall|k: int|
        0 <= k < wheres.len() ==> compares(
            #[trigger] wheres[k],
            columns[compared[k]],
            parameters,
            original[compared[k]],
        )
}

proof fn lemma_typed(text: Seq<char>, before: Seq<char>, n: int, data_type: Seq<char>)
    requires
        text == before + typed_parameter(n as nat, data_type),
    ensures
        text == before + ("$"@ + decimal(n as nat) + "::text::"@ + data_type) + ""@,
{
    reveal_strlit("");
    assert(text =~= before + ("$"@ + decimal(n as nat) + "::text::"@ + data_type) + ""@);
}

proof fn lemma_compares(
    column: ResultColumnView,
    n: int,
    parameters: RowView,
    value: Option<Seq<char>>,
)
    requires
        1 <= n <= parameters.len(),
        parameters[n - 1] == value,
    ensures
        compares(column_predicate(column, n as nat), column, parameters, value),
{
    let text = column_predicate(column, n as nat);
    let typed = typed_parameter(n as nat, column.data_type);
    if column.primary_key {
        let before = quoted(column.name) + " IS NOT DISTINCT FROM "@;
        lemma_typed(text, before, n, column.data_type);
        assert(parameters[n - 1] == value);
    } else {
        let before = "to_jsonb("@ + quoted(column.name) + ") IS NOT DISTINCT FROM to_jsonb("@;
        assert(text =~= before + typed + ")"@);
        assert(parameters[n - 1] == value);
    }
}

proof fn lemma_selected_names(count: nat, picked: spec_fn(int) -> bool)
    ensures
        names_columns(selected(count, picked), count, picked),
{
    selected_ascends(count, picked);
    let list = selected(count, picked);
    assert forall|c: int| #[trigger] list.contains(c) <==> 0 <= c < count && picked(c) by {
        if list.contains(c) {
            let k = choose|k: int| 0 <= k < list.len() && list[k] == c;
            assert(list[k] == c);
        }
    }
    assert forall|a: int, b: int|
        0 <= a < list.len() && 0 <= b < list.len() && a != b implies list[a] != list[b] by {
        if a < b {
            assert(list[a] < list[b]);
        } else {
            assert(list[b] < list[a]);
        }
    }
}

proof fn lemma_compared_names(source: TableResultSourceView, original: RowView, values: RowView)
    requires
        update_statement(source, original, values) is Ok,
    ensures
        names_columns(
            compared_columns(source.columns, original, values),
            source.columns.len(),
            |c: int| source.columns[c].primary_key || original[c] != values[c],
        ),
{
    let columns = source.columns;
    let is_key = |i: int| columns[i].primary_key;
    let is_other = |i: int|
        columns[i].editable && original[i] != values[i] && !columns[i].primary_key;
    let keys = key_columns(columns);
    let others = selected(columns.len(), is_other);
    let compared = compared_columns(columns, original, values);
    lemma_selected_names(columns.len(), is_key);
    lemma_selected_names(columns.len(), is_other);
    assert(keys == selected(columns.len(), is_key));
    assert(compared == keys + others);
    assert forall|c: int| #[trigger]
        compared.contains(c) <==> 0 <= c < columns.len() && (columns[c].primary_key || original[c]
            != values[c]) by {
        if compared.contains(c) {
            let k = choose|k: int| 0 <= k < compared.len() && compared[k] == c;
            if k < keys.len() {
                assert(keys[k] == c);
                assert(keys.contains(c));
            } else {
                assert(others[k - keys.len()] == c);
                assert(others.contains(c));
            }
        }
        if 0 <= c < columns.len() && columns[c].primary_key {
            assert(keys.contains(c));
            let k = choose|k: int| 0 <= k < keys.len() && keys[k] == c;
            assert(compared[k] == c);
        } else if 0 <= c < columns.len() && original[c] != values[c] {
            assert(columns[c].editable);
            assert(others.contains(c));
            let k = choose|k: int| 0 <= k < others.len() && others[k] == c;
            assert(compared[keys.len() + k] == c);
        }
    }
    assert forall|a: int, b: int|
        0 <= a < compared.len() && 0 <= b < compared.len() && a != b implies compared[a]
        != compared[b] by {
        if a < keys.len() {
            assert(keys.contains(keys[a]));
        } else {
            assert(others.contains(others[a - keys.len()]));
        }
        if b < keys.len() {
            assert(keys.contains(keys[b]));
        } else {
            assert(others.contains(others[b - keys.len()]));
        }
    }
}

/// An accepted update writes each changed cell into its own column, and compares every key column and every
/// changed column with the value that was loaded into it. No other column is written or compared.
pub proof fn updates_bind_values_to_their_columns(
    source: TableResultSourceView,
    original: RowView,
    values: RowView,
    text: Seq<char>,
    parameters: RowView,
)
    requires
        update_statement(source, original, values) == Ok::<_, crate::db::ErrorView>(
            (text, parameters),
        ),
    ensures
        exists|
            sets: Seq<Seq<char>>,
            changed: Seq<int>,
            wheres: Seq<Seq<char>>,
            compared: Seq<int>,
        | #[trigger]
            updates_the_row(
                source,
                original,
                values,
                text,
                parameters,
                sets,
                changed,
                wheres,
                compared,
            ),
{
    let columns = source.columns;
    let changed = changed_columns(columns, original, values);
    let compared = compared_columns(columns, original, values);
    let sets = assignments(columns, changed);
    let wheres = predicates(columns, compared, changed.len());
    let is_changed = |i: int| columns[i].editable && original[i] != values[i];
    lemma_selected_names(columns.len(), is_changed);
    assert(changed == selected(columns.len(), is_changed));
    assert forall|c: int| #[trigger]
        changed.contains(c) <==> 0 <= c < columns.len() && original[c] != values[c] by {
        if 0 <= c < columns.len() && original[c] != values[c] {
            assert(columns[c].editable);
        }
    }
    lemma_compared_names(source, original, values);
    assert forall|k: int| 0 <= k < sets.len() implies assigns(
        #[trigger] sets[k],
        columns[changed[k]],
        parameters,
        values[changed[k]],
    ) by {
        let column = columns[changed[k]];
        assert(parameters[(k + 1) - 1] == values[changed[k]]);
        lemma_typed(sets[k], quoted(column.name) + " = "@, k + 1, column.data_type);
    }
    assert forall|k: int| 0 <= k < wheres.len() implies compares(
        #[trigger] wheres[k],
        columns[compared[k]],
        parameters,
        original[compared[k]],
    ) by {
        let n = changed.len() + k + 1;
        assert(parameters[n - 1] == original[compared[k]]);
        lemma_compares(columns[compared[k]], n, parameters, original[compared[k]]);
    }
    assert(updates_the_row(
        source,
        original,
        values,
        text,
        parameters,
        sets,
        changed,
        wheres,
        compared,
    ));
}

/// Updates are accepted exactly where the row matches the columns, only editable columns differ, some do, and
/// there is a key.
pub proof fn updates_are_accepted_for_editable_changes(
    source: TableResultSourceView,
    original: RowView,
    values: RowView,
)
    ensures
        update_statement(source, original, values) is Ok <==> {
            &&& original.len() == source.columns.len() && values.len() == source.columns.len()
            &&& forall|c: int|
                0 <= c < source.columns.len() && original[c] != values[c] ==> (
                #[trigger] source.columns[c]).editable
            &&& original != values
            &&& exists|c: int|
                0 <= c < source.columns.len() && (#[trigger] source.columns[c]).primary_key
        },
{
    let columns = source.columns;
    let is_changed = |i: int| columns[i].editable && original[i] != values[i];
    lemma_selected_names(columns.len(), is_changed);
    let changed = changed_columns(columns, original, values);
    assert(changed == selected(columns.len(), is_changed));
    if original.len() == columns.len() && values.len() == columns.len() {
        if original != values {
            if forall|c: int| 0 <= c < columns.len() ==> original[c] == values[c] {
                assert(original =~= values);
            }
            let c = choose|c: int| 0 <= c < columns.len() && original[c] != values[c];
            if columns[c].editable {
                assert(is_changed(c));
                assert(changed.contains(c));
            }
        }
        if changed.len() > 0 {
            assert(changed.contains(changed[0]));
        }
    }
}

/// Whether a statement inserts one row: each given column gets its own value, and the others their defaults.
pub open spec fn inserts_the_row(
    source: TableResultSourceView,
    values: RowView,
    defaults: Seq<bool>,
    text: Seq<char>,
    parameters: RowView,
    names: Seq<Seq<char>>,
    expressions: Seq<Seq<char>>,
    given: Seq<int>,
) -> bool {
    let columns = source.columns;
    &&& text == (if given.len() == 0 {
        "INSERT INTO "@ + table_name(source) + " DEFAULT VALUES"@
    } else {
        "INSERT INTO "@ + table_name(source) + " ("@ + joined(names, ", "@) + ") VALUES ("@ + joined(
            expressions,
            ", "@,
        ) + ")"@
    })
    &&& names.len() == given.len() && expressions.len() == given.len() && parameters.len()
        == given.len()
    &&& names_columns(given, columns.len(), |c: int| !defaults[c])
    &&& forall|k: int|
        0 <= k < given.len() ==> #[trigger] names[k] == quoted(columns[given[k]].name)
    &&& forall|k: int|
        0 <= k < given.len() ==> binds(
            #[trigger] expressions[k],
            ""@,
            columns[given[k]].data_type,
            ""@,
            parameters,
            values[given[k]],
        )
}

/// An accepted insert gives each column that keeps no default its own value, and names no other column.
pub proof fn inserts_bind_values_to_their_columns(
    source: TableResultSourceView,
    values: RowView,
    defaults: Seq<bool>,
    text: Seq<char>,
    parameters: RowView,
)
    requires
        insert_statement(source, values, defaults) == Ok::<_, crate::db::ErrorView>(
            (text, parameters),
        ),
    ensures
        exists|names: Seq<Seq<char>>, expressions: Seq<Seq<char>>, given: Seq<int>| #[trigger]
            inserts_the_row(
                source,
                values,
                defaults,
                text,
                parameters,
                names,
                expressions,
                given,
            ),
        forall|c: int|
            0 <= c < source.columns.len() && !defaults[c] ==> (
            #[trigger] source.columns[c]).insertable,
{
    let columns = source.columns;
    let given = given_columns(defaults);
    let is_given = |i: int| !defaults[i];
    lemma_selected_names(defaults.len(), is_given);
    assert(given == selected(defaults.len(), is_given));
    let names = Seq::new(given.len(), |k: int| quoted(columns[given[k]].name));
    let expressions = Seq::new(
        given.len(),
        |k: int| typed_parameter((k + 1) as nat, columns[given[k]].data_type),
    );
    assert forall|k: int| 0 <= k < given.len() implies binds(
        #[trigger] expressions[k],
        ""@,
        columns[given[k]].data_type,
        ""@,
        parameters,
        values[given[k]],
    ) by {
        assert(parameters[(k + 1) - 1] == values[given[k]]);
        reveal_strlit("");
        assert(expressions[k] =~= ""@ + expressions[k]);
        lemma_typed(expressions[k], ""@, k + 1, columns[given[k]].data_type);
    }
    assert(inserts_the_row(source, values, defaults, text, parameters, names, expressions, given));
    lemma_no_generated_column(columns, defaults, columns.len() as int);
}

proof fn lemma_no_generated_column(columns: Seq<ResultColumnView>, defaults: Seq<bool>, count: int)
    requires
        0 <= count <= columns.len(),
        forall|i: int| !crate::db::changes::generated_column(columns, defaults, i),
    ensures
        forall|c: int| 0 <= c < count && !defaults[c] ==> (#[trigger] columns[c]).insertable,
    decreases count,
{
    if count > 0 {
        lemma_no_generated_column(columns, defaults, count - 1);
        assert(!crate::db::changes::generated_column(columns, defaults, count - 1));
    }
}

/// Inserts are accepted exactly where the row matches the columns, and only insertable ones are given values.
pub proof fn inserts_are_accepted_for_insertable_columns(
    source: TableResultSourceView,
    values: RowView,
    defaults: Seq<bool>,
)
    ensures
        insert_statement(source, values, defaults) is Ok <==> {
            &&& values.len() == source.columns.len() && defaults.len() == source.columns.len()
            &&& forall|c: int|
                0 <= c < source.columns.len() && !defaults[c] ==> (
                #[trigger] source.columns[c]).insertable
        },
{
    let columns = source.columns;
    if values.len() == columns.len() && defaults.len() == columns.len() {
        if insert_statement(source, values, defaults) is Ok {
            lemma_no_generated_column(columns, defaults, columns.len() as int);
        }
    }
}

/// An accepted delete compares every column of the table with the value that was loaded into it.
pub proof fn deletes_compare_the_whole_row(
    source: TableResultSourceView,
    original: RowView,
    text: Seq<char>,
    parameters: RowView,
)
    requires
        delete_statement(source, original) == Ok::<_, crate::db::ErrorView>((text, parameters)),
    ensures
        parameters == original,
        exists|wheres: Seq<Seq<char>>|
            wheres.len() == source.columns.len() && text == "DELETE FROM "@ + table_name(source)
                + " WHERE "@ + #[trigger] joined(wheres, " AND "@) && forall|c: int|
                0 <= c < wheres.len() ==> compares(
                    #[trigger] wheres[c],
                    source.columns[c],
                    parameters,
                    original[c],
                ),
{
    let columns = source.columns;
    let everything = Seq::new(columns.len(), |i: int| i);
    let wheres = predicates(columns, everything, 0);
    assert forall|c: int| 0 <= c < wheres.len() implies compares(
        #[trigger] wheres[c],
        columns[c],
        parameters,
        original[c],
    ) by {
        assert(parameters[(c + 1) - 1] == original[c]);
        lemma_compares(columns[c], c + 1, parameters, original[c]);
    }
    assert(text == "DELETE FROM "@ + table_name(source) + " WHERE "@ + joined(wheres, " AND "@));
}

/// Deletes are accepted exactly where the row matches the columns, there is a key, and the rows come from a
/// table.
pub proof fn deletes_are_accepted_for_table_rows(source: TableResultSourceView, original: RowView)
    ensures
        change_statement(source, RowChangeView::Delete { original }) is Ok <==> {
            &&& source.query is None
            &&& original.len() == source.columns.len()
            &&& exists|c: int|
                0 <= c < source.columns.len() && (#[trigger] source.columns[c]).primary_key
        },
{
}

/// Each kind of change becomes a statement of its kind on the same rows.
pub proof fn changes_become_their_statements(source: TableResultSourceView, change: RowChangeView)
    requires
        change_statement(source, change) is Ok,
    ensures
        match change {
            RowChangeView::Update { original, values } => change_statement(source, change)
                == update_statement(source, original, values),
            RowChangeView::Insert { values, defaults } => change_statement(source, change)
                == insert_statement(source, values, defaults),
            RowChangeView::Delete { original } => change_statement(source, change)
                == delete_statement(source, original),
        },
{
}

} // verus!
