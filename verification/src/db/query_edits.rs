//! Resolves which rows of a custom query can be edited, from server metadata alone.
use vstd::prelude::*;
use vstd::string::*;

use crate::db::paging::{PageRef, PageRefView};
use crate::db::syntax::{one_table_read, supported, syntax_tree};
use crate::db::{
    any_primary_key, has_primary_key, plain_error, Error, ErrorView, QueryResult, QueryResultView,
    ResultColumn, ResultColumnView, TableRef, TableRefView, TableResultSource,
    TableResultSourceView,
};
use crate::selection::{positions, selected, selected_ascends};
use crate::text::{concat3, join, joined, same_text};
use crate::value::Value;

verus! {

/// The origin of editable custom rows: one execution in one retained SQL session.
#[derive(Debug, PartialEq, Eq)]
pub struct QuerySource {
    pub sql: String,
    pub execution_id: u64,
    pub table_oid: u32,
    pub table_columns: Vec<ResultColumn>,
    /// Attribute numbers detect dropped and recreated columns with identical definitions.
    pub attribute_ids: Vec<i16>,
    /// None marks an expression; mapped indexes address the complete catalog snapshot.
    pub mapping: Vec<Option<usize>>,
}

/// What a `QuerySource` denotes.
pub ghost struct QuerySourceView {
    pub sql: Seq<char>,
    pub execution_id: u64,
    pub table_oid: u32,
    pub table_columns: Seq<ResultColumnView>,
    pub attribute_ids: Seq<i16>,
    pub mapping: Seq<Option<usize>>,
}

impl DeepView for QuerySource {
    type V = QuerySourceView;

    open spec fn deep_view(&self) -> QuerySourceView {
        QuerySourceView {
            sql: self.sql@,
            execution_id: self.execution_id,
            table_oid: self.table_oid,
            table_columns: self.table_columns.deep_view(),
            attribute_ids: self.attribute_ids.deep_view(),
            mapping: self.mapping.deep_view(),
        }
    }
}

impl Clone for QuerySource {
    fn clone(&self) -> (copy: QuerySource)
        ensures
            copy@ == self@,
    {
        self.duplicate()
    }
}

impl View for QuerySource {
    type V = QuerySourceView;

    open spec fn view(&self) -> QuerySourceView {
        self.deep_view()
    }
}

impl Value for QuerySource {
    fn duplicate(&self) -> (copy: QuerySource) {
        QuerySource {
            sql: self.sql.duplicate(),
            execution_id: self.execution_id,
            table_oid: self.table_oid,
            table_columns: self.table_columns.duplicate(),
            attribute_ids: self.attribute_ids.duplicate(),
            mapping: self.mapping.duplicate(),
        }
    }

    fn same(&self, other: &QuerySource) -> (same: bool) {
        self.sql.same(&other.sql)
            && self.execution_id == other.execution_id
            && self.table_oid == other.table_oid
            && self.table_columns.same(&other.table_columns)
            && self.attribute_ids.same(&other.attribute_ids)
            && self.mapping.same(&other.mapping)
    }
}

/// One column of a prepared statement, and the table column behind it.
#[derive(Debug, PartialEq, Eq)]
pub struct Field {
    pub name: String,
    pub table_oid: Option<u32>,
    pub column_id: Option<i16>,
}

/// What a `Field` denotes.
pub ghost struct FieldView {
    pub name: Seq<char>,
    pub table_oid: Option<u32>,
    pub column_id: Option<i16>,
}

impl DeepView for Field {
    type V = FieldView;

    open spec fn deep_view(&self) -> FieldView {
        FieldView {
            name: self.name@,
            table_oid: self.table_oid.deep_view(),
            column_id: self.column_id.deep_view(),
        }
    }
}

impl Clone for Field {
    fn clone(&self) -> (copy: Field)
        ensures
            copy@ == self@,
    {
        self.duplicate()
    }
}

impl View for Field {
    type V = FieldView;

    open spec fn view(&self) -> FieldView {
        self.deep_view()
    }
}

impl Value for Field {
    fn duplicate(&self) -> (copy: Field) {
        Field {
            name: self.name.duplicate(),
            table_oid: self.table_oid.duplicate(),
            column_id: self.column_id.duplicate(),
        }
    }

    fn same(&self, other: &Field) -> (same: bool) {
        self.name.same(&other.name)
            && self.table_oid.same(&other.table_oid)
            && self.column_id.same(&other.column_id)
    }
}

/// What the catalog says of a relation.
#[derive(Debug, PartialEq, Eq)]
pub struct Relation {
    pub schema: String,
    pub name: String,
    /// `r` for an ordinary table and `p` for a partitioned one.
    pub kind: String,
    /// Whether other tables inherit from it.
    pub inherited: bool,
}

/// What a `Relation` denotes.
pub ghost struct RelationView {
    pub schema: Seq<char>,
    pub name: Seq<char>,
    pub kind: Seq<char>,
    pub inherited: bool,
}

impl DeepView for Relation {
    type V = RelationView;

    open spec fn deep_view(&self) -> RelationView {
        RelationView {
            schema: self.schema@,
            name: self.name@,
            kind: self.kind@,
            inherited: self.inherited,
        }
    }
}

impl Clone for Relation {
    fn clone(&self) -> (copy: Relation)
        ensures
            copy@ == self@,
    {
        self.duplicate()
    }
}

impl View for Relation {
    type V = RelationView;

    open spec fn view(&self) -> RelationView {
        self.deep_view()
    }
}

impl Value for Relation {
    fn duplicate(&self) -> (copy: Relation) {
        Relation {
            schema: self.schema.duplicate(),
            name: self.name.duplicate(),
            kind: self.kind.duplicate(),
            inherited: self.inherited,
        }
    }

    fn same(&self, other: &Relation) -> (same: bool) {
        self.schema.same(&other.schema)
            && self.name.same(&other.name)
            && self.kind.same(&other.kind)
            && self.inherited == other.inherited
    }
}

/// How far the analysis of a custom query has come.
#[derive(Debug, PartialEq, Eq)]
pub enum AttachPhase {
    Preparing,
    Locating {
        fields: Vec<Field>,
        oid: u32,
    },
    Reading {
        fields: Vec<Field>,
        oid: u32,
        table: TableRef,
    },
    Numbering {
        fields: Vec<Field>,
        oid: u32,
        table: TableRef,
        catalog: Vec<ResultColumn>,
    },
    Finished,
}

/// What a `AttachPhase` denotes.
pub ghost enum AttachPhaseView {
    Preparing,
    Locating {
        fields: Seq<FieldView>,
        oid: u32,
    },
    Reading {
        fields: Seq<FieldView>,
        oid: u32,
        table: TableRefView,
    },
    Numbering {
        fields: Seq<FieldView>,
        oid: u32,
        table: TableRefView,
        catalog: Seq<ResultColumnView>,
    },
    Finished,
}

impl DeepView for AttachPhase {
    type V = AttachPhaseView;

    open spec fn deep_view(&self) -> AttachPhaseView {
        match self {
            AttachPhase::Preparing => AttachPhaseView::Preparing,
            AttachPhase::Locating { fields, oid } => AttachPhaseView::Locating {
                fields: fields.deep_view(),
                oid: *oid,
            },
            AttachPhase::Reading { fields, oid, table } => AttachPhaseView::Reading {
                fields: fields.deep_view(),
                oid: *oid,
                table: table.deep_view(),
            },
            AttachPhase::Numbering { fields, oid, table, catalog } => AttachPhaseView::Numbering {
                fields: fields.deep_view(),
                oid: *oid,
                table: table.deep_view(),
                catalog: catalog.deep_view(),
            },
            AttachPhase::Finished => AttachPhaseView::Finished,
        }
    }
}

impl Clone for AttachPhase {
    fn clone(&self) -> (copy: AttachPhase)
        ensures
            copy@ == self@,
    {
        self.duplicate()
    }
}

impl View for AttachPhase {
    type V = AttachPhaseView;

    open spec fn view(&self) -> AttachPhaseView {
        self.deep_view()
    }
}

impl Value for AttachPhase {
    fn duplicate(&self) -> (copy: AttachPhase) {
        match self {
            AttachPhase::Preparing => AttachPhase::Preparing,
            AttachPhase::Locating { fields, oid } => AttachPhase::Locating {
                fields: fields.duplicate(),
                oid: *oid,
            },
            AttachPhase::Reading { fields, oid, table } => AttachPhase::Reading {
                fields: fields.duplicate(),
                oid: *oid,
                table: table.duplicate(),
            },
            AttachPhase::Numbering { fields, oid, table, catalog } => AttachPhase::Numbering {
                fields: fields.duplicate(),
                oid: *oid,
                table: table.duplicate(),
                catalog: catalog.duplicate(),
            },
            AttachPhase::Finished => AttachPhase::Finished,
        }
    }

    fn same(&self, other: &AttachPhase) -> (same: bool) {
        match (self, other) {
            (AttachPhase::Preparing, AttachPhase::Preparing) => true,
            (
                AttachPhase::Locating { fields: fields_a, oid: oid_a },
                AttachPhase::Locating { fields: fields_b, oid: oid_b },
            ) => {
                fields_a.same(fields_b) && *oid_a == *oid_b
            },
            (
                AttachPhase::Reading { fields: fields_a, oid: oid_a, table: table_a },
                AttachPhase::Reading { fields: fields_b, oid: oid_b, table: table_b },
            ) => {
                fields_a.same(fields_b) && *oid_a == *oid_b && table_a.same(table_b)
            },
            (
                AttachPhase::Numbering {
                    fields: fields_a,
                    oid: oid_a,
                    table: table_a,
                    catalog: catalog_a,
                },
                AttachPhase::Numbering {
                    fields: fields_b,
                    oid: oid_b,
                    table: table_b,
                    catalog: catalog_b,
                },
            ) => {
                fields_a.same(fields_b)
                    && *oid_a == *oid_b
                    && table_a.same(table_b)
                    && catalog_a.same(catalog_b)
            },
            (AttachPhase::Finished, AttachPhase::Finished) => true,
            _ => false,
        }
    }
}

/// The analysis of one executed statement; it only prepares the statement and reads the catalog, and
/// never executes the statement again.
#[derive(Debug, PartialEq, Eq)]
pub struct Attach {
    pub sql: String,
    pub page: PageRef,
    pub result: QueryResult,
    pub phase: AttachPhase,
}

/// What a `Attach` denotes.
pub ghost struct AttachView {
    pub sql: Seq<char>,
    pub page: PageRefView,
    pub result: QueryResultView,
    pub phase: AttachPhaseView,
}

impl DeepView for Attach {
    type V = AttachView;

    open spec fn deep_view(&self) -> AttachView {
        AttachView {
            sql: self.sql@,
            page: self.page.deep_view(),
            result: self.result.deep_view(),
            phase: self.phase.deep_view(),
        }
    }
}

impl Clone for Attach {
    fn clone(&self) -> (copy: Attach)
        ensures
            copy@ == self@,
    {
        self.duplicate()
    }
}

impl View for Attach {
    type V = AttachView;

    open spec fn view(&self) -> AttachView {
        self.deep_view()
    }
}

impl Value for Attach {
    fn duplicate(&self) -> (copy: Attach) {
        Attach {
            sql: self.sql.duplicate(),
            page: self.page.duplicate(),
            result: self.result.duplicate(),
            phase: self.phase.duplicate(),
        }
    }

    fn same(&self, other: &Attach) -> (same: bool) {
        self.sql.same(&other.sql)
            && self.page.same(&other.page)
            && self.result.same(&other.result)
            && self.phase.same(&other.phase)
    }
}

/// What the analysis asks of the server next, or how it ended.
#[derive(Debug, PartialEq, Eq)]
pub enum AttachAction {
    Prepare(String),
    Relation(u32),
    Columns(TableRef),
    Attributes(u32),
    Done(QueryResult),
    Failed(Error),
}

/// What a `AttachAction` denotes.
pub ghost enum AttachActionView {
    Prepare(Seq<char>),
    Relation(u32),
    Columns(TableRefView),
    Attributes(u32),
    Done(QueryResultView),
    Failed(ErrorView),
}

impl DeepView for AttachAction {
    type V = AttachActionView;

    open spec fn deep_view(&self) -> AttachActionView {
        match self {
            AttachAction::Prepare(value) => AttachActionView::Prepare(value@),
            AttachAction::Relation(value) => AttachActionView::Relation(*value),
            AttachAction::Columns(value) => AttachActionView::Columns(value.deep_view()),
            AttachAction::Attributes(value) => AttachActionView::Attributes(*value),
            AttachAction::Done(value) => AttachActionView::Done(value.deep_view()),
            AttachAction::Failed(value) => AttachActionView::Failed(value.deep_view()),
        }
    }
}

impl Clone for AttachAction {
    fn clone(&self) -> (copy: AttachAction)
        ensures
            copy@ == self@,
    {
        self.duplicate()
    }
}

impl View for AttachAction {
    type V = AttachActionView;

    open spec fn view(&self) -> AttachActionView {
        self.deep_view()
    }
}

impl Value for AttachAction {
    fn duplicate(&self) -> (copy: AttachAction) {
        match self {
            AttachAction::Prepare(value) => AttachAction::Prepare(value.duplicate()),
            AttachAction::Relation(value) => AttachAction::Relation(*value),
            AttachAction::Columns(value) => AttachAction::Columns(value.duplicate()),
            AttachAction::Attributes(value) => AttachAction::Attributes(*value),
            AttachAction::Done(value) => AttachAction::Done(value.duplicate()),
            AttachAction::Failed(value) => AttachAction::Failed(value.duplicate()),
        }
    }

    fn same(&self, other: &AttachAction) -> (same: bool) {
        match (self, other) {
            (AttachAction::Prepare(value_a), AttachAction::Prepare(value_b)) => {
                value_a.same(value_b)
            },
            (AttachAction::Relation(value_a), AttachAction::Relation(value_b)) => {
                *value_a == *value_b
            },
            (AttachAction::Columns(value_a), AttachAction::Columns(value_b)) => {
                value_a.same(value_b)
            },
            (AttachAction::Attributes(value_a), AttachAction::Attributes(value_b)) => {
                *value_a == *value_b
            },
            (AttachAction::Done(value_a), AttachAction::Done(value_b)) => value_a.same(value_b),
            (AttachAction::Failed(value_a), AttachAction::Failed(value_b)) => value_a.same(value_b),
            _ => false,
        }
    }
}

/// What the server answered.
#[derive(Debug, PartialEq, Eq)]
pub enum AttachReply {
    Fields(Vec<Field>),
    Relation(Relation),
    Columns(Vec<ResultColumn>),
    Attributes(Vec<i16>),
    Failed(Error),
}

/// What a `AttachReply` denotes.
pub ghost enum AttachReplyView {
    Fields(Seq<FieldView>),
    Relation(RelationView),
    Columns(Seq<ResultColumnView>),
    Attributes(Seq<i16>),
    Failed(ErrorView),
}

impl DeepView for AttachReply {
    type V = AttachReplyView;

    open spec fn deep_view(&self) -> AttachReplyView {
        match self {
            AttachReply::Fields(value) => AttachReplyView::Fields(value.deep_view()),
            AttachReply::Relation(value) => AttachReplyView::Relation(value.deep_view()),
            AttachReply::Columns(value) => AttachReplyView::Columns(value.deep_view()),
            AttachReply::Attributes(value) => AttachReplyView::Attributes(value.deep_view()),
            AttachReply::Failed(value) => AttachReplyView::Failed(value.deep_view()),
        }
    }
}

impl Clone for AttachReply {
    fn clone(&self) -> (copy: AttachReply)
        ensures
            copy@ == self@,
    {
        self.duplicate()
    }
}

impl View for AttachReply {
    type V = AttachReplyView;

    open spec fn view(&self) -> AttachReplyView {
        self.deep_view()
    }
}

impl Value for AttachReply {
    fn duplicate(&self) -> (copy: AttachReply) {
        match self {
            AttachReply::Fields(value) => AttachReply::Fields(value.duplicate()),
            AttachReply::Relation(value) => AttachReply::Relation(value.duplicate()),
            AttachReply::Columns(value) => AttachReply::Columns(value.duplicate()),
            AttachReply::Attributes(value) => AttachReply::Attributes(value.duplicate()),
            AttachReply::Failed(value) => AttachReply::Failed(value.duplicate()),
        }
    }

    fn same(&self, other: &AttachReply) -> (same: bool) {
        match (self, other) {
            (AttachReply::Fields(value_a), AttachReply::Fields(value_b)) => value_a.same(value_b),
            (AttachReply::Relation(value_a), AttachReply::Relation(value_b)) => {
                value_a.same(value_b)
            },
            (AttachReply::Columns(value_a), AttachReply::Columns(value_b)) => value_a.same(value_b),
            (AttachReply::Attributes(value_a), AttachReply::Attributes(value_b)) => {
                value_a.same(value_b)
            },
            (AttachReply::Failed(value_a), AttachReply::Failed(value_b)) => value_a.same(value_b),
            _ => false,
        }
    }
}

/// Whether `k` is the first position of `item`.
pub open spec fn is_first<A>(items: Seq<A>, item: A, k: int) -> bool {
    0 <= k < items.len() && items[k] == item && forall|j: int|
        0 <= j < k ==> #[trigger] items[j] != item
}

/// The catalog position of a field, where it is a plain column of the table.
pub open spec fn catalog_index(field: FieldView, oid: u32, attribute_ids: Seq<i16>) -> Option<
    usize,
> {
    if field.table_oid == Some(oid) && field.column_id is Some && exists|k: int|
        is_first(attribute_ids, field.column_id->Some_0, k) {
        Some((choose|k: int| is_first(attribute_ids, field.column_id->Some_0, k)) as usize)
    } else {
        None
    }
}

/// The catalog position of each field.
pub open spec fn field_mapping(
    fields: Seq<FieldView>,
    oid: u32,
    attribute_ids: Seq<i16>,
) -> Seq<Option<usize>> {
    Seq::new(fields.len(), |k: int| catalog_index(fields[k], oid, attribute_ids))
}

/// Whether two fields show the same table column; edits of the two could contradict each other.
pub open spec fn repeats_column(mapping: Seq<Option<usize>>) -> bool {
    exists|j: int, k: int|
        0 <= j < k < mapping.len() && #[trigger] mapping[k] is Some && #[trigger] mapping[j]
            == mapping[k]
}

/// The metadata of a field that is no table column.
pub open spec fn expression_column(name: Seq<char>) -> ResultColumnView {
    ResultColumnView {
        name,
        data_type: Seq::empty(),
        editable: false,
        insertable: false,
        primary_key: false,
    }
}

/// The metadata of each field.
pub open spec fn projected_columns(
    fields: Seq<FieldView>,
    mapping: Seq<Option<usize>>,
    catalog: Seq<ResultColumnView>,
) -> Seq<ResultColumnView> {
    Seq::new(
        fields.len(),
        |k: int|
            match mapping[k] {
                Some(index) => catalog[index as int],
                None => expression_column(fields[k].name),
            },
    )
}

/// The positions of the key columns that no field shows.
pub open spec fn missing_keys(
    catalog: Seq<ResultColumnView>,
    mapping: Seq<Option<usize>>,
) -> Seq<int> {
    selected(
        catalog.len(),
        |i: int| catalog[i].primary_key && !mapping.contains(Some(i as usize)),
    )
}

/// The names at some positions.
pub open spec fn names_at(columns: Seq<ResultColumnView>, indices: Seq<int>) -> Seq<Seq<char>> {
    Seq::new(indices.len(), |k: int| columns[indices[k]].name)
}

/// Why rows cannot be edited, or the source through which they can.
pub open spec fn resolve_source(
    sql: Seq<char>,
    execution_id: u64,
    oid: u32,
    table: TableRefView,
    fields: Seq<FieldView>,
    catalog: Seq<ResultColumnView>,
    attribute_ids: Seq<i16>,
) -> Result<TableResultSourceView, Seq<char>> {
    let mapping = field_mapping(fields, oid, attribute_ids);
    let missing = missing_keys(catalog, mapping);
    if repeats_column(mapping) {
        Err(
            "The same source column appears more than once; select each column once to edit rows"@,
        )
    } else if !has_primary_key(catalog) {
        Err("This table has no primary key; query results are read-only"@)
    } else if missing.len() > 0 {
        Err(
            "Include primary key column(s) "@ + joined(names_at(catalog, missing), ", "@)
                + " to edit rows"@,
        )
    } else {
        Ok(
            TableResultSourceView {
                table,
                columns: projected_columns(fields, mapping, catalog),
                query: Some(
                    QuerySourceView {
                        sql,
                        execution_id,
                        table_oid: oid,
                        table_columns: catalog,
                        attribute_ids,
                        mapping,
                    },
                ),
            },
        )
    }
}

fn find_attribute(attribute_ids: &Vec<i16>, id: i16) -> (index: Option<usize>)
    ensures
        match index {
            Some(k) => is_first(attribute_ids@, id, k as int),
            None => forall|k: int| !is_first(attribute_ids@, id, k),
        },
{
    let mut k: usize = 0;
    while k < attribute_ids.len()
        invariant
            k <= attribute_ids@.len(),
            forall|j: int| 0 <= j < k ==> #[trigger] attribute_ids@[j] != id,
        decreases attribute_ids@.len() - k,
    {
        if attribute_ids[k] == id {
            return Some(k);
        }
        k += 1;
    }
    None
}

fn index_of_field(field: &Field, oid: u32, attribute_ids: &Vec<i16>) -> (index: Option<usize>)
    ensures
        index == catalog_index(field@, oid, attribute_ids@),
        index matches Some(k) ==> k < attribute_ids@.len(),
{
    match (field.table_oid, field.column_id) {
        (Some(table), Some(id)) => {
            if table != oid {
                return None;
            }
            let found = find_attribute(attribute_ids, id);
            proof {
                if let Some(k) = found {
                    let other = choose|j: int| is_first(attribute_ids@, id, j);
                    assert(other == k) by {
                        if other < k {
                            assert(attribute_ids@[other] != id);
                        } else if k < other {
                            assert(attribute_ids@[k as int] != id);
                        }
                    }
                }
            }
            found
        },
        _ => None,
    }
}

fn contains_index(mapping: &Vec<Option<usize>>, index: usize) -> (found: bool)
    ensures
        found == mapping@.contains(Some(index)),
{
    let mut k: usize = 0;
    while k < mapping.len()
        invariant
            k <= mapping@.len(),
            forall|j: int| 0 <= j < k ==> mapping@[j] != Some(index),
        decreases mapping@.len() - k,
    {
        if let Some(other) = mapping[k] {
            if other == index {
                assert(mapping@[k as int] == Some(index));
                return true;
            }
        }
        k += 1;
    }
    false
}

/// Resolves which table columns the fields show, and whether their rows can be edited.
pub fn resolve(
    sql: &str,
    execution_id: u64,
    oid: u32,
    table: &TableRef,
    fields: &Vec<Field>,
    catalog: &Vec<ResultColumn>,
    attribute_ids: &Vec<i16>,
) -> (result: Result<TableResultSource, String>)
    requires
        catalog@.len() == attribute_ids@.len(),
    ensures
        match result {
            Ok(source) => resolve_source(
                sql@,
                execution_id,
                oid,
                table@,
                fields.deep_view(),
                catalog.deep_view(),
                attribute_ids@,
            ) == Ok::<TableResultSourceView, Seq<char>>(source@),
            Err(reason) => resolve_source(
                sql@,
                execution_id,
                oid,
                table@,
                fields.deep_view(),
                catalog.deep_view(),
                attribute_ids@,
            ) == Err::<TableResultSourceView, Seq<char>>(reason@),
        },
{
    let ghost shown = fields.deep_view();
    let ghost known = catalog.deep_view();
    let ghost whole = field_mapping(shown, oid, attribute_ids@);
    let mut mapping: Vec<Option<usize>> = Vec::new();
    let mut columns: Vec<ResultColumn> = Vec::new();
    let mut k: usize = 0;
    while k < fields.len()
        invariant
            k <= fields@.len(),
            catalog@.len() == attribute_ids@.len(),
            shown == fields.deep_view(),
            known == catalog.deep_view(),
            whole == field_mapping(shown, oid, attribute_ids@),
            mapping@ =~= whole.take(k as int),
            columns.deep_view() =~= projected_columns(shown, whole, known).take(k as int),
            forall|i: int, j: int|
                0 <= j < i < k && #[trigger] whole[i] is Some ==> #[trigger] whole[j] != whole[i],
        decreases fields@.len() - k,
    {
        let index = index_of_field(&fields[k], oid, attribute_ids);
        assert(shown[k as int] == fields@[k as int]@);
        assert(whole[k as int] == index);
        let column = match index {
            Some(at) => {
                if contains_index(&mapping, at) {
                    proof {
                        let j = choose|j: int| 0 <= j < mapping@.len() && mapping@[j] == Some(at);
                        assert(whole[j] == whole[k as int]);
                    }
                    return Err(
                        "The same source column appears more than once; select each column once to edit rows".to_owned(),
                    );
                }
                assert(forall|j: int| 0 <= j < k ==> whole[j] == mapping@[j]);
                assert(known[at as int] == catalog@[at as int]@);
                catalog[at].duplicate()
            },
            None => {
                let column = ResultColumn {
                    name: fields[k].name.clone(),
                    data_type: String::new(),
                    editable: false,
                    insertable: false,
                    primary_key: false,
                };
                assert(column@.data_type =~= Seq::empty());
                column
            },
        };
        let ghost before = columns.deep_view();
        columns.push(column);
        assert(columns.deep_view() =~= before.push(column@));
        mapping.push(index);
        k += 1;
    }
    proof {
        assert(mapping@ =~= whole);
        assert(!repeats_column(whole));
    }
    if !any_primary_key(catalog) {
        return Err("This table has no primary key; query results are read-only".to_owned());
    }
    let ghost is_missing = |i: int| known[i].primary_key && !whole.contains(Some(i as usize));
    let ghost missing = missing_keys(known, whole);
    let ghost mut absent: Seq<int> = Seq::empty();
    let mut names: Vec<String> = Vec::new();
    let mut i: usize = 0;
    while i < catalog.len()
        invariant
            i <= catalog@.len(),
            known == catalog.deep_view(),
            mapping@ == whole,
            is_missing == (|i: int|
                known[i].primary_key && !whole.contains(Some(i as usize))),
            absent == selected(i as nat, is_missing),
            names.deep_view() =~= names_at(known, absent),
        decreases catalog@.len() - i,
    {
        assert(known[i as int] == catalog@[i as int]@);
        if catalog[i].primary_key && !contains_index(&mapping, i) {
            let ghost before = names.deep_view();
            names.push(catalog[i].name.clone());
            proof {
                assert(names.deep_view() =~= before.push(known[i as int].name));
                absent = absent.push(i as int);
            }
        }
        i += 1;
    }
    if names.len() > 0 {
        assert(names.deep_view().len() > 0);
        return Err(
            concat3(
                "Include primary key column(s) ",
                join(&names, ", ").as_str(),
                " to edit rows",
            ),
        );
    }
    assert(names.deep_view().len() == 0);
    proof {
        assert(columns.deep_view() =~= projected_columns(shown, whole, known));
        assert(mapping.deep_view() =~= mapping@);
        assert(attribute_ids.deep_view() =~= attribute_ids@);
    }
    Ok(
        TableResultSource {
            table: table.duplicate(),
            columns,
            query: Some(
                Box::new(
                    QuerySource {
                        sql: sql.to_owned(),
                        execution_id,
                        table_oid: oid,
                        table_columns: catalog.duplicate(),
                        attribute_ids: attribute_ids.duplicate(),
                        mapping,
                    },
                ),
            ),
        },
    )
}

/// The names of the fields.
pub open spec fn field_names(fields: Seq<FieldView>) -> Seq<Seq<char>> {
    Seq::new(fields.len(), |k: int| fields[k].name)
}

/// The table that every table column among the fields belongs to, where there is exactly one.
pub open spec fn common_table(fields: Seq<FieldView>, oid: u32) -> bool {
    &&& exists|k: int| 0 <= k < fields.len() && (#[trigger] fields[k]).table_oid == Some(oid)
    &&& forall|k: int|
        0 <= k < fields.len() && (#[trigger] fields[k]).table_oid is Some ==> fields[k].table_oid
            == Some(oid)
}

fn find_common_table(fields: &Vec<Field>) -> (oid: Option<u32>)
    ensures
        match oid {
            Some(oid) => common_table(fields.deep_view(), oid),
            None => forall|oid: u32| !common_table(fields.deep_view(), oid),
        },
{
    let ghost all = fields.deep_view();
    let mut found: Option<u32> = None;
    let mut k: usize = 0;
    while k < fields.len()
        invariant
            k <= fields@.len(),
            all == fields.deep_view(),
            match found {
                Some(oid) => (exists|j: int|
                    0 <= j < k && (#[trigger] all[j]).table_oid == Some(oid)) && forall|j: int|
                    0 <= j < k && (#[trigger] all[j]).table_oid is Some ==> all[j].table_oid
                        == Some(oid),
                None => forall|j: int| 0 <= j < k ==> (#[trigger] all[j]).table_oid is None,
            },
        decreases fields@.len() - k,
    {
        assert(all[k as int] == fields@[k as int]@);
        if let Some(oid) = fields[k].table_oid {
            assert(all[k as int].table_oid == Some(oid));
            match found {
                Some(earlier) => {
                    if earlier != oid {
                        proof {
                            assert forall|other: u32| !common_table(all, other) by {
                                if common_table(all, other) {
                                    let j = choose|j: int|
                                        0 <= j < k && (#[trigger] all[j]).table_oid == Some(
                                            earlier,
                                        );
                                    assert(all[j].table_oid == Some(other));
                                    assert(all[k as int].table_oid == Some(other));
                                }
                            }
                        }
                        return None;
                    }
                },
                None => {
                    found = Some(oid);
                },
            }
        }
        k += 1;
    }
    found
}

fn names_match(fields: &Vec<Field>, columns: &Vec<String>) -> (same: bool)
    ensures
        same == (field_names(fields.deep_view()) == columns.deep_view()),
{
    let ghost names = field_names(fields.deep_view());
    if fields.len() != columns.len() {
        assert(names.len() != columns.deep_view().len());
        return false;
    }
    let mut k: usize = 0;
    while k < fields.len()
        invariant
            k <= fields@.len(),
            fields@.len() == columns@.len(),
            names == field_names(fields.deep_view()),
            forall|j: int| 0 <= j < k ==> names[j] == columns.deep_view()[j],
        decreases fields@.len() - k,
    {
        if !fields[k].name.same(&columns[k]) {
            assert(names[k as int] != columns.deep_view()[k as int]);
            return false;
        }
        k += 1;
    }
    assert(names =~= columns.deep_view());
    true
}

impl QueryResultView {
    /// The result, marked as read-only for a reason.
    pub open spec fn read_only(self, reason: Seq<char>) -> QueryResultView {
        QueryResultView { read_only_reason: Some(reason), ..self }
    }

    /// The result, editable through a source.
    pub open spec fn editable(self, source: TableResultSourceView) -> QueryResultView {
        QueryResultView { read_only_reason: None, source: Some(source), ..self }
    }
}

/// Why the rows of most queries cannot be edited.
pub open spec fn shape_reason() -> Seq<char> {
    "Custom SQL results require a single-table SELECT without joins, grouping, DISTINCT, subqueries, or function calls"@
}

impl RelationView {
    /// Whether rows can be told apart by a primary key: ordinary inheritance does not enforce
    /// uniqueness across child tables.
    pub open spec fn physical(self) -> bool {
        self.kind == "p"@ || (self.kind == "r"@ && !self.inherited)
    }

    /// The table, in the connection and database of a page.
    pub open spec fn table(self, page: PageRefView) -> TableRefView {
        TableRefView {
            profile_id: page.profile_id,
            database: page.database,
            schema: self.schema,
            name: self.name,
            kind: if self.kind == "p"@ { "partitioned table"@ } else { "table"@ },
        }
    }
}

impl AttachView {
    /// Ends with the result as it is.
    pub open spec fn done(self, result: QueryResultView) -> (AttachView, AttachActionView) {
        (
            AttachView { result, phase: AttachPhaseView::Finished, ..self },
            AttachActionView::Done(result),
        )
    }

    /// Ends with a failure.
    pub open spec fn failed(self, error: ErrorView) -> (AttachView, AttachActionView) {
        (
            AttachView { phase: AttachPhaseView::Finished, ..self },
            AttachActionView::Failed(error),
        )
    }

    /// Goes on to a phase with a question.
    pub open spec fn ask(self, phase: AttachPhaseView, action: AttachActionView) -> (
        AttachView,
        AttachActionView,
    ) {
        (AttachView { phase, ..self }, action)
    }

    /// What an answer leads to. A failed answer ends the analysis, and so does an answer to another
    /// question than the one that was asked.
    pub open spec fn step(self, reply: AttachReplyView) -> (AttachView, AttachActionView) {
        match (self.phase, reply) {
            (_, AttachReplyView::Failed(error)) => self.failed(error),
            (AttachPhaseView::Preparing, AttachReplyView::Fields(fields)) => {
                if field_names(fields) != self.result.columns {
                    self.failed(plain_error("Query metadata changed; run the query again"@))
                } else if exists|oid: u32| common_table(fields, oid) {
                    let oid = choose|oid: u32| common_table(fields, oid);
                    self.ask(
                        AttachPhaseView::Locating { fields, oid },
                        AttachActionView::Relation(oid),
                    )
                } else {
                    self.done(self.result)
                }
            },
            (AttachPhaseView::Locating { fields, oid }, AttachReplyView::Relation(relation)) => {
                if !relation.physical() {
                    self.done(
                        self.result.read_only(
                            "Custom updates require a physical table; views and ordinary inheritance parents are read-only"@,
                        ),
                    )
                } else {
                    let table = relation.table(self.page);
                    self.ask(
                        AttachPhaseView::Reading { fields, oid, table },
                        AttachActionView::Columns(table),
                    )
                }
            },
            (
                AttachPhaseView::Reading { fields, oid, table },
                AttachReplyView::Columns(catalog),
            ) => self.ask(
                AttachPhaseView::Numbering { fields, oid, table, catalog },
                AttachActionView::Attributes(oid),
            ),
            (
                AttachPhaseView::Numbering { fields, oid, table, catalog },
                AttachReplyView::Attributes(ids),
            ) => {
                if catalog.len() != ids.len() {
                    self.failed(plain_error("Table definition changed; run the query again"@))
                } else {
                    match resolve_source(self.sql, self.page.id, oid, table, fields, catalog, ids) {
                        Ok(source) => self.done(self.result.editable(source)),
                        Err(reason) => self.done(self.result.read_only(reason)),
                    }
                }
            },
            _ => self.failed(plain_error("The server answered another question"@)),
        }
    }
}

/// How the analysis of a statement starts.
pub open spec fn attach_start(
    sql: Seq<char>,
    page: PageRefView,
    autocommit: bool,
    result: QueryResultView,
) -> (AttachView, AttachActionView) {
    let attach = AttachView {
        sql,
        page,
        result: result.read_only(shape_reason()),
        phase: AttachPhaseView::Preparing,
    };
    if !(syntax_tree(sql) is Some && one_table_read(syntax_tree(sql)->Some_0)) {
        attach.done(attach.result)
    } else if !autocommit {
        attach.done(
            attach.result.read_only(
                "Query results are read-only inside an explicit transaction; end the transaction and run the query again"@,
            ),
        )
    } else {
        attach.ask(AttachPhaseView::Preparing, AttachActionView::Prepare(sql))
    }
}

/// Starts the analysis of the statement whose cursor is `page`.
pub fn attach(sql: &str, page: &PageRef, autocommit: bool, result: QueryResult) -> (started: (
    Attach,
    AttachAction,
))
    ensures
        (started.0@, started.1@) == attach_start(sql@, page@, autocommit, result@),
{
    let mut attach = Attach {
        sql: sql.to_owned(),
        page: page.duplicate(),
        result,
        phase: AttachPhase::Preparing,
    };
    attach.result.read_only_reason = Some(
        "Custom SQL results require a single-table SELECT without joins, grouping, DISTINCT, subqueries, or function calls".to_owned(),
    );
    if !supported(sql) {
        return attach.finish();
    }
    if !autocommit {
        attach.result.read_only_reason = Some(
            "Query results are read-only inside an explicit transaction; end the transaction and run the query again".to_owned(),
        );
        return attach.finish();
    }
    (attach, AttachAction::Prepare(sql.to_owned()))
}

impl Attach {
    fn finish(self) -> (ended: (Attach, AttachAction))
        ensures
            (ended.0@, ended.1@) == self@.done(self@.result),
    {
        let mut attach = self;
        attach.phase = AttachPhase::Finished;
        let result = attach.result.duplicate();
        (attach, AttachAction::Done(result))
    }

    fn fail(self, error: Error) -> (ended: (Attach, AttachAction))
        ensures
            (ended.0@, ended.1@) == self@.failed(error@),
    {
        let mut attach = self;
        attach.phase = AttachPhase::Finished;
        (attach, AttachAction::Failed(error))
    }

    /// Takes the server's answer and goes on.
    pub fn step(self, reply: AttachReply) -> (next: (Attach, AttachAction))
        ensures
            (next.0@, next.1@) == self@.step(reply@),
    {
        let mut attach = self;
        let mut phase = AttachPhase::Finished;
        std::mem::swap(&mut phase, &mut attach.phase);
        match (phase, reply) {
            (_, AttachReply::Failed(error)) => attach.fail(error),
            (AttachPhase::Preparing, AttachReply::Fields(fields)) => {
                if !names_match(&fields, &attach.result.columns) {
                    return attach.fail(Error::new("Query metadata changed; run the query again"));
                }
                match find_common_table(&fields) {
                    Some(oid) => {
                        proof {
                            let all = fields.deep_view();
                            let other = choose|other: u32| common_table(all, other);
                            let k = choose|k: int|
                                0 <= k < all.len() && (#[trigger] all[k]).table_oid == Some(oid);
                            assert(all[k].table_oid == Some(other));
                        }
                        attach.phase = AttachPhase::Locating { fields, oid };
                        (attach, AttachAction::Relation(oid))
                    },
                    None => attach.finish(),
                }
            },
            (AttachPhase::Locating { fields, oid }, AttachReply::Relation(relation)) => {
                let partitioned = same_text(relation.kind.as_str(), "p");
                if !partitioned && !(same_text(relation.kind.as_str(), "r")
                    && !relation.inherited) {
                    attach.result.read_only_reason = Some(
                        "Custom updates require a physical table; views and ordinary inheritance parents are read-only".to_owned(),
                    );
                    return attach.finish();
                }
                let table = TableRef {
                    profile_id: attach.page.profile_id.clone(),
                    database: attach.page.database.clone(),
                    schema: relation.schema,
                    name: relation.name,
                    kind: if partitioned {
                        "partitioned table".to_owned()
                    } else {
                        "table".to_owned()
                    },
                };
                let action = AttachAction::Columns(table.duplicate());
                attach.phase = AttachPhase::Reading { fields, oid, table };
                (attach, action)
            },
            (AttachPhase::Reading { fields, oid, table }, AttachReply::Columns(catalog)) => {
                attach.phase = AttachPhase::Numbering { fields, oid, table, catalog };
                (attach, AttachAction::Attributes(oid))
            },
            (
                AttachPhase::Numbering { fields, oid, table, catalog },
                AttachReply::Attributes(ids),
            ) => {
                assert(ids.deep_view() =~= ids@);
                if catalog.len() != ids.len() {
                    return attach.fail(
                        Error::new("Table definition changed; run the query again"),
                    );
                }
                match resolve(
                    attach.sql.as_str(),
                    attach.page.id,
                    oid,
                    &table,
                    &fields,
                    &catalog,
                    &ids,
                ) {
                    Ok(source) => {
                        attach.result.read_only_reason = None;
                        attach.result.source = Some(source);
                        attach.finish()
                    },
                    Err(reason) => {
                        attach.result.read_only_reason = Some(reason);
                        attach.finish()
                    },
                }
            },
            _ => attach.fail(Error::new("The server answered another question")),
        }
    }
}

/// Whether a shown column still is what the catalog says of it.
pub open spec fn projection_holds(
    column: ResultColumnView,
    index: Option<usize>,
    current: Seq<ResultColumnView>,
) -> bool {
    match index {
        Some(index) => index < current.len() && current[index as int] == column,
        None => !column.editable && !column.primary_key && !column.insertable,
    }
}

/// Whether the mapping shows every key column, and there is one.
pub open spec fn complete_key(
    current: Seq<ResultColumnView>,
    mapping: Seq<Option<usize>>,
) -> bool {
    has_primary_key(current) && forall|i: int|
        0 <= i < current.len() && (#[trigger] current[i]).primary_key ==> mapping.contains(
            Some(i as usize),
        )
}

/// Why rows that a custom query showed may no longer be written, seen against the current catalog.
pub open spec fn projection_problem(
    columns: Seq<ResultColumnView>,
    query: QuerySourceView,
    current: Seq<ResultColumnView>,
    attribute_ids: Seq<i16>,
) -> Option<Seq<char>> {
    if attribute_ids != query.attribute_ids {
        Some("Table definition changed; run the query again"@)
    } else if query.mapping.len() != columns.len() {
        Some("Invalid query column mapping"@)
    } else if exists|k: int|
        0 <= k < columns.len() && !projection_holds(
            #[trigger] columns[k],
            query.mapping[k],
            current,
        ) {
        Some("Query columns changed; run the query again"@)
    } else if !complete_key(current, query.mapping) {
        Some("Include the complete primary key to edit rows"@)
    } else {
        None
    }
}

/// Checks the projection of a custom query against the current catalog.
pub fn validate_projection(
    columns: &Vec<ResultColumn>,
    query: &QuerySource,
    current: &Vec<ResultColumn>,
    attribute_ids: &Vec<i16>,
) -> (problem: Option<String>)
    ensures
        problem.deep_view() == projection_problem(
            columns.deep_view(),
            query@,
            current.deep_view(),
            attribute_ids@,
        ),
{
    let ghost shown = columns.deep_view();
    let ghost known = current.deep_view();
    proof {
        assert(attribute_ids.deep_view() =~= attribute_ids@);
        assert(query.mapping.deep_view() =~= query.mapping@);
    }
    if !attribute_ids.same(&query.attribute_ids) {
        return Some("Table definition changed; run the query again".to_owned());
    }
    if query.mapping.len() != columns.len() {
        return Some("Invalid query column mapping".to_owned());
    }
    let mut k: usize = 0;
    while k < columns.len()
        invariant
            k <= columns@.len(),
            shown == columns.deep_view(),
            known == current.deep_view(),
            query.mapping@.len() == columns@.len(),
            query@.mapping == query.mapping@,
            attribute_ids@ == query@.attribute_ids,
            forall|j: int|
                0 <= j < k ==> projection_holds(#[trigger] shown[j], query.mapping@[j], known),
        decreases columns@.len() - k,
    {
        let column = &columns[k];
        assert(shown[k as int] == column@);
        let holds = match query.mapping[k] {
            Some(index) => {
                if index < current.len() {
                    assert(known[index as int] == current@[index as int]@);
                    current[index].same(column)
                } else {
                    false
                }
            },
            None => !column.editable && !column.primary_key && !column.insertable,
        };
        if !holds {
            assert(!projection_holds(shown[k as int], query.mapping@[k as int], known));
            return Some("Query columns changed; run the query again".to_owned());
        }
        k += 1;
    }
    let mut complete = any_primary_key(current);
    let mut i: usize = 0;
    while i < current.len()
        invariant
            i <= current@.len(),
            known == current.deep_view(),
            query@.mapping == query.mapping@,
            complete <==> has_primary_key(known) && forall|j: int|
                0 <= j < i && (#[trigger] known[j]).primary_key ==> query.mapping@.contains(
                    Some(j as usize),
                ),
        decreases current@.len() - i,
    {
        assert(known[i as int] == current@[i as int]@);
        if current[i].primary_key && !contains_index(&query.mapping, i) {
            assert(known[i as int].primary_key);
            complete = false;
        }
        i += 1;
    }
    if !complete {
        return Some("Include the complete primary key to edit rows".to_owned());
    }
    None
}

/// A source that the analysis accepted passes the check before a save, as long as the table has not
/// changed in between.
pub proof fn resolved_sources_validate(
    sql: Seq<char>,
    execution_id: u64,
    oid: u32,
    table: TableRefView,
    fields: Seq<FieldView>,
    catalog: Seq<ResultColumnView>,
    attribute_ids: Seq<i16>,
)
    requires
        catalog.len() == attribute_ids.len(),
        catalog.len() <= usize::MAX,
        resolve_source(sql, execution_id, oid, table, fields, catalog, attribute_ids) is Ok,
    ensures
        ({
            let source = resolve_source(
                sql,
                execution_id,
                oid,
                table,
                fields,
                catalog,
                attribute_ids,
            )->Ok_0;
            projection_problem(source.columns, source.query->Some_0, catalog, attribute_ids) is None
        }),
{
    let mapping = field_mapping(fields, oid, attribute_ids);
    let columns = projected_columns(fields, mapping, catalog);
    assert forall|k: int| 0 <= k < columns.len() implies projection_holds(
        #[trigger] columns[k],
        mapping[k],
        catalog,
    ) by {
        if mapping[k] is Some {
            let id = fields[k].column_id->Some_0;
            let at = choose|j: int| is_first(attribute_ids, id, j);
            assert(is_first(attribute_ids, id, at));
        }
    }
    let missing = |i: int| catalog[i].primary_key && !mapping.contains(Some(i as usize));
    selected_ascends(catalog.len(), missing);
    assert forall|i: int|
        0 <= i < catalog.len() && (#[trigger] catalog[i]).primary_key implies mapping.contains(
        Some(i as usize),
    ) by {
        if !mapping.contains(Some(i as usize)) {
            assert(missing(i));
            assert(selected(catalog.len(), missing).contains(i));
        }
    }
}

/// Rows of a custom query become editable only with the complete primary key among the columns.
pub proof fn resolved_sources_have_complete_keys(
    sql: Seq<char>,
    execution_id: u64,
    oid: u32,
    table: TableRefView,
    fields: Seq<FieldView>,
    catalog: Seq<ResultColumnView>,
    attribute_ids: Seq<i16>,
)
    requires
        catalog.len() == attribute_ids.len(),
        catalog.len() <= usize::MAX,
        resolve_source(sql, execution_id, oid, table, fields, catalog, attribute_ids) is Ok,
    ensures
        ({
            let source = resolve_source(
                sql,
                execution_id,
                oid,
                table,
                fields,
                catalog,
                attribute_ids,
            )->Ok_0;
            complete_key(catalog, source.query->Some_0.mapping) && has_primary_key(source.columns)
        }),
{
    resolved_sources_validate(sql, execution_id, oid, table, fields, catalog, attribute_ids);
    let mapping = field_mapping(fields, oid, attribute_ids);
    let columns = projected_columns(fields, mapping, catalog);
    let i = choose|i: int| 0 <= i < catalog.len() && (#[trigger] catalog[i]).primary_key;
    assert(mapping.contains(Some(i as usize)));
    let k = choose|k: int| 0 <= k < mapping.len() && mapping[k] == Some(i as usize);
    assert(columns[k].primary_key);
}

} // verus!
