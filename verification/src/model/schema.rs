//! A schema document and its tables. Each keeps an ordered list (tables of
//! the document, columns of a table) beside an index from id to position.
use vstd::prelude::*;

use std::collections::BTreeMap;

use vstd::hash_map::StringHashMap;

use vstd::string::StrSliceExecFns;

use crate::dialect::DialectKind;
use crate::model::index::{
    after_add, after_remove, entry_in_bounds, ids_of, index_in_bounds, law_distinct_ids_all_found,
    lemma_ids_of_push, lemma_positions_of, lemma_positions_of_push, lookup, positions_of, Identified,
};
use crate::model::{
    is_uuid_v4_text, new_uuid_v4_text, AttrValue, Column, Index, PrimaryKey, TableGraph,
};
use crate::text::str_eq;
use crate::view::SelectedItem;

verus! {

/// A table of a schema.
pub struct Table {
    pub id: String,
    pub name: String,
    pub attrs: BTreeMap<String, AttrValue>,
    pub graph: Option<TableGraph>,
    columns: Vec<Column>,
    primary_keys: Vec<PrimaryKey>,
    indexes: Vec<Index>,
    columns_index: StringHashMap<usize>,
}

impl Identified for Table {
    closed spec fn id_view(&self) -> Seq<char> {
        self.id@
    }
}

/// Why a schema could not be created.
#[derive(Debug, Clone, Copy, PartialEq, Eq, Structural)]
pub enum NewSchemaError {
    /// The schema has no name.
    NameRequired,
}

/// A schema design: its dialect, name and attributes, and its tables.
pub struct SchemaDocument {
    pub dialect: DialectKind,
    pub name: String,
    pub schema_attrs: BTreeMap<String, AttrValue>,
    tables: Vec<Table>,
    tables_index: StringHashMap<usize>,
}

/// Builds the index of a list of columns from scratch.
fn index_columns(columns: &Vec<Column>) -> (idx: StringHashMap<usize>)
    ensures
        idx@ == positions_of(ids_of(columns@)),
        columns@.len() <= usize::MAX,
        index_in_bounds(idx@, columns@.len()),
{
    let ghost ids = ids_of(columns@);
    let mut idx: StringHashMap<usize> = StringHashMap::new();
    let n: usize = columns.len();
    let mut i: usize = 0;
    while i < n
        invariant
            n == columns@.len(),
            ids == ids_of(columns@),
            i <= n,
            idx@ == positions_of(ids.take(i as int)),
        decreases n - i,
    {
        proof {
            lemma_positions_of_push(ids.take(i as int), ids[i as int]);
            assert(ids.take(i as int).push(ids[i as int]) =~= ids.take(i + 1));
        }
        idx.insert(columns[i].id.clone(), i);
        i = i + 1;
    }
    assert(ids.take(n as int) =~= ids);
    proof {
        lemma_positions_of(ids);
    }
    idx
}

impl Table {
    /// The table's name.
    pub closed spec fn name_view(&self) -> Seq<char> {
        self.name@
    }

    /// The table's attributes.
    pub closed spec fn attrs_view(&self) -> Map<String, AttrValue> {
        self.attrs@
    }

    /// The table's diagram data.
    pub closed spec fn graph_view(&self) -> Option<TableGraph> {
        self.graph
    }

    /// The columns, in order.
    pub closed spec fn column_seq(&self) -> Seq<Column> {
        self.columns@
    }

    /// The index from column id to position.
    pub closed spec fn column_index(&self) -> Map<Seq<char>, usize> {
        self.columns_index@
    }

    /// The primary keys.
    pub closed spec fn primary_key_seq(&self) -> Seq<PrimaryKey> {
        self.primary_keys@
    }

    /// The indexes.
    pub closed spec fn index_seq(&self) -> Seq<Index> {
        self.indexes@
    }

    /// Every position the column index holds lies inside the column list.
    pub open spec fn wf(&self) -> bool {
        index_in_bounds(self.column_index(), self.column_seq().len())
    }

    /// The column index is the one rebuilding would produce (and the column
    /// list, as every list held in memory, has a length that fits a `usize`).
    pub open spec fn index_consistent(&self) -> bool {
        &&& self.column_index() == positions_of(ids_of(self.column_seq()))
        &&& self.column_seq().len() <= usize::MAX
    }

    /// All but the columns and their index are equal.
    pub open spec fn same_except_columns(&self, other: &Table) -> bool {
        &&& self.id_view() == other.id_view()
        &&& self.name_view() == other.name_view()
        &&& self.attrs_view() == other.attrs_view()
        &&& self.graph_view() == other.graph_view()
        &&& self.primary_key_seq() == other.primary_key_seq()
        &&& self.index_seq() == other.index_seq()
    }

    /// All but the column index are equal.
    pub open spec fn same_content(&self, other: &Table) -> bool {
        &&& self.same_except_columns(other)
        &&& self.column_seq() == other.column_seq()
    }

    /// A table as `Table::new` makes it, but with the given id: no
    /// attributes, no diagram data, no columns, keys or indexes.
    pub open spec fn is_fresh(&self, name: Seq<char>) -> bool {
        &&& self.name_view() == name
        &&& self.attrs_view() == Map::<String, AttrValue>::empty()
        &&& self.graph_view() is None
        &&& self.column_seq() == Seq::<Column>::empty()
        &&& self.primary_key_seq() == Seq::<PrimaryKey>::empty()
        &&& self.index_seq() == Seq::<Index>::empty()
        &&& self.column_index() == Map::<Seq<char>, usize>::empty()
    }

    /// The table's id, for verified callers (outside this module the fields
    /// are hidden from proofs).
    pub fn id(&self) -> (r: &String)
        ensures
            r@ == self.id_view(),
    {
        &self.id
    }

    /// The table's name.
    pub fn name(&self) -> (r: &String)
        ensures
            r@ == self.name_view(),
    {
        &self.name
    }

    /// The table's attributes.
    pub fn attrs(&self) -> (r: &BTreeMap<String, AttrValue>)
        ensures
            r@ == self.attrs_view(),
    {
        &self.attrs
    }

    /// The table's diagram data.
    pub fn graph(&self) -> (r: &Option<TableGraph>)
        ensures
            *r == self.graph_view(),
    {
        &self.graph
    }

    /// A new table with the given id and name.
    pub fn new_with_id(id: String, name: String) -> (r: Table)
        ensures
            r.id_view() == id@,
            r.is_fresh(name@),
            r.wf(),
            r.index_consistent(),
    {
        let r = Table {
            id,
            name,
            attrs: BTreeMap::new(),
            graph: None,
            columns: Vec::new(),
            primary_keys: Vec::new(),
            indexes: Vec::new(),
            columns_index: StringHashMap::new(),
        };
        assert(ids_of(r.columns@) =~= Seq::<Seq<char>>::empty());
        r
    }

    /// A new table with a fresh random id; `None` when the operating system
    /// gives no random bytes.
    pub fn new(name: String) -> (r: Option<Table>)
        ensures
            r matches Some(t) ==> {
                &&& is_uuid_v4_text(t.id_view())
                &&& t.is_fresh(name@)
                &&& t.wf()
                &&& t.index_consistent()
            },
    {
        match new_uuid_v4_text() {
            Some(id) => Some(Table::new_with_id(id, name)),
            None => None,
        }
    }

    /// A table from its stored parts, with the column index made from the
    /// `column_index` entries inserted in order, as they were stored. The
    /// index is well formed when every entry points inside the column list.
    pub fn from_parts(
        id: String,
        name: String,
        attrs: BTreeMap<String, AttrValue>,
        graph: Option<TableGraph>,
        columns: Vec<Column>,
        primary_keys: Vec<PrimaryKey>,
        indexes: Vec<Index>,
        column_index: Vec<(String, usize)>,
    ) -> (t: Table)
        ensures
            t.id_view() == id@,
            t.name_view() == name@,
            t.attrs_view() == attrs@,
            t.graph_view() == graph,
            t.column_seq() == columns@,
            t.primary_key_seq() == primary_keys@,
            t.index_seq() == indexes@,
            t.column_index() == map_of_entries(entries_view(column_index@)),
            (forall|k: int| 0 <= k < column_index@.len() ==> #[trigger] column_index@[k].1 < columns@.len())
                ==> t.wf(),
    {
        let ghost entries = entries_view(column_index@);
        let mut idx: StringHashMap<usize> = StringHashMap::new();
        let n: usize = column_index.len();
        let mut k: usize = 0;
        while k < n
            invariant
                n == column_index@.len(),
                entries == entries_view(column_index@),
                k <= n,
                idx@ == map_of_entries(entries.take(k as int)),
                (forall|j: int| 0 <= j < k ==> #[trigger] column_index@[j].1 < columns@.len())
                    ==> index_in_bounds(idx@, columns@.len()),
            decreases n - k,
        {
            let (key, pos) = &column_index[k];
            assert(entries.take(k + 1).drop_last() =~= entries.take(k as int));
            idx.insert(key.clone(), *pos);
            k = k + 1;
        }
        assert(entries.take(n as int) =~= entries);
        Table { id, name, attrs, graph, columns, primary_keys, indexes, columns_index: idx }
    }

    /// The position the column index holds for `id`, if any.
    pub fn column_position(&self, id: &str) -> (r: Option<usize>)
        ensures
            r == (if self.column_index().contains_key(id@) {
                Some(self.column_index()[id@])
            } else {
                None::<usize>
            }),
    {
        match self.columns_index.get(id) {
            Some(i) => Some(*i),
            None => None,
        }
    }

    /// The columns, in order.
    pub fn columns(&self) -> (r: &[Column])
        ensures
            r@ == self.column_seq(),
    {
        self.columns.as_slice()
    }

    /// The primary keys.
    pub fn primary_keys(&self) -> (r: &[PrimaryKey])
        ensures
            r@ == self.primary_key_seq(),
    {
        self.primary_keys.as_slice()
    }

    /// The indexes.
    pub fn indexes(&self) -> (r: &[Index])
        ensures
            r@ == self.index_seq(),
    {
        self.indexes.as_slice()
    }

    /// The columns, in order, for editing in place.
    pub fn columns_mut(&mut self) -> (r: &mut [Column])
        ensures
            r@ == old(self).column_seq(),
            final(self).column_seq() == final(r)@,
            final(self).column_index() == old(self).column_index(),
            final(self).same_except_columns(old(self)),
    {
        self.columns.as_mut_slice()
    }

    /// Appends a column and indexes it at its new position.
    pub fn add_column(&mut self, col: Column)
        requires
            old(self).column_seq().len() < usize::MAX,
        ensures
            (final(self).column_seq(), final(self).column_index()) == after_add(
                old(self).column_seq(),
                old(self).column_index(),
                col,
            ),
            final(self).same_except_columns(old(self)),
            old(self).wf() ==> final(self).wf(),
            old(self).index_consistent() ==> final(self).index_consistent(),
    {
        let i: usize = self.columns.len();
        let ghost c = col;
        self.columns_index.insert(col.id.clone(), i);
        self.columns.push(col);
        proof {
            lemma_ids_of_push(old(self).column_seq(), c);
            lemma_positions_of_push(ids_of(old(self).column_seq()), c.id@);
        }
    }

    /// Removes the column that the index gives for `id`, if any, and
    /// rebuilds the index.
    pub fn remove_column(&mut self, id: &String) -> (r: Option<Column>)
        requires
            entry_in_bounds(old(self).column_index(), old(self).column_seq().len(), id@),
        ensures
            (r, final(self).column_seq(), final(self).column_index()) == after_remove(
                old(self).column_seq(),
                old(self).column_index(),
                id@,
            ),
            final(self).same_except_columns(old(self)),
            old(self).wf() || r is Some ==> final(self).wf(),
            final(self).index_consistent() || r is None,
    {
        let i: usize = match self.columns_index.get(id.as_str()) {
            Some(i) => *i,
            None => return None,
        };
        self.columns_index.remove(id.as_str());
        let col = self.columns.remove(i);
        self.columns_index = index_columns(&self.columns);
        Some(col)
    }

    /// The column that the index gives for `col_id`.
    pub fn get_column(&self, col_id: &String) -> (r: Option<&Column>)
        requires
            entry_in_bounds(self.column_index(), self.column_seq().len(), col_id@),
        ensures
            match r {
                Some(c) => lookup(self.column_seq(), self.column_index(), col_id@) == Some(*c),
                None => lookup(self.column_seq(), self.column_index(), col_id@) is None,
            },
    {
        match self.columns_index.get(col_id.as_str()) {
            Some(i) => Some(&self.columns[*i]),
            None => None,
        }
    }

    /// The column that the index gives for `col_id`, for editing in place.
    pub fn get_column_mut(&mut self, col_id: &String) -> (r: Option<&mut Column>)
        requires
            entry_in_bounds(old(self).column_index(), old(self).column_seq().len(), col_id@),
        ensures
            match r {
                Some(c) => {
                    &&& lookup(old(self).column_seq(), old(self).column_index(), col_id@) == Some(*c)
                    &&& final(self).column_seq() == old(self).column_seq().update(
                        old(self).column_index()[col_id@] as int,
                        *final(c),
                    )
                    &&& final(self).column_index() == old(self).column_index()
                    &&& final(self).same_except_columns(old(self))
                },
                None => {
                    &&& lookup(old(self).column_seq(), old(self).column_index(), col_id@) is None
                    &&& *final(self) == *old(self)
                },
            },
    {
        match self.columns_index.get(col_id.as_str()) {
            Some(i) => {
                let i: usize = *i;
                Some(&mut self.columns[i])
            },
            None => None,
        }
    }

    /// Rebuilds the column index from the column list.
    pub fn rebuild_index(&mut self)
        ensures
            final(self).same_content(old(self)),
            final(self).index_consistent(),
            final(self).wf(),
    {
        self.columns_index = index_columns(&self.columns);
    }
}

/// Builds the index of a list of tables from scratch.
fn index_tables(tables: &Vec<Table>) -> (idx: StringHashMap<usize>)
    ensures
        idx@ == positions_of(ids_of(tables@)),
        tables@.len() <= usize::MAX,
        index_in_bounds(idx@, tables@.len()),
{
    let ghost ids = ids_of(tables@);
    let mut idx: StringHashMap<usize> = StringHashMap::new();
    let n: usize = tables.len();
    let mut i: usize = 0;
    while i < n
        invariant
            n == tables@.len(),
            ids == ids_of(tables@),
            i <= n,
            idx@ == positions_of(ids.take(i as int)),
        decreases n - i,
    {
        proof {
            lemma_positions_of_push(ids.take(i as int), ids[i as int]);
            assert(ids.take(i as int).push(ids[i as int]) =~= ids.take(i + 1));
        }
        idx.insert(tables[i].id.clone(), i);
        i = i + 1;
    }
    assert(ids.take(n as int) =~= ids);
    proof {
        lemma_positions_of(ids);
    }
    idx
}

/// `t` is `old` renamed to `name`, with its diagram data, if any, marked
/// for redrawing; everything else is kept.
pub open spec fn is_renamed(t: Table, old: Table, name: Seq<char>) -> bool {
    &&& t.id_view() == old.id_view()
    &&& t.name_view() == name
    &&& t.attrs_view() == old.attrs_view()
    &&& t.graph_view() == match old.graph_view() {
        Some(g) => Some(TableGraph { is_dirty: true, ..g }),
        None => None,
    }
    &&& t.column_seq() == old.column_seq()
    &&& t.column_index() == old.column_index()
    &&& t.primary_key_seq() == old.primary_key_seq()
    &&& t.index_seq() == old.index_seq()
}

impl SchemaDocument {
    /// The dialect.
    pub closed spec fn dialect_view(&self) -> DialectKind {
        self.dialect
    }

    /// The schema's name.
    pub closed spec fn name_view(&self) -> Seq<char> {
        self.name@
    }

    /// The schema's attributes.
    pub closed spec fn attrs_view(&self) -> Map<String, AttrValue> {
        self.schema_attrs@
    }

    /// The tables, in order.
    pub closed spec fn table_seq(&self) -> Seq<Table> {
        self.tables@
    }

    /// The index from table id to position.
    pub closed spec fn table_index(&self) -> Map<Seq<char>, usize> {
        self.tables_index@
    }

    /// The dialect, for verified callers (outside this module the fields are
    /// hidden from proofs).
    pub fn dialect(&self) -> (r: DialectKind)
        ensures
            r == self.dialect_view(),
    {
        self.dialect
    }

    /// The schema's name.
    pub fn name(&self) -> (r: &String)
        ensures
            r@ == self.name_view(),
    {
        &self.name
    }

    /// The schema's attributes.
    pub fn attrs(&self) -> (r: &BTreeMap<String, AttrValue>)
        ensures
            r@ == self.attrs_view(),
    {
        &self.schema_attrs
    }

    /// Every position the table index holds lies inside the table list, and
    /// every table is well formed.
    pub open spec fn wf(&self) -> bool {
        &&& index_in_bounds(self.table_index(), self.table_seq().len())
        &&& forall|i: int| 0 <= i < self.table_seq().len() ==> #[trigger] self.table_seq()[i].wf()
    }

    /// The table index is the one rebuilding would produce (and the table
    /// list, as every list held in memory, has a length that fits a `usize`).
    pub open spec fn index_consistent(&self) -> bool {
        &&& self.table_index() == positions_of(ids_of(self.table_seq()))
        &&& self.table_seq().len() <= usize::MAX
    }

    /// The table index and the column index of every table are the ones
    /// rebuilding would produce.
    pub open spec fn fully_indexed(&self) -> bool {
        &&& self.index_consistent()
        &&& forall|i: int|
            0 <= i < self.table_seq().len() ==> #[trigger] self.table_seq()[i].index_consistent()
    }

    /// Dialect, name and attributes are equal.
    pub open spec fn same_header(&self, other: &SchemaDocument) -> bool {
        &&& self.dialect_view() == other.dialect_view()
        &&& self.name_view() == other.name_view()
        &&& self.attrs_view() == other.attrs_view()
    }

    /// A new schema without tables.
    pub fn new(
        dialect: DialectKind,
        name: String,
        schema_attrs: BTreeMap<String, AttrValue>,
    ) -> (r: SchemaDocument)
        ensures
            r.dialect_view() == dialect,
            r.name_view() == name@,
            r.attrs_view() == schema_attrs@,
            r.table_seq() == Seq::<Table>::empty(),
            r.table_index() == Map::<Seq<char>, usize>::empty(),
            r.wf(),
            r.fully_indexed(),
    {
        let r = SchemaDocument {
            dialect,
            name,
            schema_attrs,
            tables: Vec::new(),
            tables_index: StringHashMap::new(),
        };
        assert(ids_of(r.tables@) =~= Seq::<Seq<char>>::empty());
        r
    }

    /// A new schema without tables, from what the user entered: refused
    /// when the name is empty.
    pub fn create(
        dialect: DialectKind,
        name: String,
        schema_attrs: BTreeMap<String, AttrValue>,
    ) -> (r: Result<SchemaDocument, NewSchemaError>)
        ensures
            r is Err <==> name@.len() == 0,
            match r {
                Ok(d) => {
                    &&& d.dialect_view() == dialect
                    &&& d.name_view() == name@
                    &&& d.attrs_view() == schema_attrs@
                    &&& d.table_seq() == Seq::<Table>::empty()
                    &&& d.table_index() == Map::<Seq<char>, usize>::empty()
                    &&& d.wf()
                },
                Err(e) => e == NewSchemaError::NameRequired,
            },
    {
        if name.as_str().unicode_len() == 0 {
            Err(NewSchemaError::NameRequired)
        } else {
            Ok(SchemaDocument::new(dialect, name, schema_attrs))
        }
    }

    /// A schema holding the given tables with an empty table index, as it
    /// stands after it is read back from a file (the index is not stored).
    pub fn from_parts(
        dialect: DialectKind,
        name: String,
        schema_attrs: BTreeMap<String, AttrValue>,
        tables: Vec<Table>,
    ) -> (r: SchemaDocument)
        ensures
            r.dialect_view() == dialect,
            r.name_view() == name@,
            r.attrs_view() == schema_attrs@,
            r.table_seq() == tables@,
            r.table_index() == Map::<Seq<char>, usize>::empty(),
            (forall|i: int| 0 <= i < tables@.len() ==> #[trigger] tables@[i].wf()) ==> r.wf(),
    {
        SchemaDocument { dialect, name, schema_attrs, tables, tables_index: StringHashMap::new() }
    }

    /// The tables, in order.
    pub fn tables(&self) -> (r: &[Table])
        ensures
            r@ == self.table_seq(),
    {
        self.tables.as_slice()
    }

    /// The tables, in order, for editing in place.
    pub fn tables_mut(&mut self) -> (r: &mut [Table])
        ensures
            r@ == old(self).table_seq(),
            final(self).table_seq() == final(r)@,
            final(self).table_index() == old(self).table_index(),
            final(self).same_header(old(self)),
    {
        self.tables.as_mut_slice()
    }

    /// Appends a table and indexes it at its new position.
    pub fn add_table(&mut self, table: Table)
        requires
            old(self).table_seq().len() < usize::MAX,
        ensures
            (final(self).table_seq(), final(self).table_index()) == after_add(
                old(self).table_seq(),
                old(self).table_index(),
                table,
            ),
            final(self).same_header(old(self)),
            old(self).wf() && table.wf() ==> final(self).wf(),
            old(self).index_consistent() ==> final(self).index_consistent(),
    {
        let i: usize = self.tables.len();
        let ghost t = table;
        self.tables_index.insert(table.id.clone(), i);
        self.tables.push(table);
        proof {
            lemma_ids_of_push(old(self).table_seq(), t);
            lemma_positions_of_push(ids_of(old(self).table_seq()), t.id@);
        }
    }

    /// Removes the table that the index gives for `id`, if any, and rebuilds
    /// the table index.
    pub fn remove_table(&mut self, id: &str) -> (r: Option<Table>)
        requires
            entry_in_bounds(old(self).table_index(), old(self).table_seq().len(), id@),
        ensures
            (r, final(self).table_seq(), final(self).table_index()) == after_remove(
                old(self).table_seq(),
                old(self).table_index(),
                id@,
            ),
            final(self).same_header(old(self)),
            r is Some ==> index_in_bounds(final(self).table_index(), final(self).table_seq().len()),
            old(self).wf() ==> final(self).wf(),
            final(self).index_consistent() || r is None,
    {
        let i: usize = match self.tables_index.get(id) {
            Some(i) => *i,
            None => return None,
        };
        self.tables_index.remove(id);
        let table = self.tables.remove(i);
        self.tables_index = index_tables(&self.tables);
        proof {
            if old(self).wf() {
                assert forall|j: int| 0 <= j < self.tables@.len() implies #[trigger] self.tables@[j].wf() by {
                    if j >= i {
                        assert(self.tables@[j] == old(self).tables@[j + 1]);
                    }
                }
            }
        }
        Some(table)
    }

    /// The table that the index gives for `id`.
    pub fn get_table(&self, id: &str) -> (r: Option<&Table>)
        ensures
            match r {
                Some(t) => lookup(self.table_seq(), self.table_index(), id@) == Some(*t),
                None => lookup(self.table_seq(), self.table_index(), id@) is None,
            },
    {
        match self.tables_index.get(id) {
            Some(i) => {
                if *i < self.tables.len() {
                    Some(&self.tables[*i])
                } else {
                    None
                }
            },
            None => None,
        }
    }

    /// The table that the index gives for `id`, for editing in place.
    pub fn get_table_mut(&mut self, id: &str) -> (r: Option<&mut Table>)
        ensures
            match r {
                Some(t) => {
                    &&& lookup(old(self).table_seq(), old(self).table_index(), id@) == Some(*t)
                    &&& final(self).table_seq() == old(self).table_seq().update(
                        old(self).table_index()[id@] as int,
                        *final(t),
                    )
                    &&& final(self).table_index() == old(self).table_index()
                    &&& final(self).same_header(old(self))
                },
                None => {
                    &&& lookup(old(self).table_seq(), old(self).table_index(), id@) is None
                    &&& *final(self) == *old(self)
                },
            },
    {
        let i: usize = match self.tables_index.get(id) {
            Some(i) => *i,
            None => return None,
        };
        if i < self.tables.len() {
            Some(&mut self.tables[i])
        } else {
            None
        }
    }

    /// Rebuilds the table index, and the column index of every table.
    pub fn rebuild_index(&mut self)
        ensures
            is_rebuilt(*final(self), *old(self)),
    {
        self.tables_index = index_tables(&self.tables);
        let n: usize = self.tables.len();
        let mut j: usize = 0;
        while j < n
            invariant
                n == self.tables@.len(),
                n == old(self).tables@.len(),
                j <= n,
                self.dialect == old(self).dialect,
                self.name@ == old(self).name@,
                self.schema_attrs@ == old(self).schema_attrs@,
                forall|i: int| 0 <= i < n ==> #[trigger] self.tables@[i].same_content(&old(self).tables@[i]),
                forall|i: int| 0 <= i < j ==> #[trigger] self.tables@[i].index_consistent(),
                forall|i: int| 0 <= i < j ==> #[trigger] self.tables@[i].wf(),
                ids_of(self.tables@) == ids_of(old(self).tables@),
                self.tables_index@ == positions_of(ids_of(self.tables@)),
                index_in_bounds(self.tables_index@, n as nat),
            decreases n - j,
        {
            let ghost before = self.tables@;
            self.tables[j].rebuild_index();
            assert forall|i: int| 0 <= i < n && i != j implies #[trigger] self.tables@[i] == before[i] by {}
            assert(self.tables@[j as int].same_content(&before[j as int]));
            assert(before[j as int].same_content(&old(self).tables@[j as int]));
            assert(self.tables@[j as int].same_content(&old(self).tables@[j as int]));
            assert(ids_of(self.tables@) =~= ids_of(before));
            j = j + 1;
        }
    }

    /// The name to show for the selection: that of the table the selection
    /// names, or an empty text when no table is selected or the schema's index
    /// has no table under that id.
    pub fn selected_table_name(&self, selected: &Option<SelectedItem>) -> (r: String)
        ensures
            r@ == match selected {
                Some(SelectedItem::Table(id)) => match lookup(self.table_seq(), self.table_index(), id@) {
                    Some(t) => t.name_view(),
                    None => Seq::<char>::empty(),
                },
                _ => Seq::<char>::empty(),
            },
    {
        match selected {
            Some(SelectedItem::Table(tid)) => match self.get_table(tid.as_str()) {
                Some(t) => t.name.clone(),
                None => String::new(),
            },
            _ => String::new(),
        }
    }

    /// Renames the table that the index gives for `table_id`, if its name
    /// differs, and marks its diagram data for redrawing.
    pub fn update_table_name(&mut self, table_id: &str, name: &str)
        ensures
            final(self).same_header(old(self)),
            final(self).table_index() == old(self).table_index(),
            match lookup(old(self).table_seq(), old(self).table_index(), table_id@) {
                Some(t) => if t.name_view() != name@ {
                    &&& final(self).table_seq().len() == old(self).table_seq().len()
                    &&& is_renamed(
                        final(self).table_seq()[old(self).table_index()[table_id@] as int],
                        t,
                        name@,
                    )
                    &&& forall|j: int|
                        0 <= j < old(self).table_seq().len() && j != old(self).table_index()[table_id@]
                            ==> #[trigger] final(self).table_seq()[j] == old(self).table_seq()[j]
                } else {
                    final(self).table_seq() == old(self).table_seq()
                },
                None => final(self).table_seq() == old(self).table_seq(),
            },
            old(self).wf() ==> final(self).wf(),
            old(self).fully_indexed() ==> final(self).fully_indexed(),
            final(self).table_seq().len() == old(self).table_seq().len(),
            forall|i: int|
                0 <= i < old(self).table_seq().len() ==> {
                    let a = #[trigger] final(self).table_seq()[i];
                    let b = old(self).table_seq()[i];
                    &&& a.id_view() == b.id_view()
                    &&& a.attrs_view() == b.attrs_view()
                    &&& a.column_seq() == b.column_seq()
                    &&& a.column_index() == b.column_index()
                    &&& a.primary_key_seq() == b.primary_key_seq()
                    &&& a.index_seq() == b.index_seq()
                    &&& (a.name_view() == b.name_view() || a.name_view() == name@)
                    &&& (a.graph_view() == b.graph_view() || a.graph_view() == match b.graph_view() {
                        Some(g) => Some(TableGraph { is_dirty: true, ..g }),
                        None => None,
                    })
                },
            lookup(old(self).table_seq(), old(self).table_index(), table_id@) matches Some(t) ==> lookup(
                final(self).table_seq(),
                final(self).table_index(),
                table_id@,
            ) matches Some(u) && u.name_view() == name@,
    {
        if let Some(table) = self.get_table_mut(table_id) {
            if !str_eq(table.name.as_str(), name) {
                table.name = name.to_owned();
                if let Some(g) = &mut table.graph {
                    g.is_dirty = true;
                }
            }
        }
        proof {
            assert(ids_of(self.tables@) =~= ids_of(old(self).tables@));
            assert(self.tables@.len() == old(self).tables@.len());
            assert forall|j: int| 0 <= j < self.tables@.len() implies
                #[trigger] self.tables@[j].column_seq() == old(self).tables@[j].column_seq()
                && self.tables@[j].column_index() == old(self).tables@[j].column_index() by {
                if lookup(old(self).table_seq(), old(self).table_index(), table_id@) is Some {
                    let k: int = old(self).tables_index@[table_id@] as int;
                    if j != k {
                        assert(self.tables@[j] == old(self).tables@[j]);
                    }
                }
            }
            if old(self).wf() {
                assert forall|j: int| 0 <= j < self.tables@.len() implies #[trigger] self.tables@[j].wf() by {
                    assert(self.tables@[j].column_seq() == old(self).tables@[j].column_seq());
                    assert(old(self).tables@[j].wf());
                }
            }
            if old(self).fully_indexed() {
                assert forall|j: int| 0 <= j < self.tables@.len() implies #[trigger] self.tables@[j].index_consistent() by {
                    assert(self.tables@[j].column_seq() == old(self).tables@[j].column_seq());
                    assert(old(self).tables@[j].index_consistent());
                }
            }
        }
    }
}

impl Default for SchemaDocument {
    fn default() -> (r: Self)
        ensures
            r.dialect_view() == DialectKind::MySql,
            r.name_view() == Seq::<char>::empty(),
            r.attrs_view() == Map::<String, AttrValue>::empty(),
            r.table_seq() == Seq::<Table>::empty(),
            r.table_index() == Map::<Seq<char>, usize>::empty(),
            r.wf(),
    {
        SchemaDocument::new(DialectKind::default(), String::new(), BTreeMap::new())
    }
}

/// `after` is `before` with the table index and the column index of every
/// table rebuilt: the header, the tables in their order and all they hold
/// but their column index are kept.
pub open spec fn is_rebuilt(after: SchemaDocument, before: SchemaDocument) -> bool {
    &&& after.same_header(&before)
    &&& after.table_seq().len() == before.table_seq().len()
    &&& forall|i: int|
        0 <= i < before.table_seq().len() ==> #[trigger] after.table_seq()[i].same_content(
            &before.table_seq()[i],
        )
    &&& after.fully_indexed()
    &&& after.wf()
}

/// After a rebuild of a document whose tables have distinct ids, and whose
/// columns have distinct ids within each table, every table is found by its
/// id, and every column of a table by its id, with all they held.
pub proof fn law_rebuilt_finds_everything(before: SchemaDocument, after: SchemaDocument)
    requires
        is_rebuilt(after, before),
        ids_of(before.table_seq()).no_duplicates(),
        forall|i: int|
            0 <= i < before.table_seq().len() ==> #[trigger] ids_of(
                before.table_seq()[i].column_seq(),
            ).no_duplicates(),
    ensures
        forall|i: int|
            0 <= i < before.table_seq().len() ==> {
                &&& lookup(after.table_seq(), after.table_index(), #[trigger] before.table_seq()[i].id_view())
                    == Some(after.table_seq()[i])
                &&& after.table_seq()[i].same_content(&before.table_seq()[i])
            },
        forall|i: int, k: int|
            0 <= i < before.table_seq().len() && 0 <= k < before.table_seq()[i].column_seq().len()
                ==> lookup(
                after.table_seq()[i].column_seq(),
                after.table_seq()[i].column_index(),
                #[trigger] before.table_seq()[i].column_seq()[k].id_view(),
            ) == Some(before.table_seq()[i].column_seq()[k]),
{
    let a = after.table_seq();
    let b = before.table_seq();
    assert(ids_of(a) =~= ids_of(b)) by {
        assert forall|i: int| 0 <= i < a.len() implies #[trigger] ids_of(a)[i] == ids_of(b)[i] by {
            assert(a[i].same_content(&b[i]));
        }
    }
    law_distinct_ids_all_found(a);
    assert forall|i: int| 0 <= i < b.len() implies lookup(a, after.table_index(), #[trigger] b[i].id_view())
        == Some(a[i]) by {
        assert(a[i].same_content(&b[i]));
        assert(a[i].id_view() == b[i].id_view());
    }
    assert forall|i: int, k: int| 0 <= i < b.len() && 0 <= k < b[i].column_seq().len() implies lookup(
        a[i].column_seq(),
        a[i].column_index(),
        #[trigger] b[i].column_seq()[k].id_view(),
    ) == Some(b[i].column_seq()[k]) by {
        assert(a[i].same_content(&b[i]));
        assert(a[i].index_consistent());
        law_distinct_ids_all_found(a[i].column_seq());
    }
}

/// Rebuilding a rebuilt document changes nothing: the table index, and for
/// every table all it holds and its column index, stay as they were.
pub proof fn law_rebuild_idempotent(before: SchemaDocument, once: SchemaDocument, twice: SchemaDocument)
    requires
        is_rebuilt(once, before),
        is_rebuilt(twice, once),
    ensures
        twice.same_header(&once),
        twice.table_seq().len() == once.table_seq().len(),
        twice.table_index() == once.table_index(),
        forall|i: int|
            0 <= i < once.table_seq().len() ==> {
                &&& #[trigger] twice.table_seq()[i].same_content(&once.table_seq()[i])
                &&& twice.table_seq()[i].column_index() == once.table_seq()[i].column_index()
            },
{
    let a = twice.table_seq();
    let b = once.table_seq();
    assert(ids_of(a) =~= ids_of(b)) by {
        assert forall|i: int| 0 <= i < a.len() implies #[trigger] ids_of(a)[i] == ids_of(b)[i] by {
            assert(a[i].same_content(&b[i]));
        }
    }
    assert forall|i: int| 0 <= i < b.len() implies #[trigger] a[i].column_index() == b[i].column_index() by {
        assert(a[i].same_content(&b[i]));
        assert(a[i].index_consistent());
        assert(b[i].index_consistent());
    }
}

/// The index that inserting `entries` in order into an empty map gives (a
/// later entry for the same id wins).
pub open spec fn map_of_entries(entries: Seq<(Seq<char>, usize)>) -> Map<Seq<char>, usize>
    decreases entries.len(),
{
    if entries.len() == 0 {
        Map::empty()
    } else {
        map_of_entries(entries.drop_last()).insert(entries.last().0, entries.last().1)
    }
}

/// The texts of a list of index entries.
pub open spec fn entries_view(entries: Seq<(String, usize)>) -> Seq<(Seq<char>, usize)> {
    entries.map_values(|e: (String, usize)| (e.0@, e.1))
}

} // verus!
