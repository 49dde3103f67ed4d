//! Database dialects: what each database system offers for a schema design.
use vstd::prelude::*;

pub mod laws;
pub mod mysql;
mod mysql_names;
pub mod postgresql;

use crate::model::{is_uuid_v4_text, type_specs_view, AttrSpec, Column, ColumnTypeSpec, ColumnTypeView};
use crate::text::str_eq;
use mysql::{
    is_mysql_pk_column, mysql_column_types, mysql_database_attributes, mysql_table_attributes,
    MySqlDialect,
};
use postgresql::{postgresql_database_attributes, PostgreSqlDialect};

verus! {

/// What a database system declares about itself.
pub trait Dialect {
    /// The database name.
    fn name() -> &'static str;

    /// Additional schema attributes.
    fn database_attributes() -> (r: Vec<AttrSpec>)
        default_ensures
            r@.len() == 0,
    {
        Vec::new()
    }

    /// Additional table attributes.
    fn table_attributes() -> (r: Vec<AttrSpec>)
        default_ensures
            r@.len() == 0,
    {
        Vec::new()
    }

    /// Supported column data types.
    fn column_types() -> (r: Vec<ColumnTypeSpec>)
        default_ensures
            r@.len() == 0,
    {
        Vec::new()
    }

    /// The primary key column a new table starts with; `None` leaves it to
    /// the user to add one.
    fn default_pk_column() -> (r: Option<Column>)
        default_ensures
            r is None,
    {
        None
    }
}

/// The database systems a schema can be designed for.
#[derive(Debug, Clone, Copy, PartialEq, Eq, Structural)]
pub enum DialectKind {
    MySql,
    PostgreSql,
}

impl Default for DialectKind {
    fn default() -> (r: Self)
        ensures
            r == DialectKind::MySql,
    {
        DialectKind::MySql
    }
}

/// The name under which a dialect is stored and selected.
pub open spec fn dialect_name(kind: DialectKind) -> Seq<char> {
    match kind {
        DialectKind::MySql => "mysql"@,
        DialectKind::PostgreSql => "postgresql"@,
    }
}

/// The dialect stored under a name, if any.
pub open spec fn dialect_from_name(name: Seq<char>) -> Option<DialectKind> {
    if name == "mysql"@ {
        Some(DialectKind::MySql)
    } else if name == "postgresql"@ {
        Some(DialectKind::PostgreSql)
    } else {
        None
    }
}

/// The schema attributes a dialect declares.
pub open spec fn dialect_database_attributes(kind: DialectKind, s: Seq<AttrSpec>) -> bool {
    match kind {
        DialectKind::MySql => mysql_database_attributes(s),
        DialectKind::PostgreSql => postgresql_database_attributes(s),
    }
}

/// The table attributes a dialect declares.
pub open spec fn dialect_table_attributes(kind: DialectKind, s: Seq<AttrSpec>) -> bool {
    match kind {
        DialectKind::MySql => mysql_table_attributes(s),
        DialectKind::PostgreSql => s.len() == 0,
    }
}

/// The column data types a dialect offers.
pub open spec fn dialect_column_types(kind: DialectKind) -> Seq<ColumnTypeView> {
    match kind {
        DialectKind::MySql => mysql_column_types(),
        DialectKind::PostgreSql => Seq::empty(),
    }
}

/// The primary key column a dialect puts in a new table.
pub open spec fn dialect_pk_column(kind: DialectKind, r: Option<Column>) -> bool {
    match kind {
        DialectKind::MySql => match r {
            Some(c) => is_uuid_v4_text(c.id@) && is_mysql_pk_column(c),
            None => true,
        },
        DialectKind::PostgreSql => r is None,
    }
}

impl DialectKind {
    /// The dialect of a button in the dialect choice, by its position:
    /// MySQL first, then PostgreSQL.
    pub fn from_index(index: usize) -> (r: Option<Self>)
        ensures
            r == (if index == 0 {
                Some(DialectKind::MySql)
            } else if index == 1 {
                Some(DialectKind::PostgreSql)
            } else {
                None::<DialectKind>
            }),
    {
        match index {
            0 => Some(DialectKind::MySql),
            1 => Some(DialectKind::PostgreSql),
            _ => None,
        }
    }

    /// The path of the dialect's logo among the application's assets.
    pub fn icon_path(&self) -> (r: &'static str)
        ensures
            r@ == match *self {
                DialectKind::MySql => "icons/mysql-logo.svg"@,
                DialectKind::PostgreSql => "icons/postgresql-logo.svg"@,
            },
    {
        match self {
            DialectKind::MySql => "icons/mysql-logo.svg",
            DialectKind::PostgreSql => "icons/postgresql-logo.svg",
        }
    }

    /// Looks a dialect up by its stored name.
    pub fn from_name(name: &str) -> (r: Option<Self>)
        ensures
            r == dialect_from_name(name@),
    {
        if str_eq(name, "mysql") {
            Some(DialectKind::MySql)
        } else if str_eq(name, "postgresql") {
            Some(DialectKind::PostgreSql)
        } else {
            None
        }
    }

    /// The dialect's stored name.
    pub fn name(&self) -> (r: &'static str)
        ensures
            r@ == dialect_name(*self),
    {
        match self {
            DialectKind::MySql => MySqlDialect::name(),
            DialectKind::PostgreSql => PostgreSqlDialect::name(),
        }
    }

    /// The dialect's schema attributes.
    pub fn database_attributes(&self) -> (r: Vec<AttrSpec>)
        ensures
            dialect_database_attributes(*self, r@),
    {
        match self {
            DialectKind::MySql => MySqlDialect::database_attributes(),
            DialectKind::PostgreSql => PostgreSqlDialect::database_attributes(),
        }
    }

    /// The dialect's table attributes.
    pub fn table_attributes(&self) -> (r: Vec<AttrSpec>)
        ensures
            dialect_table_attributes(*self, r@),
    {
        match self {
            DialectKind::MySql => MySqlDialect::table_attributes(),
            DialectKind::PostgreSql => PostgreSqlDialect::table_attributes(),
        }
    }

    /// The column data types the dialect offers.
    pub fn column_types(&self) -> (r: Vec<ColumnTypeSpec>)
        ensures
            type_specs_view(r@) == dialect_column_types(*self),
    {
        match self {
            DialectKind::MySql => MySqlDialect::column_types(),
            DialectKind::PostgreSql => {
                let r = PostgreSqlDialect::column_types();
                assert(type_specs_view(r@) =~= Seq::<ColumnTypeView>::empty());
                r
            },
        }
    }

    /// The primary key column the dialect puts in a new table.
    pub fn default_pk_column(&self) -> (r: Option<Column>)
        ensures
            dialect_pk_column(*self, r),
    {
        match self {
            DialectKind::MySql => MySqlDialect::default_pk_column(),
            DialectKind::PostgreSql => PostgreSqlDialect::default_pk_column(),
        }
    }
}

} // verus!
