//! What holds of the dialects as a whole.
use vstd::prelude::*;

use crate::dialect::mysql::mysql_column_types;
use crate::dialect::{
    dialect_column_types, dialect_database_attributes, dialect_from_name, dialect_name,
    dialect_pk_column, dialect_table_attributes, DialectKind,
};
use crate::model::{AttrSpec, Column, ColumnTypeCategory, ColumnTypeParam};

verus! {

broadcast use vstd::string::axiom_str_literal_len, vstd::string::axiom_str_literal_get_char;

/// Looking a dialect up by its own name gives it back, and a name that
/// finds a dialect is that dialect's name.
pub proof fn law_name_round_trip(kind: DialectKind, name: Seq<char>)
    ensures
        dialect_from_name(dialect_name(kind)) == Some(kind),
        dialect_from_name(name) == Some(kind) ==> dialect_name(kind) == name,
{
    reveal_strlit("mysql");
    reveal_strlit("postgresql");
    assert("mysql"@.len() == 5);
    assert("postgresql"@.len() == 10);
    assert("mysql"@ != "postgresql"@);
}

/// The primary key column a dialect puts in a new table, when it has auto
/// increment, has a type that the dialect offers and that supports auto
/// increment.
pub proof fn law_default_pk_column_type_offered(kind: DialectKind, r: Option<Column>)
    requires
        dialect_pk_column(kind, r),
    ensures
        match r {
            Some(c) => c.auto_increment ==> exists|i: int|
                0 <= i < dialect_column_types(kind).len()
                    && #[trigger] dialect_column_types(kind)[i].0 == c.column_type.name@
                    && dialect_column_types(kind)[i].3,
            None => true,
        },
{
    if let Some(c) = r {
        if kind == DialectKind::MySql {
            let types = mysql_column_types();
            assert(types[3].0 == "INT"@ && types[3].3);
            assert(dialect_column_types(kind)[3].0 == c.column_type.name@);
        }
    }
}

/// Within a dialect, the attribute keys of a schema are distinct, and so are
/// those of a table.
pub proof fn law_attribute_keys_distinct(kind: DialectKind, s: Seq<AttrSpec>)
    ensures
        dialect_database_attributes(kind, s) ==> forall|i: int, j: int|
            0 <= i < j < s.len() ==> #[trigger] s[i].key@ != #[trigger] s[j].key@,
        dialect_table_attributes(kind, s) ==> forall|i: int, j: int|
            0 <= i < j < s.len() ==> #[trigger] s[i].key@ != #[trigger] s[j].key@,
{
    reveal_strlit("charset");
    reveal_strlit("collation");
    reveal_strlit("comment");
    assert("charset"@.len() == 7 && "collation"@.len() == 9 && "comment"@.len() == 7);
    assert("charset"@[1] == 'h' && "comment"@[1] == 'o');
    if dialect_table_attributes(kind, s) && kind == DialectKind::MySql {
        assert(s.take(2)[0] == s[0]);
        assert(s.take(2)[1] == s[1]);
    }
}

/// A MySQL column type declaration's position among the offered types,
/// found from its name (-1 for other names).
pub open spec fn mysql_type_rank(s: Seq<char>) -> int {
    if s == "TINYINT"@ {
        0
    } else if s == "SMALLINT"@ {
        1
    } else if s == "MEDIUMINT"@ {
        2
    } else if s == "INT"@ {
        3
    } else if s == "BIGINT"@ {
        4
    } else if s == "BOOL"@ {
        5
    } else if s == "DECIMAL"@ {
        6
    } else if s == "FLOAT"@ {
        7
    } else if s == "DOUBLE"@ {
        8
    } else if s == "REAL"@ {
        9
    } else if s == "BIT"@ {
        10
    } else if s == "DATE"@ {
        11
    } else if s == "DATETIME"@ {
        12
    } else if s == "TIMESTAMP"@ {
        13
    } else if s == "TIME"@ {
        14
    } else if s == "YEAR"@ {
        15
    } else if s == "CHAR"@ {
        16
    } else if s == "VARCHAR"@ {
        17
    } else if s == "BINARY"@ {
        18
    } else if s == "VARBINARY"@ {
        19
    } else if s == "TINYTEXT"@ {
        20
    } else if s == "TEXT"@ {
        21
    } else if s == "MEDIUMTEXT"@ {
        22
    } else if s == "LONGTEXT"@ {
        23
    } else if s == "TINYBLOB"@ {
        24
    } else if s == "BLOB"@ {
        25
    } else if s == "MEDIUMBLOB"@ {
        26
    } else if s == "LONGBLOB"@ {
        27
    } else if s == "ENUM"@ {
        28
    } else if s == "SET"@ {
        29
    } else if s == "JSON"@ {
        30
    } else if s == "GEOMETRY"@ {
        31
    } else if s == "POINT"@ {
        32
    } else if s == "LINESTRING"@ {
        33
    } else if s == "POLYGON"@ {
        34
    } else if s == "MULTIPOINT"@ {
        35
    } else if s == "MULTILINESTRING"@ {
        36
    } else if s == "MULTIPOLYGON"@ {
        37
    } else if s == "GEOMETRYCOLLECTION"@ {
        38
    } else if s == "GEOMCOLLECTION"@ {
        39
    } else {
        -1
    }
}

/// Within a dialect, the offered column data types have distinct names.
pub proof fn law_column_type_names_distinct(kind: DialectKind)
    ensures
        forall|i: int, j: int|
            0 <= i < j < dialect_column_types(kind).len() ==> #[trigger] dialect_column_types(kind)[i].0
                != #[trigger] dialect_column_types(kind)[j].0,
{
    if kind == DialectKind::MySql {
        mysql_type_facts();
        let t = mysql_column_types();
        assert forall|i: int, j: int| 0 <= i < j < t.len() implies #[trigger] t[i].0 != #[trigger] t[j].0 by {
            assert(mysql_type_rank(t[i].0) == i);
            assert(mysql_type_rank(t[j].0) == j);
        }
    }
}

/// What each offered MySQL type is, position by position: its name gives
/// back its position, and it supports auto increment exactly when it is an
/// integer type, which takes the `UNSIGNED` parameter.
#[verifier::rlimit(100)]
proof fn mysql_type_facts()
    ensures
        forall|i: int|
            #![trigger mysql_column_types()[i]]
            0 <= i < mysql_column_types().len() ==> {
                &&& mysql_type_rank(mysql_column_types()[i].0) == i
                &&& mysql_column_types()[i].1 == mysql_category_for(mysql_column_types()[i].0)
                &&& mysql_column_types()[i].2 == mysql_params_for(mysql_column_types()[i].0)
                &&& mysql_column_types()[i].3 == is_mysql_integer_name(mysql_column_types()[i].0)
                &&& is_mysql_type_name(mysql_column_types()[i].0)
                &&& mysql_column_types()[i].3 <==> (mysql_column_types()[i].1 == ColumnTypeCategory::Number
                    && mysql_column_types()[i].2.len() == 1
                    && mysql_column_types()[i].2[0] == ColumnTypeParam::Unsigned)
            },
{
    let t = mysql_column_types();
    reveal_strlit("TINYINT");
    reveal_strlit("SMALLINT");
    reveal_strlit("MEDIUMINT");
    reveal_strlit("INT");
    reveal_strlit("BIGINT");
    reveal_strlit("BOOL");
    reveal_strlit("DECIMAL");
    reveal_strlit("FLOAT");
    reveal_strlit("DOUBLE");
    reveal_strlit("REAL");
    reveal_strlit("BIT");
    reveal_strlit("DATE");
    reveal_strlit("DATETIME");
    reveal_strlit("TIMESTAMP");
    reveal_strlit("TIME");
    reveal_strlit("YEAR");
    reveal_strlit("CHAR");
    reveal_strlit("VARCHAR");
    reveal_strlit("BINARY");
    reveal_strlit("VARBINARY");
    reveal_strlit("TINYTEXT");
    reveal_strlit("TEXT");
    reveal_strlit("MEDIUMTEXT");
    reveal_strlit("LONGTEXT");
    reveal_strlit("TINYBLOB");
    reveal_strlit("BLOB");
    reveal_strlit("MEDIUMBLOB");
    reveal_strlit("LONGBLOB");
    reveal_strlit("ENUM");
    reveal_strlit("SET");
    reveal_strlit("JSON");
    reveal_strlit("GEOMETRY");
    reveal_strlit("POINT");
    reveal_strlit("LINESTRING");
    reveal_strlit("POLYGON");
    reveal_strlit("MULTIPOINT");
    reveal_strlit("MULTILINESTRING");
    reveal_strlit("MULTIPOLYGON");
    reveal_strlit("GEOMETRYCOLLECTION");
    reveal_strlit("GEOMCOLLECTION");
    assert("TINYINT"@.len() == 7 && "TINYINT"@[0] == 'T');
    assert("SMALLINT"@.len() == 8 && "SMALLINT"@[0] == 'S');
    assert("MEDIUMINT"@.len() == 9 && "MEDIUMINT"@[0] == 'M');
    assert("INT"@.len() == 3 && "INT"@[0] == 'I');
    assert("BIGINT"@.len() == 6 && "BIGINT"@[0] == 'B' && "BIGINT"@[2] == 'G');
    assert("BOOL"@.len() == 4 && "BOOL"@[0] == 'B' && "BOOL"@[1] == 'O');
    assert("DECIMAL"@.len() == 7 && "DECIMAL"@[0] == 'D');
    assert("FLOAT"@.len() == 5 && "FLOAT"@[0] == 'F');
    assert("DOUBLE"@.len() == 6 && "DOUBLE"@[0] == 'D');
    assert("REAL"@.len() == 4 && "REAL"@[0] == 'R');
    assert("BIT"@.len() == 3 && "BIT"@[0] == 'B');
    assert("DATE"@.len() == 4 && "DATE"@[0] == 'D');
    assert("DATETIME"@.len() == 8 && "DATETIME"@[0] == 'D');
    assert("TIMESTAMP"@.len() == 9 && "TIMESTAMP"@[0] == 'T');
    assert("TIME"@.len() == 4 && "TIME"@[0] == 'T' && "TIME"@[1] == 'I');
    assert("YEAR"@.len() == 4 && "YEAR"@[0] == 'Y');
    assert("CHAR"@.len() == 4 && "CHAR"@[0] == 'C');
    assert("VARCHAR"@.len() == 7 && "VARCHAR"@[0] == 'V');
    assert("BINARY"@.len() == 6 && "BINARY"@[0] == 'B' && "BINARY"@[2] == 'N');
    assert("VARBINARY"@.len() == 9 && "VARBINARY"@[0] == 'V');
    assert("TINYTEXT"@.len() == 8 && "TINYTEXT"@[0] == 'T' && "TINYTEXT"@[4] == 'T');
    assert("TEXT"@.len() == 4 && "TEXT"@[0] == 'T' && "TEXT"@[1] == 'E');
    assert("MEDIUMTEXT"@.len() == 10 && "MEDIUMTEXT"@[0] == 'M' && "MEDIUMTEXT"@[1] == 'E' && "MEDIUMTEXT"@[6] == 'T');
    assert("LONGTEXT"@.len() == 8 && "LONGTEXT"@[0] == 'L' && "LONGTEXT"@[4] == 'T');
    assert("TINYBLOB"@.len() == 8 && "TINYBLOB"@[0] == 'T' && "TINYBLOB"@[4] == 'B');
    assert("BLOB"@.len() == 4 && "BLOB"@[0] == 'B' && "BLOB"@[1] == 'L');
    assert("MEDIUMBLOB"@.len() == 10 && "MEDIUMBLOB"@[0] == 'M' && "MEDIUMBLOB"@[1] == 'E' && "MEDIUMBLOB"@[6] == 'B');
    assert("LONGBLOB"@.len() == 8 && "LONGBLOB"@[0] == 'L' && "LONGBLOB"@[4] == 'B');
    assert("ENUM"@.len() == 4 && "ENUM"@[0] == 'E');
    assert("SET"@.len() == 3 && "SET"@[0] == 'S');
    assert("JSON"@.len() == 4 && "JSON"@[0] == 'J');
    assert("GEOMETRY"@.len() == 8 && "GEOMETRY"@[0] == 'G');
    assert("POINT"@.len() == 5 && "POINT"@[0] == 'P');
    assert("LINESTRING"@.len() == 10 && "LINESTRING"@[0] == 'L');
    assert("POLYGON"@.len() == 7 && "POLYGON"@[0] == 'P');
    assert("MULTIPOINT"@.len() == 10 && "MULTIPOINT"@[0] == 'M' && "MULTIPOINT"@[1] == 'U');
    assert("MULTILINESTRING"@.len() == 15);
    assert("MULTIPOLYGON"@.len() == 12);
    assert("GEOMETRYCOLLECTION"@.len() == 18);
    assert("GEOMCOLLECTION"@.len() == 14);
    assert forall|i: int| 0 <= i < t.len() implies {
        &&& mysql_type_rank(#[trigger] t[i].0) == i
        &&& t[i].1 == mysql_category_for(t[i].0)
        &&& t[i].2 == mysql_params_for(t[i].0)
        &&& t[i].3 == is_mysql_integer_name(t[i].0)
        &&& is_mysql_type_name(t[i].0)
        &&& t[i].3 <==> (t[i].1 == ColumnTypeCategory::Number && t[i].2.len() == 1 && t[i].2[0]
            == ColumnTypeParam::Unsigned)
    } by {
        assert(
            i == 0 || i == 1 || i == 2 || i == 3 || i == 4 || i == 5 || i == 6 || i == 7
                || i == 8 || i == 9 || i == 10 || i == 11 || i == 12 || i == 13 || i == 14 || i == 15
                || i == 16 || i == 17 || i == 18 || i == 19 || i == 20 || i == 21 || i == 22 || i == 23
                || i == 24 || i == 25 || i == 26 || i == 27 || i == 28 || i == 29 || i == 30 || i == 31
                || i == 32 || i == 33 || i == 34 || i == 35 || i == 36 || i == 37 || i == 38 || i == 39
        );
    }
}

/// Whether `n` names one of MySQL's integer types.
pub open spec fn is_mysql_integer_name(n: Seq<char>) -> bool {
    n == "TINYINT"@ || n == "SMALLINT"@ || n == "MEDIUMINT"@ || n == "INT"@ || n == "BIGINT"@
}

/// The parameters MySQL lets a type named `n` be declared with: a length
/// for the character and byte strings and for `BIT` (`VARCHAR(255)`), the
/// list of values for `ENUM` and `SET` (`ENUM('a','b')`), precision and
/// scale for the fixed-point types (`DECIMAL(10,2)`), a precision for the
/// floating-point and time types with fractional seconds, `UNSIGNED` for
/// the integer types, and none for the others.
pub open spec fn mysql_params_for(n: Seq<char>) -> Seq<ColumnTypeParam> {
    if n == "CHAR"@ || n == "VARCHAR"@ || n == "BINARY"@ || n == "VARBINARY"@ || n == "BIT"@ {
        seq![ColumnTypeParam::Length]
    } else if n == "ENUM"@ || n == "SET"@ {
        seq![ColumnTypeParam::EnumValues]
    } else if n == "DECIMAL"@ || n == "REAL"@ {
        seq![ColumnTypeParam::Precision, ColumnTypeParam::Scale]
    } else if n == "FLOAT"@ || n == "DOUBLE"@ || n == "DATETIME"@ || n == "TIMESTAMP"@ || n == "TIME"@ {
        seq![ColumnTypeParam::Precision]
    } else if is_mysql_integer_name(n) {
        seq![ColumnTypeParam::Unsigned]
    } else {
        Seq::empty()
    }
}

/// The category MySQL files a type named `n` under: numbers (integers,
/// `BOOL`, fixed and floating point, `BIT`), dates and times, spatial
/// types, and strings for the rest.
pub open spec fn mysql_category_for(n: Seq<char>) -> ColumnTypeCategory {
    if is_mysql_integer_name(n) || n == "BOOL"@ || n == "DECIMAL"@ || n == "FLOAT"@ || n == "DOUBLE"@
        || n == "REAL"@ || n == "BIT"@ {
        ColumnTypeCategory::Number
    } else if n == "DATE"@ || n == "DATETIME"@ || n == "TIMESTAMP"@ || n == "TIME"@ || n == "YEAR"@ {
        ColumnTypeCategory::DateTime
    } else if n == "GEOMETRY"@ || n == "POINT"@ || n == "LINESTRING"@ || n == "POLYGON"@ || n
        == "MULTIPOINT"@ || n == "MULTILINESTRING"@ || n == "MULTIPOLYGON"@ || n == "GEOMETRYCOLLECTION"@
        || n == "GEOMCOLLECTION"@ {
        ColumnTypeCategory::Spatial
    } else {
        ColumnTypeCategory::String
    }
}

/// Whether `n` names a column type of MySQL: one with parameters or of a
/// category other than strings, or one of the text and blob types or `JSON`.
pub open spec fn is_mysql_type_name(n: Seq<char>) -> bool {
    ||| mysql_params_for(n).len() > 0
    ||| mysql_category_for(n) != ColumnTypeCategory::String
    ||| n == "TINYTEXT"@ || n == "TEXT"@ || n == "MEDIUMTEXT"@ || n == "LONGTEXT"@
    ||| n == "TINYBLOB"@ || n == "BLOB"@ || n == "MEDIUMBLOB"@ || n == "LONGBLOB"@
    ||| n == "JSON"@
}

/// Whether MySQL offers a column type named `n`.
pub open spec fn mysql_offers_type(n: Seq<char>) -> bool {
    exists|i: int| 0 <= i < mysql_column_types().len() && #[trigger] mysql_column_types()[i].0 == n
}

/// The MySQL column types offered are exactly MySQL's types: each takes
/// the parameters and has the category that MySQL gives a type of its name,
/// and supports auto increment exactly when it is an integer type; and every
/// type of MySQL is offered.
pub proof fn law_mysql_type_rules()
    ensures
        forall|i: int|
            0 <= i < mysql_column_types().len() ==> {
                let n = #[trigger] mysql_column_types()[i].0;
                &&& mysql_column_types()[i].1 == mysql_category_for(n)
                &&& mysql_column_types()[i].2 == mysql_params_for(n)
                &&& mysql_column_types()[i].3 == is_mysql_integer_name(n)
                &&& is_mysql_type_name(n)
            },
        forall|n: Seq<char>| is_mysql_type_name(n) ==> #[trigger] mysql_offers_type(n),
{
    mysql_type_facts();
    let t = mysql_column_types();
    assert forall|n: Seq<char>| is_mysql_type_name(n) implies #[trigger] mysql_offers_type(n) by {
        assert(t[0].0 == "TINYINT"@ && t[1].0 == "SMALLINT"@ && t[2].0 == "MEDIUMINT"@ && t[3].0 == "INT"@);
        assert(t[4].0 == "BIGINT"@ && t[5].0 == "BOOL"@ && t[6].0 == "DECIMAL"@ && t[7].0 == "FLOAT"@);
        assert(t[8].0 == "DOUBLE"@ && t[9].0 == "REAL"@ && t[10].0 == "BIT"@ && t[11].0 == "DATE"@);
        assert(t[12].0 == "DATETIME"@ && t[13].0 == "TIMESTAMP"@ && t[14].0 == "TIME"@ && t[15].0 == "YEAR"@);
        assert(t[16].0 == "CHAR"@ && t[17].0 == "VARCHAR"@ && t[18].0 == "BINARY"@ && t[19].0 == "VARBINARY"@);
        assert(t[20].0 == "TINYTEXT"@ && t[21].0 == "TEXT"@ && t[22].0 == "MEDIUMTEXT"@ && t[23].0 == "LONGTEXT"@);
        assert(t[24].0 == "TINYBLOB"@ && t[25].0 == "BLOB"@ && t[26].0 == "MEDIUMBLOB"@ && t[27].0 == "LONGBLOB"@);
        assert(t[28].0 == "ENUM"@ && t[29].0 == "SET"@);
        assert(t[30].0 == "JSON"@ && t[31].0 == "GEOMETRY"@ && t[32].0 == "POINT"@ && t[33].0 == "LINESTRING"@);
        assert(t[34].0 == "POLYGON"@ && t[35].0 == "MULTIPOINT"@ && t[36].0 == "MULTILINESTRING"@);
        assert(t[37].0 == "MULTIPOLYGON"@ && t[38].0 == "GEOMETRYCOLLECTION"@ && t[39].0 == "GEOMCOLLECTION"@);
    }
}

/// In MySQL exactly the integer types support auto increment; they are the
/// ones that take the `UNSIGNED` parameter.
pub proof fn law_mysql_auto_increment_only_integers()
    ensures
        forall|i: int|
            0 <= i < mysql_column_types().len() ==> (#[trigger] mysql_column_types()[i].3 <==> (
            mysql_column_types()[i].1 == ColumnTypeCategory::Number
                && mysql_column_types()[i].2.len() == 1
                && mysql_column_types()[i].2[0] == ColumnTypeParam::Unsigned)),
{
    mysql_type_facts();
}

} // verus!
