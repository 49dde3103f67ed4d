use erydian::dialect::mysql::MySqlDialect;
use erydian::dialect::postgresql::PostgreSqlDialect;
use erydian::dialect::{Dialect, DialectKind};
use erydian::model::{AttrKind, ColumnTypeCategory, ColumnTypeParam};

#[test]
fn from_name_finds_known_dialects() {
    assert_eq!(DialectKind::from_name("mysql"), Some(DialectKind::MySql));
    assert_eq!(DialectKind::from_name("postgresql"), Some(DialectKind::PostgreSql));
}

#[test]
fn from_name_refuses_other_names() {
    assert_eq!(DialectKind::from_name("MySQL"), None);
    assert_eq!(DialectKind::from_name(""), None);
    assert_eq!(DialectKind::from_name("mysql "), None);
    assert_eq!(DialectKind::from_name("sqlite"), None);
}

#[test]
fn name_round_trip() {
    for kind in [DialectKind::MySql, DialectKind::PostgreSql] {
        assert_eq!(DialectKind::from_name(kind.name()), Some(kind));
    }
    assert_eq!(DialectKind::MySql.name(), "mysql");
    assert_eq!(DialectKind::PostgreSql.name(), "postgresql");
    assert_eq!(MySqlDialect::name(), "mysql");
    assert_eq!(PostgreSqlDialect::name(), "postgresql");
}

#[test]
fn default_dialect_is_mysql() {
    assert_eq!(DialectKind::default(), DialectKind::MySql);
}

#[test]
fn from_index_and_icon_path() {
    assert_eq!(DialectKind::from_index(0), Some(DialectKind::MySql));
    assert_eq!(DialectKind::from_index(1), Some(DialectKind::PostgreSql));
    assert_eq!(DialectKind::from_index(2), None);
    assert_eq!(DialectKind::MySql.icon_path(), "icons/mysql-logo.svg");
    assert_eq!(DialectKind::PostgreSql.icon_path(), "icons/postgresql-logo.svg");
}

#[test]
fn mysql_charsets_and_collations() {
    let charsets = MySqlDialect::charsets();
    assert_eq!(charsets.len(), 41);
    assert_eq!(charsets[0], "armscii8");
    assert_eq!(charsets[40], "utf8mb4");
    let collations = MySqlDialect::collations();
    assert_eq!(collations.len(), 202);
    assert_eq!(collations[0], "armscii8_bin");
    assert_eq!(collations[201], "utf8mb4_unicode_520_ci");
    assert!(collations.contains(&"utf8mb4_0900_ai_ci"));
    let owned = MySqlDialect::charsets_owned();
    assert_eq!(owned.len(), charsets.len());
    for (a, b) in owned.iter().zip(charsets.iter()) {
        assert_eq!(a, b);
    }
    let owned = MySqlDialect::collations_owned();
    assert_eq!(owned.len(), collations.len());
    for (a, b) in owned.iter().zip(collations.iter()) {
        assert_eq!(a, b);
    }
}

#[test]
fn mysql_database_attributes() {
    let attrs = DialectKind::MySql.database_attributes();
    assert_eq!(attrs.len(), 2);
    assert_eq!(attrs[0].key, "charset");
    assert_eq!(attrs[0].label, "Character set");
    assert!(!attrs[0].required);
    match &attrs[0].kind {
        AttrKind::Select { options } => {
            assert_eq!(options.len(), 41);
            assert_eq!(options[0], "armscii8");
        }
        _ => panic!("charset should be a choice"),
    }
    assert_eq!(attrs[1].key, "collation");
    assert_eq!(attrs[1].label, "Collation");
    match &attrs[1].kind {
        AttrKind::Select { options } => assert_eq!(options.len(), 202),
        _ => panic!("collation should be a choice"),
    }
}

#[test]
fn mysql_table_attributes_extend_database_attributes() {
    let db = DialectKind::MySql.database_attributes();
    let table = DialectKind::MySql.table_attributes();
    assert_eq!(table.len(), db.len() + 1);
    for (a, b) in db.iter().zip(table.iter()) {
        assert_eq!(a.key, b.key);
        assert_eq!(a.label, b.label);
        assert_eq!(a.kind, b.kind);
    }
    assert_eq!(table[2].key, "comment");
    assert_eq!(table[2].label, "Comment");
    assert_eq!(table[2].kind, AttrKind::Text { default: None, multiple_line: true });
    assert!(!table[2].required);
}

#[test]
fn attribute_keys_distinct() {
    for kind in [DialectKind::MySql, DialectKind::PostgreSql] {
        for attrs in [kind.database_attributes(), kind.table_attributes()] {
            for i in 0..attrs.len() {
                for j in (i + 1)..attrs.len() {
                    assert_ne!(attrs[i].key, attrs[j].key);
                }
            }
        }
    }
}

#[test]
fn postgresql_attributes() {
    let attrs = DialectKind::PostgreSql.database_attributes();
    assert_eq!(attrs.len(), 1);
    assert_eq!(attrs[0].key, "owner");
    assert_eq!(attrs[0].label, "Owner");
    assert_eq!(attrs[0].kind, AttrKind::Text { default: None, multiple_line: false });
    assert!(!attrs[0].required);
    assert!(DialectKind::PostgreSql.table_attributes().is_empty());
}

#[test]
fn mysql_column_types() {
    let types = DialectKind::MySql.column_types();
    assert_eq!(types.len(), 40);
    assert_eq!(types[0].name, "TINYINT");
    assert_eq!(types[0].params, &[ColumnTypeParam::Unsigned]);
    assert!(types[0].supports_auto_increment);
    let decimal = types.iter().find(|t| t.name == "DECIMAL").unwrap();
    assert_eq!(decimal.category, ColumnTypeCategory::Number);
    assert_eq!(decimal.params, &[ColumnTypeParam::Precision, ColumnTypeParam::Scale]);
    assert!(!decimal.supports_auto_increment);
    let set = types.iter().find(|t| t.name == "SET").unwrap();
    assert_eq!(set.params, &[ColumnTypeParam::EnumValues]);
    assert_eq!(types[39].name, "GEOMCOLLECTION");
    assert_eq!(types[39].category, ColumnTypeCategory::Spatial);
}

#[test]
fn mysql_column_type_names_distinct() {
    let types = MySqlDialect::column_types();
    for i in 0..types.len() {
        for j in (i + 1)..types.len() {
            assert_ne!(types[i].name, types[j].name);
        }
    }
}

#[test]
fn mysql_auto_increment_only_integers() {
    let types = DialectKind::MySql.column_types();
    let auto: Vec<&str> = types.iter().filter(|t| t.supports_auto_increment).map(|t| t.name).collect();
    assert_eq!(auto, vec!["TINYINT", "SMALLINT", "MEDIUMINT", "INT", "BIGINT"]);
    for t in &types {
        assert_eq!(
            t.supports_auto_increment,
            t.category == ColumnTypeCategory::Number && t.params == [ColumnTypeParam::Unsigned]
        );
    }
}

#[test]
fn postgresql_has_no_column_types_or_pk() {
    assert!(DialectKind::PostgreSql.column_types().is_empty());
    assert!(DialectKind::PostgreSql.default_pk_column().is_none());
    assert!(PostgreSqlDialect::column_types().is_empty());
}

#[test]
fn mysql_default_pk_column() {
    let c = DialectKind::MySql.default_pk_column().unwrap();
    assert_eq!(c.name, "id");
    assert_eq!(c.column_type.name, "INT");
    assert_eq!(c.column_type.length, None);
    assert_eq!(c.column_type.precision, None);
    assert_eq!(c.column_type.scale, None);
    assert!(!c.column_type.unsigned);
    assert_eq!(c.column_type.values, None);
    assert!(c.auto_increment);
    assert!(!c.nullable);
    assert_eq!(c.default_value, None);
    assert_eq!(c.comment, None);
    assert!(c.attrs.is_empty());
    assert_eq!(c.id.len(), 36);
    let d = MySqlDialect::pk_column("k1".to_string());
    assert_eq!(d.id, "k1");
    assert_eq!(d.name, "id");
    assert_eq!(d.column_type.name, "INT");
    assert!(d.auto_increment);
    assert!(!d.nullable);
}

#[test]
fn default_pk_column_type_offered() {
    for kind in [DialectKind::MySql, DialectKind::PostgreSql] {
        if let Some(c) = kind.default_pk_column() {
            if c.auto_increment {
                let types = kind.column_types();
                assert!(types.iter().any(|t| t.name == c.column_type.name && t.supports_auto_increment));
            }
        }
    }
}

#[test]
fn category_labels() {
    assert_eq!(ColumnTypeCategory::Number.to_string(), "Number");
    assert_eq!(ColumnTypeCategory::String.to_string(), "String");
    assert_eq!(ColumnTypeCategory::DateTime.to_string(), "DateTime");
    assert_eq!(ColumnTypeCategory::Spatial.to_string(), "Spatial / GIS");
}

fn charset_position(collation: &str) -> Option<usize> {
    let charset = collation.split('_').next().unwrap();
    MySqlDialect::charsets().iter().position(|c| *c == charset)
}

#[test]
fn mysql_collations_belong_to_offered_charsets() {
    for c in MySqlDialect::collations() {
        assert!(charset_position(c).is_some(), "{c} names no offered charset");
    }
}

#[test]
fn mysql_every_charset_has_a_binary_collation() {
    let collations = MySqlDialect::collations();
    for cs in MySqlDialect::charsets() {
        let bin = if *cs == "binary" { "binary".to_string() } else { format!("{cs}_bin") };
        assert!(collations.contains(&bin.as_str()), "{cs} lacks {bin}");
    }
}

#[test]
fn mysql_collations_distinct_and_grouped_by_charset() {
    let c = MySqlDialect::collations();
    for i in 0..c.len() {
        for j in (i + 1)..c.len() {
            assert_ne!(c[i], c[j]);
            assert!(charset_position(c[i]) <= charset_position(c[j]), "{} after {}", c[i], c[j]);
        }
    }
}
