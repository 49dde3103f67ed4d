use std::collections::BTreeMap;

use erydian::dialect::DialectKind;
use erydian::model::schema::{NewSchemaError, SchemaDocument, Table};
use erydian::model::{AttrValue, Column, GraphRect, TableGraph};
use erydian::view::SelectedItem;

fn is_uuid_v4_text(s: &str) -> bool {
    let b: Vec<char> = s.chars().collect();
    b.len() == 36
        && b.iter().enumerate().all(|(i, c)| {
            if i == 8 || i == 13 || i == 18 || i == 23 {
                *c == '-'
            } else {
                c.is_ascii_digit() || ('a'..='f').contains(c)
            }
        })
        && b[14] == '4'
        && "89ab".contains(b[19])
}

fn graph() -> TableGraph {
    TableGraph {
        is_dirty: false,
        selected: false,
        rect: GraphRect { left_bits: 1, top_bits: 2, width_bits: 3, height_bits: 4 },
    }
}

fn ids(doc: &SchemaDocument) -> Vec<String> {
    doc.tables().iter().map(|t| t.id.clone()).collect()
}

#[test]
fn column_new_defaults() {
    let c = Column::new("email".to_string()).unwrap();
    assert!(is_uuid_v4_text(&c.id));
    assert_eq!(c.name, "email");
    assert_eq!(c.column_type.name, "");
    assert_eq!(c.column_type.length, None);
    assert!(c.nullable);
    assert!(!c.auto_increment);
    assert_eq!(c.default_value, None);
    assert_eq!(c.comment, None);
    assert!(c.attrs.is_empty());
    let d = Column::new_with_id("c1".to_string(), "age".to_string());
    assert_eq!(d.id, "c1");
    assert_eq!(d.name, "age");
}

#[test]
fn table_new_has_random_uuid_id() {
    let a = Table::new("users".to_string()).unwrap();
    let b = Table::new("users".to_string()).unwrap();
    assert!(is_uuid_v4_text(&a.id));
    assert!(is_uuid_v4_text(&b.id));
    assert_ne!(a.id, "users");
    assert_ne!(a.id, b.id);
    assert_eq!(a.name, "users");
    assert!(a.attrs.is_empty());
    assert!(a.graph.is_none());
    assert!(a.columns().is_empty());
}

#[test]
fn column_add_get_remove() {
    let mut t = Table::new_with_id("t".to_string(), "users".to_string());
    t.add_column(Column::new_with_id("a".to_string(), "id".to_string()));
    t.add_column(Column::new_with_id("b".to_string(), "name".to_string()));
    t.add_column(Column::new_with_id("c".to_string(), "email".to_string()));
    assert_eq!(t.get_column(&"b".to_string()).unwrap().name, "name");
    assert!(t.get_column(&"x".to_string()).is_none());
    assert_eq!(t.column_position("c"), Some(2));
    let removed = t.remove_column(&"a".to_string()).unwrap();
    assert_eq!(removed.name, "id");
    let names: Vec<&str> = t.columns().iter().map(|c| c.name.as_str()).collect();
    assert_eq!(names, vec!["name", "email"]);
    assert_eq!(t.column_position("b"), Some(0));
    assert_eq!(t.column_position("c"), Some(1));
    assert_eq!(t.column_position("a"), None);
    assert_eq!(t.get_column(&"c".to_string()).unwrap().name, "email");
    assert!(t.remove_column(&"a".to_string()).is_none());
}

#[test]
fn column_add_then_remove_restores() {
    let mut t = Table::new_with_id("t".to_string(), "users".to_string());
    t.add_column(Column::new_with_id("a".to_string(), "id".to_string()));
    t.add_column(Column::new_with_id("b".to_string(), "name".to_string()));
    let before: Vec<String> = t.columns().iter().map(|c| c.id.clone()).collect();
    t.add_column(Column::new_with_id("n".to_string(), "new".to_string()));
    assert_eq!(t.get_column(&"n".to_string()).unwrap().name, "new");
    let removed = t.remove_column(&"n".to_string()).unwrap();
    assert_eq!(removed.name, "new");
    let after: Vec<String> = t.columns().iter().map(|c| c.id.clone()).collect();
    assert_eq!(before, after);
    assert_eq!(t.column_position("a"), Some(0));
    assert_eq!(t.column_position("b"), Some(1));
}

#[test]
fn duplicate_column_ids_last_wins() {
    let mut t = Table::new_with_id("t".to_string(), "x".to_string());
    t.add_column(Column::new_with_id("a".to_string(), "first".to_string()));
    t.add_column(Column::new_with_id("a".to_string(), "second".to_string()));
    assert_eq!(t.get_column(&"a".to_string()).unwrap().name, "second");
    let removed = t.remove_column(&"a".to_string()).unwrap();
    assert_eq!(removed.name, "second");
    assert_eq!(t.get_column(&"a".to_string()).unwrap().name, "first");
}

#[test]
fn column_get_mut_edits_in_place() {
    let mut t = Table::new_with_id("t".to_string(), "x".to_string());
    t.add_column(Column::new_with_id("a".to_string(), "first".to_string()));
    t.get_column_mut(&"a".to_string()).unwrap().nullable = false;
    assert!(!t.get_column(&"a".to_string()).unwrap().nullable);
    assert!(t.get_column_mut(&"z".to_string()).is_none());
}

#[test]
fn column_index_rebuilt_after_edit() {
    let mut t = Table::new_with_id("t".to_string(), "x".to_string());
    t.add_column(Column::new_with_id("a".to_string(), "first".to_string()));
    t.columns_mut()[0].id = "z".to_string();
    assert_eq!(t.get_column(&"a".to_string()).unwrap().id, "z");
    assert!(t.get_column(&"z".to_string()).is_none());
    t.rebuild_index();
    assert!(t.get_column(&"a".to_string()).is_none());
    assert_eq!(t.get_column(&"z".to_string()).unwrap().name, "first");
}

#[test]
fn table_from_parts() {
    let cols = vec![
        Column::new_with_id("a".to_string(), "one".to_string()),
        Column::new_with_id("b".to_string(), "two".to_string()),
    ];
    let t = Table::from_parts(
        "t".to_string(),
        "x".to_string(),
        BTreeMap::new(),
        Some(graph()),
        cols,
        vec![],
        vec![],
        vec![("a".to_string(), 0), ("b".to_string(), 1), ("a".to_string(), 1)],
    );
    assert_eq!(t.get_column(&"a".to_string()).unwrap().name, "two");
    assert_eq!(t.graph, Some(graph()));
    let cols = vec![Column::new_with_id("a".to_string(), "one".to_string())];
    let mut kept = Table::from_parts(
        "t".to_string(),
        "x".to_string(),
        BTreeMap::new(),
        None,
        cols,
        vec![],
        vec![],
        vec![("a".to_string(), 1), ("b".to_string(), 0)],
    );
    assert_eq!(kept.name, "x");
    assert_eq!(kept.columns().len(), 1);
    assert_eq!(kept.column_position("a"), Some(1));
    assert_eq!(kept.get_column(&"b".to_string()).unwrap().name, "one");
    kept.rebuild_index();
    assert_eq!(kept.column_position("a"), Some(0));
    assert_eq!(kept.get_column(&"a".to_string()).unwrap().name, "one");
}

#[test]
fn schema_new_and_default() {
    let mut attrs = BTreeMap::new();
    attrs.insert("charset".to_string(), AttrValue::Text(Some("utf8mb4".to_string())));
    let doc = SchemaDocument::new(DialectKind::PostgreSql, "shop".to_string(), attrs);
    assert_eq!(doc.dialect, DialectKind::PostgreSql);
    assert_eq!(doc.name, "shop");
    assert!(matches!(doc.schema_attrs.get("charset"), Some(AttrValue::Text(Some(s))) if s == "utf8mb4"));
    assert!(doc.tables().is_empty());
    let d = SchemaDocument::default();
    assert_eq!(d.dialect, DialectKind::MySql);
    assert_eq!(d.name, "");
    assert!(d.schema_attrs.is_empty());
    assert!(d.tables().is_empty());
}

#[test]
fn schema_create_requires_name() {
    let r = SchemaDocument::create(DialectKind::MySql, String::new(), BTreeMap::new());
    assert!(matches!(r, Err(NewSchemaError::NameRequired)));
    let r = SchemaDocument::create(DialectKind::MySql, " ".to_string(), BTreeMap::new());
    assert_eq!(r.unwrap().name, " ");
    let r = SchemaDocument::create(DialectKind::MySql, "shop".to_string(), BTreeMap::new()).unwrap();
    assert_eq!(r.name, "shop");
    assert!(r.tables().is_empty());
}

#[test]
fn table_add_then_get() {
    let mut doc = SchemaDocument::new(DialectKind::MySql, "s".to_string(), BTreeMap::new());
    let t = Table::new("users".to_string()).unwrap();
    let id = t.id.clone();
    doc.add_table(t);
    assert_eq!(doc.get_table(&id).unwrap().name, "users");
    assert!(doc.get_table("missing").is_none());
}

#[test]
fn table_add_then_remove_restores() {
    let mut doc = SchemaDocument::new(DialectKind::MySql, "s".to_string(), BTreeMap::new());
    doc.add_table(Table::new_with_id("a".to_string(), "users".to_string()));
    doc.add_table(Table::new_with_id("b".to_string(), "posts".to_string()));
    let before = ids(&doc);
    doc.add_table(Table::new_with_id("n".to_string(), "new".to_string()));
    let removed = doc.remove_table("n").unwrap();
    assert_eq!(removed.name, "new");
    assert_eq!(ids(&doc), before);
    assert_eq!(doc.get_table("a").unwrap().name, "users");
    assert_eq!(doc.get_table("b").unwrap().name, "posts");
}

#[test]
fn table_remove_middle_reindexes() {
    let mut doc = SchemaDocument::new(DialectKind::MySql, "s".to_string(), BTreeMap::new());
    for (id, name) in [("a", "users"), ("b", "posts"), ("c", "comments")] {
        doc.add_table(Table::new_with_id(id.to_string(), name.to_string()));
    }
    assert_eq!(doc.remove_table("b").unwrap().name, "posts");
    assert_eq!(ids(&doc), vec!["a".to_string(), "c".to_string()]);
    assert_eq!(doc.get_table("c").unwrap().name, "comments");
    assert!(doc.get_table("b").is_none());
    assert!(doc.remove_table("b").is_none());
    assert_eq!(doc.tables().len(), 2);
}

#[test]
fn duplicate_table_ids_last_wins() {
    let mut doc = SchemaDocument::new(DialectKind::MySql, "s".to_string(), BTreeMap::new());
    doc.add_table(Table::new_with_id("a".to_string(), "first".to_string()));
    doc.add_table(Table::new_with_id("a".to_string(), "second".to_string()));
    assert_eq!(doc.get_table("a").unwrap().name, "second");
    assert_eq!(doc.remove_table("a").unwrap().name, "second");
    assert_eq!(doc.get_table("a").unwrap().name, "first");
}

#[test]
fn from_parts_needs_rebuild_to_find_tables() {
    let tables = vec![
        Table::new_with_id("a".to_string(), "users".to_string()),
        Table::new_with_id("b".to_string(), "posts".to_string()),
    ];
    let mut doc = SchemaDocument::from_parts(DialectKind::MySql, "s".to_string(), BTreeMap::new(), tables);
    assert_eq!(doc.tables().len(), 2);
    assert!(doc.get_table("a").is_none());
    assert!(doc.remove_table("a").is_none());
    doc.rebuild_index();
    assert_eq!(doc.get_table("a").unwrap().name, "users");
    assert_eq!(doc.get_table("b").unwrap().name, "posts");
}

#[test]
fn rebuild_index_rebuilds_columns_too() {
    let mut t = Table::new_with_id("a".to_string(), "users".to_string());
    t.add_column(Column::new_with_id("c".to_string(), "id".to_string()));
    let mut doc = SchemaDocument::new(DialectKind::MySql, "s".to_string(), BTreeMap::new());
    doc.add_table(t);
    doc.tables_mut()[0].columns_mut()[0].id = "d".to_string();
    doc.rebuild_index();
    let t = doc.get_table("a").unwrap();
    assert!(t.get_column(&"c".to_string()).is_none());
    assert_eq!(t.get_column(&"d".to_string()).unwrap().name, "id");
}

#[test]
fn get_table_mut_edits_in_place() {
    let mut doc = SchemaDocument::new(DialectKind::MySql, "s".to_string(), BTreeMap::new());
    doc.add_table(Table::new_with_id("a".to_string(), "users".to_string()));
    doc.get_table_mut("a").unwrap().name = "people".to_string();
    assert_eq!(doc.get_table("a").unwrap().name, "people");
    assert!(doc.get_table_mut("zz").is_none());
}

#[test]
fn update_table_name_marks_graph_dirty() {
    let mut doc = SchemaDocument::new(DialectKind::MySql, "s".to_string(), BTreeMap::new());
    let mut t = Table::new_with_id("a".to_string(), "users".to_string());
    t.graph = Some(graph());
    doc.add_table(t);
    doc.add_table(Table::new_with_id("b".to_string(), "posts".to_string()));
    doc.update_table_name("a", "users");
    assert!(!doc.get_table("a").unwrap().graph.unwrap().is_dirty);
    doc.update_table_name("a", "people");
    let t = doc.get_table("a").unwrap();
    assert_eq!(t.name, "people");
    assert!(t.graph.unwrap().is_dirty);
    assert_eq!(t.graph.unwrap().rect, graph().rect);
    doc.update_table_name("b", "articles");
    let t = doc.get_table("b").unwrap();
    assert_eq!(t.name, "articles");
    assert!(t.graph.is_none());
    doc.update_table_name("zz", "none");
    assert_eq!(doc.tables().len(), 2);
}

#[test]
fn selected_table_name_shows_selection() {
    let mut doc = SchemaDocument::new(DialectKind::MySql, "s".to_string(), BTreeMap::new());
    doc.add_table(Table::new_with_id("a".to_string(), "users".to_string()));
    assert_eq!(doc.selected_table_name(&Some(SelectedItem::Table("a".to_string()))), "users");
    assert_eq!(doc.selected_table_name(&Some(SelectedItem::Table("b".to_string()))), "");
    assert_eq!(doc.selected_table_name(&Some(SelectedItem::Relationship("a".to_string()))), "");
    assert_eq!(doc.selected_table_name(&None), "");
}

fn stored_table(id: &str, name: &str, cols: &[(&str, &str)]) -> Table {
    Table::from_parts(
        id.to_string(),
        name.to_string(),
        BTreeMap::new(),
        None,
        cols.iter().map(|(i, n)| Column::new_with_id(i.to_string(), n.to_string())).collect(),
        vec![],
        vec![],
        vec![],
    )
}

#[test]
fn rebuild_finds_every_table_and_column() {
    let tables = vec![
        stored_table("t1", "users", &[("c1", "id"), ("c2", "email")]),
        stored_table("t2", "posts", &[("c3", "id"), ("c4", "title"), ("c5", "body")]),
    ];
    let mut doc = SchemaDocument::from_parts(DialectKind::MySql, "s".to_string(), BTreeMap::new(), tables);
    assert!(doc.get_table("t1").is_none());
    doc.rebuild_index();
    for (tid, tname, cols) in [
        ("t1", "users", vec![("c1", "id"), ("c2", "email")]),
        ("t2", "posts", vec![("c3", "id"), ("c4", "title"), ("c5", "body")]),
    ] {
        let t = doc.get_table(tid).unwrap();
        assert_eq!(t.name, tname);
        assert_eq!(t.columns().len(), cols.len());
        for (k, (cid, cname)) in cols.iter().enumerate() {
            assert_eq!(t.columns()[k].id, *cid);
            assert_eq!(t.get_column(&cid.to_string()).unwrap().name, *cname);
        }
    }
}

#[test]
fn rebuild_twice_changes_nothing() {
    let tables = vec![
        stored_table("t1", "users", &[("c1", "id")]),
        stored_table("t2", "posts", &[("c2", "id"), ("c3", "title")]),
    ];
    let mut doc = SchemaDocument::from_parts(DialectKind::MySql, "s".to_string(), BTreeMap::new(), tables);
    doc.rebuild_index();
    let before: Vec<(String, Vec<(String, Option<usize>)>)> = doc
        .tables()
        .iter()
        .map(|t| (t.id.clone(), t.columns().iter().map(|c| (c.id.clone(), t.column_position(&c.id))).collect()))
        .collect();
    doc.rebuild_index();
    let after: Vec<(String, Vec<(String, Option<usize>)>)> = doc
        .tables()
        .iter()
        .map(|t| (t.id.clone(), t.columns().iter().map(|c| (c.id.clone(), t.column_position(&c.id))).collect()))
        .collect();
    assert_eq!(before, after);
    assert_eq!(doc.get_table("t2").unwrap().name, "posts");
}

#[test]
fn views_read_the_fields() {
    let t = Table::new_with_id("t1".to_string(), "users".to_string());
    assert_eq!(t.id(), "t1");
    assert_eq!(t.name(), "users");
    assert!(t.attrs().is_empty());
    assert_eq!(t.graph(), &None);
    let d = SchemaDocument::new(DialectKind::PostgreSql, "shop".to_string(), BTreeMap::new());
    assert_eq!(d.dialect(), DialectKind::PostgreSql);
    assert_eq!(d.name(), "shop");
    assert!(d.attrs().is_empty());
}
