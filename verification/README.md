# erydian

The model of Erydian, a designer for relational database schemas, written in
Verus and verified.

- `src/model/` — the schema document and its tables, each an ordered list
  kept beside an index from id to position (`index.rs` states what the index
  holds and the laws of adding, finding and removing; `schema.rs` holds
  `SchemaDocument` and `Table`), and the column, attribute and column type
  data, and fresh ids made from random bytes (which may be missing, so a
  new table or column is an `Option`).
- `src/dialect/` — what MySQL and PostgreSQL declare: names, schema and
  table attributes, column data types, the primary key column of a new
  table; `laws.rs` holds what is proved of them together; the laws relating
  MySQL's charsets and collations stand in `mysql.rs`, built on the
  character-level facts of `mysql_names.rs`.
- `src/view.rs` — the decisions behind the editing views: what an attribute
  field shows and yields, and which table a press on the diagram lands on.
- `src/actions.rs`, `src/settings.rs` — the messages between views and the
  font sizes.
- `app/` — the application around the library: the GUI (gpui-kit), file and
  settings input/output, the JSON form of documents, and the diagram's
  floating-point geometry.
- `tests/` — tests of the library on concrete values.
