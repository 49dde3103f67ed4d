//! The PostgreSQL dialect.
use vstd::prelude::*;

use crate::dialect::Dialect;
use crate::model::{is_text_attr, AttrKind, AttrSpec};

verus! {

/// The schema attributes PostgreSQL declares: an owner, a single-line text
/// with no default, not required.
pub open spec fn postgresql_database_attributes(s: Seq<AttrSpec>) -> bool {
    &&& s.len() == 1
    &&& is_text_attr(s[0], "owner"@, "Owner"@, None, false, false)
}

/// The PostgreSQL dialect.
pub struct PostgreSqlDialect {}

impl Dialect for PostgreSqlDialect {
    fn name() -> (r: &'static str)
        ensures
            r@ == "postgresql"@,
    {
        "postgresql"
    }

    fn database_attributes() -> (r: Vec<AttrSpec>)
        ensures
            postgresql_database_attributes(r@),
    {
        vec![
            AttrSpec {
                key: "owner",
                label: "Owner",
                kind: AttrKind::Text { default: None, multiple_line: false },
                required: false,
            },
        ]
    }

    fn table_attributes() -> (r: Vec<AttrSpec>)
        ensures
            r@.len() == 0,
    {
        Vec::new()
    }
}

} // verus!
