//! The data of a schema design: attributes, columns, column data types,
//! tables and the schema document.
use vstd::prelude::*;

use std::collections::BTreeMap;

pub mod index;
pub mod schema;

pub use schema::{NewSchemaError, SchemaDocument, Table};

use index::Identified;

verus! {

/// How an attribute is edited: free text (single or multiple lines, with an
/// optional default), a choice among options, or a yes/no switch.
#[derive(Debug, Clone, PartialEq, Eq)]
pub enum AttrKind {
    Text { default: Option<String>, multiple_line: bool },
    Select { options: Vec<String> },
    Bool,
}

/// The value an attribute holds.
#[derive(Debug, Clone)]
pub enum AttrValue {
    Text(Option<String>),
    Bool(bool),
}

/// What a dialect declares about one of its attributes.
#[derive(Debug, Clone)]
pub struct AttrSpec {
    pub key: &'static str,
    pub label: &'static str,
    pub kind: AttrKind,
    pub required: bool,
}

/// The texts of a list of strings.
pub open spec fn strings_view(v: Seq<String>) -> Seq<Seq<char>> {
    v.map_values(|x: String| x@)
}

/// The texts of a list of string slices.
pub open spec fn strs_view(v: Seq<&str>) -> Seq<Seq<char>> {
    v.map_values(|x: &str| x@)
}

/// The text of an optional string.
pub open spec fn opt_string_view(s: Option<String>) -> Option<Seq<char>> {
    match s {
        Some(x) => Some(x@),
        None => None,
    }
}

/// `a` declares a choice among `options` under `key` and `label`.
pub open spec fn is_select_attr(
    a: AttrSpec,
    key: Seq<char>,
    label: Seq<char>,
    options: Seq<Seq<char>>,
    required: bool,
) -> bool {
    &&& a.key@ == key
    &&& a.label@ == label
    &&& a.required == required
    &&& match a.kind {
        AttrKind::Select { options: o } => strings_view(o@) == options,
        _ => false,
    }
}

/// `a` declares a text under `key` and `label`, with the given default and
/// line mode.
pub open spec fn is_text_attr(
    a: AttrSpec,
    key: Seq<char>,
    label: Seq<char>,
    default: Option<Seq<char>>,
    multiple_line: bool,
    required: bool,
) -> bool {
    &&& a.key@ == key
    &&& a.label@ == label
    &&& a.required == required
    &&& match a.kind {
        AttrKind::Text { default: d, multiple_line: m } => opt_string_view(d) == default
            && m == multiple_line,
        _ => false,
    }
}

/// Categories of column data types, used to group them in a selection.
#[derive(Debug, Clone, Copy, PartialEq, Eq, Structural)]
pub enum ColumnTypeCategory {
    Number,
    String,
    DateTime,
    Spatial,
}

/// The label shown for a category.
pub open spec fn category_label(c: ColumnTypeCategory) -> Seq<char> {
    match c {
        ColumnTypeCategory::Number => "Number"@,
        ColumnTypeCategory::String => "String"@,
        ColumnTypeCategory::DateTime => "DateTime"@,
        ColumnTypeCategory::Spatial => "Spatial / GIS"@,
    }
}

impl ColumnTypeCategory {
    /// The label shown for this category.
    pub fn to_string(&self) -> (r: String)
        ensures
            r@ == category_label(*self),
    {
        match self {
            ColumnTypeCategory::Number => "Number".to_owned(),
            ColumnTypeCategory::String => "String".to_owned(),
            ColumnTypeCategory::DateTime => "DateTime".to_owned(),
            ColumnTypeCategory::Spatial => "Spatial / GIS".to_owned(),
        }
    }
}

/// Parameters a column data type can take.
#[derive(Debug, Clone, Copy, PartialEq, Eq, Structural)]
pub enum ColumnTypeParam {
    /// `VARCHAR(255)`, `BINARY(16)`
    Length,
    /// `DECIMAL(10, _)`
    Precision,
    /// `DECIMAL(_, 2)`
    Scale,
    /// `ENUM('a', 'b')`
    EnumValues,
    /// `INT UNSIGNED`
    Unsigned,
}

/// What a column type declaration says: its name, category, parameters, and
/// whether it supports auto increment.
pub type ColumnTypeView = (Seq<char>, ColumnTypeCategory, Seq<ColumnTypeParam>, bool);

/// A data type that a dialect offers for columns.
#[derive(Debug, Clone, Copy, PartialEq, Eq)]
pub struct ColumnTypeSpec {
    pub name: &'static str,
    pub category: ColumnTypeCategory,
    pub params: &'static [ColumnTypeParam],
    pub supports_auto_increment: bool,
}

/// What a column type declaration says.
pub open spec fn type_spec_view(s: ColumnTypeSpec) -> ColumnTypeView {
    (s.name@, s.category, s.params@, s.supports_auto_increment)
}

/// What a list of column type declarations says.
pub open spec fn type_specs_view(v: Seq<ColumnTypeSpec>) -> Seq<ColumnTypeView> {
    v.map_values(|s: ColumnTypeSpec| type_spec_view(s))
}

} // verus!

verus! {

/// Whether `c` is a lowercase hexadecimal digit.
pub open spec fn is_lower_hex_digit(c: char) -> bool {
    ('0' <= c && c <= '9') || ('a' <= c && c <= 'f')
}

/// Whether `s` is the hyphenated lowercase text of a random (version 4)
/// UUID, such as `67e55044-10b1-426f-9247-bb680e5fe0c8`.
pub open spec fn is_uuid_v4_text(s: Seq<char>) -> bool {
    &&& s.len() == 36
    &&& forall|i: int|
        0 <= i < 36 ==> if i == 8 || i == 13 || i == 18 || i == 23 {
            s[i] == '-'
        } else {
            is_lower_hex_digit(#[trigger] s[i])
        }
    &&& s[14] == '4'
    &&& (s[19] == '8' || s[19] == '9' || s[19] == 'a' || s[19] == 'b')
}

/// The lowercase hexadecimal digit of a nibble (a value below 16).
pub open spec fn lower_hex_char(n: u8) -> char {
    if n < 10 {
        (48 + n) as char
    } else {
        (87 + n) as char
    }
}

/// The `j`-th hexadecimal digit of `bytes` written out high nibble first.
pub open spec fn hex_nibble(bytes: Seq<u8>, j: int) -> u8 {
    if j % 2 == 0 {
        bytes[j / 2] >> 4
    } else {
        bytes[j / 2] & 0x0f
    }
}

/// The hyphenated lowercase text of a UUID's sixteen bytes: their 32
/// hexadecimal digits in groups of 8, 4, 4, 4 and 12, joined by `-`.
pub open spec fn hyphenated_uuid_text(bytes: Seq<u8>) -> Seq<char> {
    Seq::new(
        36,
        |p: int|
            if p == 8 || p == 13 || p == 18 || p == 23 {
                '-'
            } else {
                lower_hex_char(
                    hex_nibble(
                        bytes,
                        p - (if p < 8 {
                            0int
                        } else if p < 13 {
                            1int
                        } else if p < 18 {
                            2int
                        } else if p < 23 {
                            3int
                        } else {
                            4int
                        }),
                    ),
                )
            },
    )
}

/// Random bytes made into the bytes of a version 4 UUID: the high nibble of
/// byte 6 set to the version (4), the two high bits of byte 8 to the
/// RFC 4122 variant (`10`).
pub open spec fn v4_uuid_bytes(random: Seq<u8>) -> Seq<u8> {
    random.update(6, (random[6] & 0x0f) | 0x40).update(8, (random[8] & 0x3f) | 0x80)
}

/// Sixteen bytes from the operating system's source of randomness:
/// `getrandom::fill` on a 16-byte buffer, `None` when it reports an error.
/// Which bytes come out is left open: they are random.
#[verifier::external_body]
fn random_bytes() -> (r: Option<[u8; 16]>) {
    let mut bytes = [0u8; 16];
    match getrandom::fill(&mut bytes) {
        Ok(()) => Some(bytes),
        Err(_) => None,
    }
}

/// The text of the version 4 UUID made from `random`:
/// `uuid::Builder::from_random_bytes`, which sets the version and variant
/// bits (`with_version`, `with_variant`), then `to_string`, the uuid
/// crate's `Display`, which writes the hyphenated lowercase form.
#[verifier::external_body]
fn uuid_v4_text(random: [u8; 16]) -> (s: String)
    ensures
        s@ == hyphenated_uuid_text(v4_uuid_bytes(random@)),
{
    uuid::Builder::from_random_bytes(random).into_uuid().to_string()
}

/// The text of a version 4 UUID made from any sixteen bytes has the form of
/// such an id.
pub proof fn lemma_v4_text_form(random: Seq<u8>)
    requires
        random.len() == 16,
    ensures
        is_uuid_v4_text(hyphenated_uuid_text(v4_uuid_bytes(random))),
{
    let b = v4_uuid_bytes(random);
    let t = hyphenated_uuid_text(b);
    assert forall|j: int| 0 <= j < 32 implies #[trigger] hex_nibble(b, j) < 16 by {
        let x: u8 = b[j / 2];
        assert((x >> 4u8) < 16 && (x & 0x0f) < 16) by (bit_vector);
    }
    assert forall|i: int| 0 <= i < 36 && !(i == 8 || i == 13 || i == 18 || i == 23) implies is_lower_hex_digit(
        #[trigger] t[i],
    ) by {
        let j = i - (if i < 8 {
            0int
        } else if i < 13 {
            1int
        } else if i < 18 {
            2int
        } else if i < 23 {
            3int
        } else {
            4int
        });
        assert(0 <= j < 32);
        assert(hex_nibble(b, j) < 16);
    }
    let x6: u8 = random[6];
    let x8: u8 = random[8];
    assert((((x6 & 0x0f) | 0x40) >> 4u8) == 4) by (bit_vector);
    assert(8 <= (((x8 & 0x3f) | 0x80) >> 4u8) <= 11) by (bit_vector);
    assert(t[14] == lower_hex_char(hex_nibble(b, 12)));
    assert(t[19] == lower_hex_char(hex_nibble(b, 16)));
}

/// A fresh random id: the text of a version 4 UUID made from random bytes,
/// or `None` when the operating system gives no random bytes.
pub fn new_uuid_v4_text() -> (r: Option<String>)
    ensures
        r matches Some(s) ==> is_uuid_v4_text(s@),
{
    match random_bytes() {
        Some(bytes) => {
            let s = uuid_v4_text(bytes);
            proof {
                lemma_v4_text_form(bytes@);
            }
            Some(s)
        },
        None => None,
    }
}

/// The data type of a column, with its parameters.
#[derive(Debug, Clone)]
pub struct ColumnType {
    pub name: String,
    pub length: Option<u32>,
    pub precision: Option<u32>,
    pub scale: Option<u32>,
    pub unsigned: bool,
    pub values: Option<Vec<String>>,
}

impl ColumnType {
    /// The type a new column starts with: no name, no parameters.
    pub open spec fn is_default(&self) -> bool {
        &&& self.name@ == Seq::<char>::empty()
        &&& self.length is None
        &&& self.precision is None
        &&& self.scale is None
        &&& !self.unsigned
        &&& self.values is None
    }
}

impl Default for ColumnType {
    fn default() -> (r: Self)
        ensures
            r.is_default(),
    {
        ColumnType {
            name: String::new(),
            length: None,
            precision: None,
            scale: None,
            unsigned: false,
            values: None,
        }
    }
}

/// A column of a table.
#[derive(Debug, Clone)]
pub struct Column {
    pub id: String,
    pub name: String,
    pub column_type: ColumnType,
    pub nullable: bool,
    pub default_value: Option<String>,
    pub auto_increment: bool,
    pub comment: Option<String>,
    pub attrs: BTreeMap<String, AttrValue>,
}

impl Column {
    /// A column as `Column::new` makes it, but with the given id: nullable,
    /// no default value, no auto increment, no comment, no attributes.
    pub open spec fn is_fresh(&self, name: Seq<char>) -> bool {
        &&& self.name@ == name
        &&& self.column_type.is_default()
        &&& self.nullable
        &&& self.default_value is None
        &&& !self.auto_increment
        &&& self.comment is None
        &&& self.attrs@ == Map::<String, AttrValue>::empty()
    }

    /// A new column with the given id and name.
    pub fn new_with_id(id: String, name: String) -> (r: Column)
        ensures
            r.id@ == id@,
            r.is_fresh(name@),
    {
        Column {
            id,
            name,
            column_type: ColumnType::default(),
            nullable: true,
            default_value: None,
            auto_increment: false,
            comment: None,
            attrs: BTreeMap::new(),
        }
    }

    /// A new column with a fresh random id; `None` when the operating system
    /// gives no random bytes.
    pub fn new(name: String) -> (r: Option<Column>)
        ensures
            r matches Some(c) ==> is_uuid_v4_text(c.id@) && c.is_fresh(name@),
    {
        match new_uuid_v4_text() {
            Some(id) => Some(Column::new_with_id(id, name)),
            None => None,
        }
    }
}

impl Identified for Column {
    open spec fn id_view(&self) -> Seq<char> {
        self.id@
    }
}

/// A primary key of a table.
#[derive(Debug, Clone)]
pub struct PrimaryKey {}

/// A foreign key between tables.
#[derive(Debug, Clone)]
pub struct ForeignKey {}

/// An index of a table.
#[derive(Debug, Clone)]
pub struct Index {}

/// The rectangle of a table on the diagram. Its coordinates are `f32`
/// values held as their IEEE-754 bit patterns; this library only carries
/// them.
#[derive(Debug, Clone, Copy, PartialEq, Eq, Structural)]
pub struct GraphRect {
    pub left_bits: u32,
    pub top_bits: u32,
    pub width_bits: u32,
    pub height_bits: u32,
}

/// What the diagram keeps of a table.
#[derive(Debug, Clone, Copy, PartialEq, Eq, Structural)]
pub struct TableGraph {
    pub is_dirty: bool,
    pub selected: bool,
    pub rect: GraphRect,
}

} // verus!
