//! The MySQL dialect.
use vstd::prelude::*;

use crate::dialect::mysql_names::{
    charset_fact, collation_charset_index, collation_fact, lemma_charset_index_nondecreasing,
    lemma_increasing_names, lemma_no_underscore, lemma_same_prefix, mysql_name_facts, starts_with_charset,
    no_underscore,
};
use crate::dialect::Dialect;
use crate::model::{
    is_select_attr, is_text_attr, is_uuid_v4_text, new_uuid_v4_text, strings_view, strs_view, type_specs_view,
    AttrKind, AttrSpec, Column, ColumnType, ColumnTypeCategory, ColumnTypeParam,
    ColumnTypeParam::{EnumValues, Length, Precision, Scale, Unsigned}, ColumnTypeSpec,
    ColumnTypeView,
};

verus! {

/// The character sets MySQL offers.
pub open spec fn mysql_charsets() -> Seq<Seq<char>> {
    seq![
        "armscii8"@,
        "ascii"@,
        "big5"@,
        "binary"@,
        "cp1250"@,
        "cp1251"@,
        "cp1256"@,
        "cp1257"@,
        "cp850"@,
        "cp852"@,
        "cp866"@,
        "cp932"@,
        "dec8"@,
        "eucjpms"@,
        "euckr"@,
        "gb18030"@,
        "gb2312"@,
        "gbk"@,
        "geostd8"@,
        "greek"@,
        "hebrew"@,
        "hp8"@,
        "keybcs2"@,
        "koi8r"@,
        "koi8u"@,
        "latin1"@,
        "latin2"@,
        "latin5"@,
        "latin7"@,
        "macce"@,
        "macroman"@,
        "sjis"@,
        "swe7"@,
        "tis620"@,
        "ucs2"@,
        "ujis"@,
        "utf16"@,
        "utf16le"@,
        "utf32"@,
        "utf8mb3"@,
        "utf8mb4"@,
    ]
}

/// The collations MySQL offers.
pub open spec fn mysql_collations() -> Seq<Seq<char>> {
    seq![
        "armscii8_bin"@,
        "armscii8_general_ci"@,
        "ascii_bin"@,
        "ascii_general_ci"@,
        "big5_bin"@,
        "big5_chinese_ci"@,
        "binary"@,
        "cp1250_bin"@,
        "cp1250_croatian_ci"@,
        "cp1250_czech_cs"@,
        "cp1250_general_ci"@,
        "cp1250_polish_ci"@,
        "cp1251_bin"@,
        "cp1251_bulgarian_ci"@,
        "cp1251_general_ci"@,
        "cp1251_general_cs"@,
        "cp1251_ukrainian_ci"@,
        "cp1256_bin"@,
        "cp1256_general_ci"@,
        "cp1257_bin"@,
        "cp1257_general_ci"@,
        "cp1257_lithuanian_ci"@,
        "cp850_bin"@,
        "cp850_general_ci"@,
        "cp852_bin"@,
        "cp852_general_ci"@,
        "cp866_bin"@,
        "cp866_general_ci"@,
        "cp932_bin"@,
        "cp932_japanese_ci"@,
        "dec8_bin"@,
        "dec8_swedish_ci"@,
        "eucjpms_bin"@,
        "eucjpms_japanese_ci"@,
        "euckr_bin"@,
        "euckr_korean_ci"@,
        "gb18030_bin"@,
        "gb18030_chinese_ci"@,
        "gb18030_unicode_520_ci"@,
        "gb2312_bin"@,
        "gb2312_chinese_ci"@,
        "gbk_bin"@,
        "gbk_chinese_ci"@,
        "geostd8_bin"@,
        "geostd8_general_ci"@,
        "greek_bin"@,
        "greek_general_ci"@,
        "hebrew_bin"@,
        "hebrew_general_ci"@,
        "hp8_bin"@,
        "hp8_english_ci"@,
        "keybcs2_bin"@,
        "keybcs2_general_ci"@,
        "koi8r_bin"@,
        "koi8r_general_ci"@,
        "koi8u_bin"@,
        "koi8u_general_ci"@,
        "latin1_bin"@,
        "latin1_danish_ci"@,
        "latin1_general_ci"@,
        "latin1_general_cs"@,
        "latin1_german1_ci"@,
        "latin1_german2_ci"@,
        "latin1_spanish_ci"@,
        "latin1_swedish_ci"@,
        "latin2_bin"@,
        "latin2_croatian_ci"@,
        "latin2_czech_cs"@,
        "latin2_general_ci"@,
        "latin2_hungarian_ci"@,
        "latin5_bin"@,
        "latin5_turkish_ci"@,
        "latin7_bin"@,
        "latin7_estonian_cs"@,
        "latin7_general_ci"@,
        "latin7_general_cs"@,
        "macce_bin"@,
        "macce_general_ci"@,
        "macroman_bin"@,
        "macroman_general_ci"@,
        "sjis_bin"@,
        "sjis_japanese_ci"@,
        "swe7_bin"@,
        "swe7_swedish_ci"@,
        "tis620_bin"@,
        "tis620_thai_ci"@,
        "ucs2_bin"@,
        "ucs2_croatian_ci"@,
        "ucs2_czech_ci"@,
        "ucs2_danish_ci"@,
        "ucs2_esperanto_ci"@,
        "ucs2_estonian_ci"@,
        "ucs2_general_ci"@,
        "ucs2_german2_ci"@,
        "ucs2_hungarian_ci"@,
        "ucs2_icelandic_ci"@,
        "ucs2_latvian_ci"@,
        "ucs2_lithuanian_ci"@,
        "ucs2_persian_ci"@,
        "ucs2_polish_ci"@,
        "ucs2_roman_ci"@,
        "ucs2_romanian_ci"@,
        "ucs2_sinhala_ci"@,
        "ucs2_slovak_ci"@,
        "ucs2_slovenian_ci"@,
        "ucs2_spanish2_ci"@,
        "ucs2_spanish_ci"@,
        "ucs2_swedish_ci"@,
        "ucs2_turkish_ci"@,
        "ucs2_unicode_ci"@,
        "ucs2_unicode_520_ci"@,
        "ucs2_vietnamese_ci"@,
        "ujis_bin"@,
        "ujis_japanese_ci"@,
        "utf16_bin"@,
        "utf16_croatian_ci"@,
        "utf16_czech_ci"@,
        "utf16_danish_ci"@,
        "utf16_esperanto_ci"@,
        "utf16_estonian_ci"@,
        "utf16_general_ci"@,
        "utf16_german2_ci"@,
        "utf16_hungarian_ci"@,
        "utf16_icelandic_ci"@,
        "utf16_latvian_ci"@,
        "utf16_lithuanian_ci"@,
        "utf16_persian_ci"@,
        "utf16_polish_ci"@,
        "utf16_roman_ci"@,
        "utf16_romanian_ci"@,
        "utf16_sinhala_ci"@,
        "utf16_slovak_ci"@,
        "utf16_slovenian_ci"@,
        "utf16_spanish2_ci"@,
        "utf16_spanish_ci"@,
        "utf16_swedish_ci"@,
        "utf16_turkish_ci"@,
        "utf16_unicode_ci"@,
        "utf16_unicode_520_ci"@,
        "utf16_vietnamese_ci"@,
        "utf16le_bin"@,
        "utf16le_general_ci"@,
        "utf32_bin"@,
        "utf32_croatian_ci"@,
        "utf32_czech_ci"@,
        "utf32_danish_ci"@,
        "utf32_esperanto_ci"@,
        "utf32_estonian_ci"@,
        "utf32_general_ci"@,
        "utf32_german2_ci"@,
        "utf32_hungarian_ci"@,
        "utf32_icelandic_ci"@,
        "utf32_latvian_ci"@,
        "utf32_lithuanian_ci"@,
        "utf32_persian_ci"@,
        "utf32_polish_ci"@,
        "utf32_roman_ci"@,
        "utf32_romanian_ci"@,
        "utf32_sinhala_ci"@,
        "utf32_slovak_ci"@,
        "utf32_slovenian_ci"@,
        "utf32_spanish2_ci"@,
        "utf32_spanish_ci"@,
        "utf32_swedish_ci"@,
        "utf32_turkish_ci"@,
        "utf32_unicode_ci"@,
        "utf32_unicode_520_ci"@,
        "utf32_vietnamese_ci"@,
        "utf8mb3_bin"@,
        "utf8mb3_croatian_ci"@,
        "utf8mb3_czech_ci"@,
        "utf8mb3_danish_ci"@,
        "utf8mb3_esperanto_ci"@,
        "utf8mb3_estonian_ci"@,
        "utf8mb3_general_ci"@,
        "utf8mb3_german2_ci"@,
        "utf8mb3_hungarian_ci"@,
        "utf8mb3_icelandic_ci"@,
        "utf8mb3_latvian_ci"@,
        "utf8mb3_lithuanian_ci"@,
        "utf8mb3_persian_ci"@,
        "utf8mb3_polish_ci"@,
        "utf8mb3_roman_ci"@,
        "utf8mb3_romanian_ci"@,
        "utf8mb3_sinhala_ci"@,
        "utf8mb3_slovak_ci"@,
        "utf8mb3_slovenian_ci"@,
        "utf8mb3_spanish2_ci"@,
        "utf8mb3_spanish_ci"@,
        "utf8mb3_swedish_ci"@,
        "utf8mb3_turkish_ci"@,
        "utf8mb3_unicode_ci"@,
        "utf8mb3_unicode_520_ci"@,
        "utf8mb3_vietnamese_ci"@,
        "utf8mb4_0900_ai_ci"@,
        "utf8mb4_0900_as_ci"@,
        "utf8mb4_0900_as_cs"@,
        "utf8mb4_0900_bin"@,
        "utf8mb4_bin"@,
        "utf8mb4_general_ci"@,
        "utf8mb4_unicode_ci"@,
        "utf8mb4_unicode_520_ci"@,
    ]
}

/// The column data types MySQL offers, in the order they are listed. Only
/// the integer types support auto increment.
pub open spec fn mysql_column_types() -> Seq<ColumnTypeView> {
    seq![
        ("TINYINT"@, ColumnTypeCategory::Number, seq![ColumnTypeParam::Unsigned], true),
        ("SMALLINT"@, ColumnTypeCategory::Number, seq![ColumnTypeParam::Unsigned], true),
        ("MEDIUMINT"@, ColumnTypeCategory::Number, seq![ColumnTypeParam::Unsigned], true),
        ("INT"@, ColumnTypeCategory::Number, seq![ColumnTypeParam::Unsigned], true),
        ("BIGINT"@, ColumnTypeCategory::Number, seq![ColumnTypeParam::Unsigned], true),
        ("BOOL"@, ColumnTypeCategory::Number, Seq::<ColumnTypeParam>::empty(), false),
        ("DECIMAL"@, ColumnTypeCategory::Number, seq![ColumnTypeParam::Precision, ColumnTypeParam::Scale], false),
        ("FLOAT"@, ColumnTypeCategory::Number, seq![ColumnTypeParam::Precision], false),
        ("DOUBLE"@, ColumnTypeCategory::Number, seq![ColumnTypeParam::Precision], false),
        ("REAL"@, ColumnTypeCategory::Number, seq![ColumnTypeParam::Precision, ColumnTypeParam::Scale], false),
        ("BIT"@, ColumnTypeCategory::Number, seq![ColumnTypeParam::Length], false),
        ("DATE"@, ColumnTypeCategory::DateTime, Seq::<ColumnTypeParam>::empty(), false),
        ("DATETIME"@, ColumnTypeCategory::DateTime, seq![ColumnTypeParam::Precision], false),
        ("TIMESTAMP"@, ColumnTypeCategory::DateTime, seq![ColumnTypeParam::Precision], false),
        ("TIME"@, ColumnTypeCategory::DateTime, seq![ColumnTypeParam::Precision], false),
        ("YEAR"@, ColumnTypeCategory::DateTime, Seq::<ColumnTypeParam>::empty(), false),
        ("CHAR"@, ColumnTypeCategory::String, seq![ColumnTypeParam::Length], false),
        ("VARCHAR"@, ColumnTypeCategory::String, seq![ColumnTypeParam::Length], false),
        ("BINARY"@, ColumnTypeCategory::String, seq![ColumnTypeParam::Length], false),
        ("VARBINARY"@, ColumnTypeCategory::String, seq![ColumnTypeParam::Length], false),
        ("TINYTEXT"@, ColumnTypeCategory::String, Seq::<ColumnTypeParam>::empty(), false),
        ("TEXT"@, ColumnTypeCategory::String, Seq::<ColumnTypeParam>::empty(), false),
        ("MEDIUMTEXT"@, ColumnTypeCategory::String, Seq::<ColumnTypeParam>::empty(), false),
        ("LONGTEXT"@, ColumnTypeCategory::String, Seq::<ColumnTypeParam>::empty(), false),
        ("TINYBLOB"@, ColumnTypeCategory::String, Seq::<ColumnTypeParam>::empty(), false),
        ("BLOB"@, ColumnTypeCategory::String, Seq::<ColumnTypeParam>::empty(), false),
        ("MEDIUMBLOB"@, ColumnTypeCategory::String, Seq::<ColumnTypeParam>::empty(), false),
        ("LONGBLOB"@, ColumnTypeCategory::String, Seq::<ColumnTypeParam>::empty(), false),
        ("ENUM"@, ColumnTypeCategory::String, seq![ColumnTypeParam::EnumValues], false),
        ("SET"@, ColumnTypeCategory::String, seq![ColumnTypeParam::EnumValues], false),
        ("JSON"@, ColumnTypeCategory::String, Seq::<ColumnTypeParam>::empty(), false),
        ("GEOMETRY"@, ColumnTypeCategory::Spatial, Seq::<ColumnTypeParam>::empty(), false),
        ("POINT"@, ColumnTypeCategory::Spatial, Seq::<ColumnTypeParam>::empty(), false),
        ("LINESTRING"@, ColumnTypeCategory::Spatial, Seq::<ColumnTypeParam>::empty(), false),
        ("POLYGON"@, ColumnTypeCategory::Spatial, Seq::<ColumnTypeParam>::empty(), false),
        ("MULTIPOINT"@, ColumnTypeCategory::Spatial, Seq::<ColumnTypeParam>::empty(), false),
        ("MULTILINESTRING"@, ColumnTypeCategory::Spatial, Seq::<ColumnTypeParam>::empty(), false),
        ("MULTIPOLYGON"@, ColumnTypeCategory::Spatial, Seq::<ColumnTypeParam>::empty(), false),
        ("GEOMETRYCOLLECTION"@, ColumnTypeCategory::Spatial, Seq::<ColumnTypeParam>::empty(), false),
        ("GEOMCOLLECTION"@, ColumnTypeCategory::Spatial, Seq::<ColumnTypeParam>::empty(), false),
    ]
}

/// The schema attributes MySQL declares: a character set and a collation,
/// each a choice among the values MySQL offers, neither required.
pub open spec fn mysql_database_attributes(s: Seq<AttrSpec>) -> bool {
    &&& s.len() == 2
    &&& is_select_attr(s[0], "charset"@, "Character set"@, mysql_charsets(), false)
    &&& is_select_attr(s[1], "collation"@, "Collation"@, mysql_collations(), false)
}

/// The table attributes MySQL declares: those of a schema, then a comment
/// written on several lines, with no default and not required.
pub open spec fn mysql_table_attributes(s: Seq<AttrSpec>) -> bool {
    &&& s.len() == 3
    &&& mysql_database_attributes(s.take(2))
    &&& is_text_attr(s[2], "comment"@, "Comment"@, None, true, false)
}

/// The primary key column MySQL puts in a new table: a column named `id` of
/// type `INT` (no parameters, signed), not null, with auto increment; the
/// rest as a new column has it.
pub open spec fn is_mysql_pk_column(c: Column) -> bool {
    &&& c.name@ == "id"@
    &&& c.column_type.name@ == "INT"@
    &&& c.column_type.length is None
    &&& c.column_type.precision is None
    &&& c.column_type.scale is None
    &&& !c.column_type.unsigned
    &&& c.column_type.values is None
    &&& !c.nullable
    &&& c.default_value is None
    &&& c.auto_increment
    &&& c.comment is None
    &&& c.attrs@ == Map::<String, crate::model::AttrValue>::empty()
}

/// MySQL's collations of the offered charsets, grouped by charset in the
/// order of the charsets, each given as its charset and the rest of its name
/// (empty for the collation `binary`). Among them are the defaults MySQL
/// ships, such as `utf8mb4_0900_ai_ci`, `utf8mb4_general_ci`,
/// `utf8mb4_unicode_ci` and `utf8mb4_bin` for `utf8mb4`.
pub open spec fn mysql_collation_parts() -> Seq<(Seq<char>, Seq<char>)> {
    seq![
        ("armscii8"@, "_bin"@),
        ("armscii8"@, "_general_ci"@),
        ("ascii"@, "_bin"@),
        ("ascii"@, "_general_ci"@),
        ("big5"@, "_bin"@),
        ("big5"@, "_chinese_ci"@),
        ("binary"@, ""@),
        ("cp1250"@, "_bin"@),
        ("cp1250"@, "_croatian_ci"@),
        ("cp1250"@, "_czech_cs"@),
        ("cp1250"@, "_general_ci"@),
        ("cp1250"@, "_polish_ci"@),
        ("cp1251"@, "_bin"@),
        ("cp1251"@, "_bulgarian_ci"@),
        ("cp1251"@, "_general_ci"@),
        ("cp1251"@, "_general_cs"@),
        ("cp1251"@, "_ukrainian_ci"@),
        ("cp1256"@, "_bin"@),
        ("cp1256"@, "_general_ci"@),
        ("cp1257"@, "_bin"@),
        ("cp1257"@, "_general_ci"@),
        ("cp1257"@, "_lithuanian_ci"@),
        ("cp850"@, "_bin"@),
        ("cp850"@, "_general_ci"@),
        ("cp852"@, "_bin"@),
        ("cp852"@, "_general_ci"@),
        ("cp866"@, "_bin"@),
        ("cp866"@, "_general_ci"@),
        ("cp932"@, "_bin"@),
        ("cp932"@, "_japanese_ci"@),
        ("dec8"@, "_bin"@),
        ("dec8"@, "_swedish_ci"@),
        ("eucjpms"@, "_bin"@),
        ("eucjpms"@, "_japanese_ci"@),
        ("euckr"@, "_bin"@),
        ("euckr"@, "_korean_ci"@),
        ("gb18030"@, "_bin"@),
        ("gb18030"@, "_chinese_ci"@),
        ("gb18030"@, "_unicode_520_ci"@),
        ("gb2312"@, "_bin"@),
        ("gb2312"@, "_chinese_ci"@),
        ("gbk"@, "_bin"@),
        ("gbk"@, "_chinese_ci"@),
        ("geostd8"@, "_bin"@),
        ("geostd8"@, "_general_ci"@),
        ("greek"@, "_bin"@),
        ("greek"@, "_general_ci"@),
        ("hebrew"@, "_bin"@),
        ("hebrew"@, "_general_ci"@),
        ("hp8"@, "_bin"@),
        ("hp8"@, "_english_ci"@),
        ("keybcs2"@, "_bin"@),
        ("keybcs2"@, "_general_ci"@),
        ("koi8r"@, "_bin"@),
        ("koi8r"@, "_general_ci"@),
        ("koi8u"@, "_bin"@),
        ("koi8u"@, "_general_ci"@),
        ("latin1"@, "_bin"@),
        ("latin1"@, "_danish_ci"@),
        ("latin1"@, "_general_ci"@),
        ("latin1"@, "_general_cs"@),
        ("latin1"@, "_german1_ci"@),
        ("latin1"@, "_german2_ci"@),
        ("latin1"@, "_spanish_ci"@),
        ("latin1"@, "_swedish_ci"@),
        ("latin2"@, "_bin"@),
        ("latin2"@, "_croatian_ci"@),
        ("latin2"@, "_czech_cs"@),
        ("latin2"@, "_general_ci"@),
        ("latin2"@, "_hungarian_ci"@),
        ("latin5"@, "_bin"@),
        ("latin5"@, "_turkish_ci"@),
        ("latin7"@, "_bin"@),
        ("latin7"@, "_estonian_cs"@),
        ("latin7"@, "_general_ci"@),
        ("latin7"@, "_general_cs"@),
        ("macce"@, "_bin"@),
        ("macce"@, "_general_ci"@),
        ("macroman"@, "_bin"@),
        ("macroman"@, "_general_ci"@),
        ("sjis"@, "_bin"@),
        ("sjis"@, "_japanese_ci"@),
        ("swe7"@, "_bin"@),
        ("swe7"@, "_swedish_ci"@),
        ("tis620"@, "_bin"@),
        ("tis620"@, "_thai_ci"@),
        ("ucs2"@, "_bin"@),
        ("ucs2"@, "_croatian_ci"@),
        ("ucs2"@, "_czech_ci"@),
        ("ucs2"@, "_danish_ci"@),
        ("ucs2"@, "_esperanto_ci"@),
        ("ucs2"@, "_estonian_ci"@),
        ("ucs2"@, "_general_ci"@),
        ("ucs2"@, "_german2_ci"@),
        ("ucs2"@, "_hungarian_ci"@),
        ("ucs2"@, "_icelandic_ci"@),
        ("ucs2"@, "_latvian_ci"@),
        ("ucs2"@, "_lithuanian_ci"@),
        ("ucs2"@, "_persian_ci"@),
        ("ucs2"@, "_polish_ci"@),
        ("ucs2"@, "_roman_ci"@),
        ("ucs2"@, "_romanian_ci"@),
        ("ucs2"@, "_sinhala_ci"@),
        ("ucs2"@, "_slovak_ci"@),
        ("ucs2"@, "_slovenian_ci"@),
        ("ucs2"@, "_spanish2_ci"@),
        ("ucs2"@, "_spanish_ci"@),
        ("ucs2"@, "_swedish_ci"@),
        ("ucs2"@, "_turkish_ci"@),
        ("ucs2"@, "_unicode_ci"@),
        ("ucs2"@, "_unicode_520_ci"@),
        ("ucs2"@, "_vietnamese_ci"@),
        ("ujis"@, "_bin"@),
        ("ujis"@, "_japanese_ci"@),
        ("utf16"@, "_bin"@),
        ("utf16"@, "_croatian_ci"@),
        ("utf16"@, "_czech_ci"@),
        ("utf16"@, "_danish_ci"@),
        ("utf16"@, "_esperanto_ci"@),
        ("utf16"@, "_estonian_ci"@),
        ("utf16"@, "_general_ci"@),
        ("utf16"@, "_german2_ci"@),
        ("utf16"@, "_hungarian_ci"@),
        ("utf16"@, "_icelandic_ci"@),
        ("utf16"@, "_latvian_ci"@),
        ("utf16"@, "_lithuanian_ci"@),
        ("utf16"@, "_persian_ci"@),
        ("utf16"@, "_polish_ci"@),
        ("utf16"@, "_roman_ci"@),
        ("utf16"@, "_romanian_ci"@),
        ("utf16"@, "_sinhala_ci"@),
        ("utf16"@, "_slovak_ci"@),
        ("utf16"@, "_slovenian_ci"@),
        ("utf16"@, "_spanish2_ci"@),
        ("utf16"@, "_spanish_ci"@),
        ("utf16"@, "_swedish_ci"@),
        ("utf16"@, "_turkish_ci"@),
        ("utf16"@, "_unicode_ci"@),
        ("utf16"@, "_unicode_520_ci"@),
        ("utf16"@, "_vietnamese_ci"@),
        ("utf16le"@, "_bin"@),
        ("utf16le"@, "_general_ci"@),
        ("utf32"@, "_bin"@),
        ("utf32"@, "_croatian_ci"@),
        ("utf32"@, "_czech_ci"@),
        ("utf32"@, "_danish_ci"@),
        ("utf32"@, "_esperanto_ci"@),
        ("utf32"@, "_estonian_ci"@),
        ("utf32"@, "_general_ci"@),
        ("utf32"@, "_german2_ci"@),
        ("utf32"@, "_hungarian_ci"@),
        ("utf32"@, "_icelandic_ci"@),
        ("utf32"@, "_latvian_ci"@),
        ("utf32"@, "_lithuanian_ci"@),
        ("utf32"@, "_persian_ci"@),
        ("utf32"@, "_polish_ci"@),
        ("utf32"@, "_roman_ci"@),
        ("utf32"@, "_romanian_ci"@),
        ("utf32"@, "_sinhala_ci"@),
        ("utf32"@, "_slovak_ci"@),
        ("utf32"@, "_slovenian_ci"@),
        ("utf32"@, "_spanish2_ci"@),
        ("utf32"@, "_spanish_ci"@),
        ("utf32"@, "_swedish_ci"@),
        ("utf32"@, "_turkish_ci"@),
        ("utf32"@, "_unicode_ci"@),
        ("utf32"@, "_unicode_520_ci"@),
        ("utf32"@, "_vietnamese_ci"@),
        ("utf8mb3"@, "_bin"@),
        ("utf8mb3"@, "_croatian_ci"@),
        ("utf8mb3"@, "_czech_ci"@),
        ("utf8mb3"@, "_danish_ci"@),
        ("utf8mb3"@, "_esperanto_ci"@),
        ("utf8mb3"@, "_estonian_ci"@),
        ("utf8mb3"@, "_general_ci"@),
        ("utf8mb3"@, "_german2_ci"@),
        ("utf8mb3"@, "_hungarian_ci"@),
        ("utf8mb3"@, "_icelandic_ci"@),
        ("utf8mb3"@, "_latvian_ci"@),
        ("utf8mb3"@, "_lithuanian_ci"@),
        ("utf8mb3"@, "_persian_ci"@),
        ("utf8mb3"@, "_polish_ci"@),
        ("utf8mb3"@, "_roman_ci"@),
        ("utf8mb3"@, "_romanian_ci"@),
        ("utf8mb3"@, "_sinhala_ci"@),
        ("utf8mb3"@, "_slovak_ci"@),
        ("utf8mb3"@, "_slovenian_ci"@),
        ("utf8mb3"@, "_spanish2_ci"@),
        ("utf8mb3"@, "_spanish_ci"@),
        ("utf8mb3"@, "_swedish_ci"@),
        ("utf8mb3"@, "_turkish_ci"@),
        ("utf8mb3"@, "_unicode_ci"@),
        ("utf8mb3"@, "_unicode_520_ci"@),
        ("utf8mb3"@, "_vietnamese_ci"@),
        ("utf8mb4"@, "_0900_ai_ci"@),
        ("utf8mb4"@, "_0900_as_ci"@),
        ("utf8mb4"@, "_0900_as_cs"@),
        ("utf8mb4"@, "_0900_bin"@),
        ("utf8mb4"@, "_bin"@),
        ("utf8mb4"@, "_general_ci"@),
        ("utf8mb4"@, "_unicode_ci"@),
        ("utf8mb4"@, "_unicode_520_ci"@),
    ]
}

/// Position `i` of `c` holds its first `_`.
pub open spec fn is_first_underscore(c: Seq<char>, i: int) -> bool {
    &&& 0 <= i < c.len()
    &&& c[i] == '_'
    &&& forall|j: int| 0 <= j < i ==> c[j] != '_'
}

/// The part of a collation name before its first `_` (the whole name when
/// it has none): the charset the collation belongs to.
pub open spec fn charset_part(c: Seq<char>) -> Seq<char> {
    if exists|i: int| is_first_underscore(c, i) {
        c.take(choose|i: int| is_first_underscore(c, i))
    } else {
        c
    }
}

/// The binary collation of a charset: `binary` for the charset `binary`,
/// the charset's name followed by `_bin` for the others.
pub open spec fn binary_collation_of(charset: Seq<char>) -> Seq<char> {
    if charset == "binary"@ {
        charset
    } else {
        charset + "_bin"@
    }
}

/// A name that starts with a charset name holding no `_`, followed by `_`
/// or nothing, belongs to that charset.
proof fn lemma_charset_part(c: Seq<char>, p: Seq<char>)
    requires
        starts_with_charset(c, p),
        no_underscore(p, p.len()),
    ensures
        charset_part(c) == p,
{
    lemma_same_prefix(c, p, p.len());
    lemma_no_underscore(p, p.len());
    let n = p.len() as int;
    if c.len() == p.len() {
        assert forall|i: int| !is_first_underscore(c, i) by {
            if 0 <= i < c.len() {
                assert(c[i] == p[i]);
            }
        }
        assert(c =~= p);
    } else {
        assert(is_first_underscore(c, n));
        let i = choose|i: int| is_first_underscore(c, i);
        assert(i == n) by {
            if i < n {
                assert(c[i] == p[i]);
            }
        }
        assert(c.take(n) =~= p);
    }
}

/// The collations offered are exactly MySQL's collations of the offered
/// charsets, in the order of `mysql_collation_parts`: each is the name of
/// an offered charset followed by the rest that MySQL gives it.
pub proof fn law_collations_are_mysqls()
    ensures
        mysql_collations().len() == mysql_collation_parts().len(),
        forall|i: int|
            0 <= i < mysql_collations().len() ==> #[trigger] mysql_collations()[i] == mysql_collation_parts()[i].0
                + mysql_collation_parts()[i].1,
        forall|i: int|
            0 <= i < mysql_collation_parts().len() ==> mysql_charsets().contains(
                (#[trigger] mysql_collation_parts()[i]).0,
            ),
{
    mysql_name_facts();
    let c = mysql_collations();
    let cs = mysql_charsets();
    let p = mysql_collation_parts();
    assert forall|i: int| 0 <= i < c.len() implies #[trigger] c[i] == p[i].0 + p[i].1 by {
        assert(collation_fact(i));
        lemma_same_prefix(c[i], p[i].0 + p[i].1, c[i].len());
        assert(c[i] =~= p[i].0 + p[i].1);
    }
    assert forall|i: int| 0 <= i < p.len() implies cs.contains((#[trigger] p[i]).0) by {
        assert(collation_fact(i));
        let k = collation_charset_index()[i];
        assert(cs[k] == p[i].0);
    }
}

/// Every collation MySQL offers belongs to a charset that it offers.
pub proof fn law_collations_belong_to_offered_charsets()
    ensures
        forall|i: int|
            0 <= i < mysql_collations().len() ==> mysql_charsets().contains(
                charset_part(#[trigger] mysql_collations()[i]),
            ),
{
    mysql_name_facts();
    let c = mysql_collations();
    let cs = mysql_charsets();
    assert forall|i: int| 0 <= i < c.len() implies cs.contains(charset_part(#[trigger] c[i])) by {
        assert(collation_fact(i));
        let k = collation_charset_index()[i];
        assert(charset_fact(k));
        lemma_charset_part(c[i], cs[k]);
    }
}

/// Every charset MySQL offers has its binary collation among the offered
/// collations.
pub proof fn law_every_charset_has_binary_collation()
    ensures
        forall|k: int|
            0 <= k < mysql_charsets().len() ==> mysql_collations().contains(
                binary_collation_of(#[trigger] mysql_charsets()[k]),
            ),
{
    mysql_name_facts();
    let c = mysql_collations();
    let cs = mysql_charsets();
    assert forall|k: int| 0 <= k < cs.len() implies c.contains(binary_collation_of(#[trigger] cs[k])) by {
        assert(charset_fact(k));
        let p = crate::dialect::mysql_names::binary_collation_position()[k];
        let b = binary_collation_of(cs[k]);
        lemma_same_prefix(c[p], b, b.len());
        assert(c[p] =~= b);
    }
}

/// The collations MySQL offers hold no name twice, nor do its charsets;
/// the collations come grouped by charset, in the order of the charsets.
pub proof fn law_collations_distinct_and_grouped()
    ensures
        mysql_collations().no_duplicates(),
        mysql_charsets().no_duplicates(),
        forall|i: int, j: int|
            0 <= i < j < mysql_collations().len() ==> mysql_charsets().index_of(
                charset_part(#[trigger] mysql_collations()[i]),
            ) <= mysql_charsets().index_of(charset_part(#[trigger] mysql_collations()[j])),
{
    mysql_name_facts();
    let c = mysql_collations();
    let cs = mysql_charsets();
    assert forall|k: int| 0 <= k < c.len() - 1 implies crate::dialect::mysql_names::name_lt(
        #[trigger] c[k],
        c[k + 1],
        0,
    ) by {
        assert(collation_fact(k));
    }
    lemma_increasing_names(c);
    assert forall|k: int| 0 <= k < cs.len() - 1 implies crate::dialect::mysql_names::name_lt(
        #[trigger] cs[k],
        cs[k + 1],
        0,
    ) by {
        assert(charset_fact(k));
    }
    lemma_increasing_names(cs);
    assert forall|i: int| 0 <= i < c.len() implies cs.index_of(charset_part(#[trigger] c[i]))
        == collation_charset_index()[i] by {
        assert(collation_fact(i));
        let k = collation_charset_index()[i];
        assert(charset_fact(k));
        lemma_charset_part(c[i], cs[k]);
        let x = cs.index_of(cs[k]);
        assert(0 <= x < cs.len() && cs[x] == cs[k]);
    }
    assert forall|i: int, j: int| 0 <= i < j < c.len() implies cs.index_of(charset_part(#[trigger] c[i]))
        <= cs.index_of(charset_part(#[trigger] c[j])) by {
        lemma_charset_index_nondecreasing(i, j);
    }
}

/// The MySQL dialect.
pub struct MySqlDialect {}

impl MySqlDialect {
    /// The character sets MySQL offers.
    pub fn charsets() -> (r: &'static [&'static str])
        ensures
            strs_view(r@) == mysql_charsets(),
    {
        let r: &'static [&'static str] = &[
            "armscii8",
            "ascii",
            "big5",
            "binary",
            "cp1250",
            "cp1251",
            "cp1256",
            "cp1257",
            "cp850",
            "cp852",
            "cp866",
            "cp932",
            "dec8",
            "eucjpms",
            "euckr",
            "gb18030",
            "gb2312",
            "gbk",
            "geostd8",
            "greek",
            "hebrew",
            "hp8",
            "keybcs2",
            "koi8r",
            "koi8u",
            "latin1",
            "latin2",
            "latin5",
            "latin7",
            "macce",
            "macroman",
            "sjis",
            "swe7",
            "tis620",
            "ucs2",
            "ujis",
            "utf16",
            "utf16le",
            "utf32",
            "utf8mb3",
            "utf8mb4",
        ];
        assert(strs_view(r@) =~= mysql_charsets());
        r
    }

    /// The character sets MySQL offers, as owned strings.
    pub fn charsets_owned() -> (r: Vec<String>)
        ensures
            strings_view(r@) == mysql_charsets(),
    {
        owned_strings(Self::charsets())
    }

    /// The collations MySQL offers.
    #[verifier::rlimit(50)]
    pub fn collations() -> (r: &'static [&'static str])
        ensures
            strs_view(r@) == mysql_collations(),
    {
        let r: &'static [&'static str] = &[
            "armscii8_bin",
            "armscii8_general_ci",
            "ascii_bin",
            "ascii_general_ci",
            "big5_bin",
            "big5_chinese_ci",
            "binary",
            "cp1250_bin",
            "cp1250_croatian_ci",
            "cp1250_czech_cs",
            "cp1250_general_ci",
            "cp1250_polish_ci",
            "cp1251_bin",
            "cp1251_bulgarian_ci",
            "cp1251_general_ci",
            "cp1251_general_cs",
            "cp1251_ukrainian_ci",
            "cp1256_bin",
            "cp1256_general_ci",
            "cp1257_bin",
            "cp1257_general_ci",
            "cp1257_lithuanian_ci",
            "cp850_bin",
            "cp850_general_ci",
            "cp852_bin",
            "cp852_general_ci",
            "cp866_bin",
            "cp866_general_ci",
            "cp932_bin",
            "cp932_japanese_ci",
            "dec8_bin",
            "dec8_swedish_ci",
            "eucjpms_bin",
            "eucjpms_japanese_ci",
            "euckr_bin",
            "euckr_korean_ci",
            "gb18030_bin",
            "gb18030_chinese_ci",
            "gb18030_unicode_520_ci",
            "gb2312_bin",
            "gb2312_chinese_ci",
            "gbk_bin",
            "gbk_chinese_ci",
            "geostd8_bin",
            "geostd8_general_ci",
            "greek_bin",
            "greek_general_ci",
            "hebrew_bin",
            "hebrew_general_ci",
            "hp8_bin",
            "hp8_english_ci",
            "keybcs2_bin",
            "keybcs2_general_ci",
            "koi8r_bin",
            "koi8r_general_ci",
            "koi8u_bin",
            "koi8u_general_ci",
            "latin1_bin",
            "latin1_danish_ci",
            "latin1_general_ci",
            "latin1_general_cs",
            "latin1_german1_ci",
            "latin1_german2_ci",
            "latin1_spanish_ci",
            "latin1_swedish_ci",
            "latin2_bin",
            "latin2_croatian_ci",
            "latin2_czech_cs",
            "latin2_general_ci",
            "latin2_hungarian_ci",
            "latin5_bin",
            "latin5_turkish_ci",
            "latin7_bin",
            "latin7_estonian_cs",
            "latin7_general_ci",
            "latin7_general_cs",
            "macce_bin",
            "macce_general_ci",
            "macroman_bin",
            "macroman_general_ci",
            "sjis_bin",
            "sjis_japanese_ci",
            "swe7_bin",
            "swe7_swedish_ci",
            "tis620_bin",
            "tis620_thai_ci",
            "ucs2_bin",
            "ucs2_croatian_ci",
            "ucs2_czech_ci",
            "ucs2_danish_ci",
            "ucs2_esperanto_ci",
            "ucs2_estonian_ci",
            "ucs2_general_ci",
            "ucs2_german2_ci",
            "ucs2_hungarian_ci",
            "ucs2_icelandic_ci",
            "ucs2_latvian_ci",
            "ucs2_lithuanian_ci",
            "ucs2_persian_ci",
            "ucs2_polish_ci",
            "ucs2_roman_ci",
            "ucs2_romanian_ci",
            "ucs2_sinhala_ci",
            "ucs2_slovak_ci",
            "ucs2_slovenian_ci",
            "ucs2_spanish2_ci",
            "ucs2_spanish_ci",
            "ucs2_swedish_ci",
            "ucs2_turkish_ci",
            "ucs2_unicode_ci",
            "ucs2_unicode_520_ci",
            "ucs2_vietnamese_ci",
            "ujis_bin",
            "ujis_japanese_ci",
            "utf16_bin",
            "utf16_croatian_ci",
            "utf16_czech_ci",
            "utf16_danish_ci",
            "utf16_esperanto_ci",
            "utf16_estonian_ci",
            "utf16_general_ci",
            "utf16_german2_ci",
            "utf16_hungarian_ci",
            "utf16_icelandic_ci",
            "utf16_latvian_ci",
            "utf16_lithuanian_ci",
            "utf16_persian_ci",
            "utf16_polish_ci",
            "utf16_roman_ci",
            "utf16_romanian_ci",
            "utf16_sinhala_ci",
            "utf16_slovak_ci",
            "utf16_slovenian_ci",
            "utf16_spanish2_ci",
            "utf16_spanish_ci",
            "utf16_swedish_ci",
            "utf16_turkish_ci",
            "utf16_unicode_ci",
            "utf16_unicode_520_ci",
            "utf16_vietnamese_ci",
            "utf16le_bin",
            "utf16le_general_ci",
            "utf32_bin",
            "utf32_croatian_ci",
            "utf32_czech_ci",
            "utf32_danish_ci",
            "utf32_esperanto_ci",
            "utf32_estonian_ci",
            "utf32_general_ci",
            "utf32_german2_ci",
            "utf32_hungarian_ci",
            "utf32_icelandic_ci",
            "utf32_latvian_ci",
            "utf32_lithuanian_ci",
            "utf32_persian_ci",
            "utf32_polish_ci",
            "utf32_roman_ci",
            "utf32_romanian_ci",
            "utf32_sinhala_ci",
            "utf32_slovak_ci",
            "utf32_slovenian_ci",
            "utf32_spanish2_ci",
            "utf32_spanish_ci",
            "utf32_swedish_ci",
            "utf32_turkish_ci",
            "utf32_unicode_ci",
            "utf32_unicode_520_ci",
            "utf32_vietnamese_ci",
            "utf8mb3_bin",
            "utf8mb3_croatian_ci",
            "utf8mb3_czech_ci",
            "utf8mb3_danish_ci",
            "utf8mb3_esperanto_ci",
            "utf8mb3_estonian_ci",
            "utf8mb3_general_ci",
            "utf8mb3_german2_ci",
            "utf8mb3_hungarian_ci",
            "utf8mb3_icelandic_ci",
            "utf8mb3_latvian_ci",
            "utf8mb3_lithuanian_ci",
            "utf8mb3_persian_ci",
            "utf8mb3_polish_ci",
            "utf8mb3_roman_ci",
            "utf8mb3_romanian_ci",
            "utf8mb3_sinhala_ci",
            "utf8mb3_slovak_ci",
            "utf8mb3_slovenian_ci",
            "utf8mb3_spanish2_ci",
            "utf8mb3_spanish_ci",
            "utf8mb3_swedish_ci",
            "utf8mb3_turkish_ci",
            "utf8mb3_unicode_ci",
            "utf8mb3_unicode_520_ci",
            "utf8mb3_vietnamese_ci",
            "utf8mb4_0900_ai_ci",
            "utf8mb4_0900_as_ci",
            "utf8mb4_0900_as_cs",
            "utf8mb4_0900_bin",
            "utf8mb4_bin",
            "utf8mb4_general_ci",
            "utf8mb4_unicode_ci",
            "utf8mb4_unicode_520_ci",
        ];
        assert(strs_view(r@) =~= mysql_collations());
        r
    }

    /// The collations MySQL offers, as owned strings.
    pub fn collations_owned() -> (r: Vec<String>)
        ensures
            strings_view(r@) == mysql_collations(),
    {
        owned_strings(Self::collations())
    }

    /// The primary key column a new table starts with, under the given id.
    pub fn pk_column(id: String) -> (c: Column)
        ensures
            c.id@ == id@,
            is_mysql_pk_column(c),
    {
        Column {
            column_type: ColumnType {
                name: "INT".to_owned(),
                length: None,
                precision: None,
                scale: None,
                unsigned: false,
                values: None,
            },
            nullable: false,
            auto_increment: true,
            ..Column::new_with_id(id, "id".to_owned())
        }
    }
}

/// Copies each string slice into an owned string.
fn owned_strings(v: &[&str]) -> (r: Vec<String>)
    ensures
        strings_view(r@) == strs_view(v@),
{
    let mut r: Vec<String> = Vec::new();
    let n: usize = v.len();
    let mut i: usize = 0;
    while i < n
        invariant
            n == v@.len(),
            i <= n,
            strings_view(r@) == strs_view(v@.take(i as int)),
        decreases n - i,
    {
        r.push(v[i].to_owned());
        assert(strs_view(v@.take(i + 1)) =~= strs_view(v@.take(i as int)).push(v@[i as int]@));
        assert(strings_view(r@) =~= strings_view(r@.drop_last()).push(r@.last()@));
        i = i + 1;
    }
    assert(v@.take(n as int) =~= v@);
    r
}

/// The parameters of a type that takes none.
fn no_params() -> (r: &'static [ColumnTypeParam])
    ensures
        r@ == Seq::<ColumnTypeParam>::empty(),
{
    let r: &'static [ColumnTypeParam] = &[];
    assert(r@ =~= Seq::<ColumnTypeParam>::empty());
    r
}

/// The parameters of an integer type: whether it is unsigned.
fn unsigned_param() -> (r: &'static [ColumnTypeParam])
    ensures
        r@ == seq![ColumnTypeParam::Unsigned],
{
    let r: &'static [ColumnTypeParam] = &[ColumnTypeParam::Unsigned];
    assert(r@ =~= seq![ColumnTypeParam::Unsigned]);
    r
}

/// The parameters of a type with a precision.
fn precision_param() -> (r: &'static [ColumnTypeParam])
    ensures
        r@ == seq![ColumnTypeParam::Precision],
{
    let r: &'static [ColumnTypeParam] = &[ColumnTypeParam::Precision];
    assert(r@ =~= seq![ColumnTypeParam::Precision]);
    r
}

/// The parameters of a fixed-point type: precision and scale.
fn precision_scale_params() -> (r: &'static [ColumnTypeParam])
    ensures
        r@ == seq![ColumnTypeParam::Precision, ColumnTypeParam::Scale],
{
    let r: &'static [ColumnTypeParam] = &[ColumnTypeParam::Precision, ColumnTypeParam::Scale];
    assert(r@ =~= seq![ColumnTypeParam::Precision, ColumnTypeParam::Scale]);
    r
}

/// The parameters of a type with a length.
fn length_param() -> (r: &'static [ColumnTypeParam])
    ensures
        r@ == seq![ColumnTypeParam::Length],
{
    let r: &'static [ColumnTypeParam] = &[ColumnTypeParam::Length];
    assert(r@ =~= seq![ColumnTypeParam::Length]);
    r
}

/// The parameters of a type over a list of values.
fn values_param() -> (r: &'static [ColumnTypeParam])
    ensures
        r@ == seq![ColumnTypeParam::EnumValues],
{
    let r: &'static [ColumnTypeParam] = &[ColumnTypeParam::EnumValues];
    assert(r@ =~= seq![ColumnTypeParam::EnumValues]);
    r
}

impl Dialect for MySqlDialect {
    fn name() -> (r: &'static str)
        ensures
            r@ == "mysql"@,
    {
        "mysql"
    }

    fn database_attributes() -> (r: Vec<AttrSpec>)
        ensures
            mysql_database_attributes(r@),
    {
        vec![
            AttrSpec {
                key: "charset",
                label: "Character set",
                kind: AttrKind::Select { options: MySqlDialect::charsets_owned() },
                required: false,
            },
            AttrSpec {
                key: "collation",
                label: "Collation",
                kind: AttrKind::Select { options: MySqlDialect::collations_owned() },
                required: false,
            },
        ]
    }

    fn table_attributes() -> (r: Vec<AttrSpec>)
        ensures
            mysql_table_attributes(r@),
    {
        let mut items = Self::database_attributes();
        items.push(
            AttrSpec {
                key: "comment",
                label: "Comment",
                kind: AttrKind::Text { default: None, multiple_line: true },
                required: false,
            },
        );
        assert(items@.take(2) =~= items@.drop_last());
        items
    }

    fn column_types() -> (r: Vec<ColumnTypeSpec>)
        ensures
            type_specs_view(r@) == mysql_column_types(),
    {
        let r = vec![
            ColumnTypeSpec { name: "TINYINT", category: ColumnTypeCategory::Number, params: unsigned_param(), supports_auto_increment: true },
            ColumnTypeSpec { name: "SMALLINT", category: ColumnTypeCategory::Number, params: unsigned_param(), supports_auto_increment: true },
            ColumnTypeSpec { name: "MEDIUMINT", category: ColumnTypeCategory::Number, params: unsigned_param(), supports_auto_increment: true },
            ColumnTypeSpec { name: "INT", category: ColumnTypeCategory::Number, params: unsigned_param(), supports_auto_increment: true },
            ColumnTypeSpec { name: "BIGINT", category: ColumnTypeCategory::Number, params: unsigned_param(), supports_auto_increment: true },
            ColumnTypeSpec { name: "BOOL", category: ColumnTypeCategory::Number, params: no_params(), supports_auto_increment: false },
            ColumnTypeSpec { name: "DECIMAL", category: ColumnTypeCategory::Number, params: precision_scale_params(), supports_auto_increment: false },
            ColumnTypeSpec { name: "FLOAT", category: ColumnTypeCategory::Number, params: precision_param(), supports_auto_increment: false },
            ColumnTypeSpec { name: "DOUBLE", category: ColumnTypeCategory::Number, params: precision_param(), supports_auto_increment: false },
            ColumnTypeSpec { name: "REAL", category: ColumnTypeCategory::Number, params: precision_scale_params(), supports_auto_increment: false },
            ColumnTypeSpec { name: "BIT", category: ColumnTypeCategory::Number, params: length_param(), supports_auto_increment: false },
            ColumnTypeSpec { name: "DATE", category: ColumnTypeCategory::DateTime, params: no_params(), supports_auto_increment: false },
            ColumnTypeSpec { name: "DATETIME", category: ColumnTypeCategory::DateTime, params: precision_param(), supports_auto_increment: false },
            ColumnTypeSpec { name: "TIMESTAMP", category: ColumnTypeCategory::DateTime, params: precision_param(), supports_auto_increment: false },
            ColumnTypeSpec { name: "TIME", category: ColumnTypeCategory::DateTime, params: precision_param(), supports_auto_increment: false },
            ColumnTypeSpec { name: "YEAR", category: ColumnTypeCategory::DateTime, params: no_params(), supports_auto_increment: false },
            ColumnTypeSpec { name: "CHAR", category: ColumnTypeCategory::String, params: length_param(), supports_auto_increment: false },
            ColumnTypeSpec { name: "VARCHAR", category: ColumnTypeCategory::String, params: length_param(), supports_auto_increment: false },
            ColumnTypeSpec { name: "BINARY", category: ColumnTypeCategory::String, params: length_param(), supports_auto_increment: false },
            ColumnTypeSpec { name: "VARBINARY", category: ColumnTypeCategory::String, params: length_param(), supports_auto_increment: false },
            ColumnTypeSpec { name: "TINYTEXT", category: ColumnTypeCategory::String, params: no_params(), supports_auto_increment: false },
            ColumnTypeSpec { name: "TEXT", category: ColumnTypeCategory::String, params: no_params(), supports_auto_increment: false },
            ColumnTypeSpec { name: "MEDIUMTEXT", category: ColumnTypeCategory::String, params: no_params(), supports_auto_increment: false },
            ColumnTypeSpec { name: "LONGTEXT", category: ColumnTypeCategory::String, params: no_params(), supports_auto_increment: false },
            ColumnTypeSpec { name: "TINYBLOB", category: ColumnTypeCategory::String, params: no_params(), supports_auto_increment: false },
            ColumnTypeSpec { name: "BLOB", category: ColumnTypeCategory::String, params: no_params(), supports_auto_increment: false },
            ColumnTypeSpec { name: "MEDIUMBLOB", category: ColumnTypeCategory::String, params: no_params(), supports_auto_increment: false },
            ColumnTypeSpec { name: "LONGBLOB", category: ColumnTypeCategory::String, params: no_params(), supports_auto_increment: false },
            ColumnTypeSpec { name: "ENUM", category: ColumnTypeCategory::String, params: values_param(), supports_auto_increment: false },
            ColumnTypeSpec { name: "SET", category: ColumnTypeCategory::String, params: values_param(), supports_auto_increment: false },
            ColumnTypeSpec { name: "JSON", category: ColumnTypeCategory::String, params: no_params(), supports_auto_increment: false },
            ColumnTypeSpec { name: "GEOMETRY", category: ColumnTypeCategory::Spatial, params: no_params(), supports_auto_increment: false },
            ColumnTypeSpec { name: "POINT", category: ColumnTypeCategory::Spatial, params: no_params(), supports_auto_increment: false },
            ColumnTypeSpec { name: "LINESTRING", category: ColumnTypeCategory::Spatial, params: no_params(), supports_auto_increment: false },
            ColumnTypeSpec { name: "POLYGON", category: ColumnTypeCategory::Spatial, params: no_params(), supports_auto_increment: false },
            ColumnTypeSpec { name: "MULTIPOINT", category: ColumnTypeCategory::Spatial, params: no_params(), supports_auto_increment: false },
            ColumnTypeSpec { name: "MULTILINESTRING", category: ColumnTypeCategory::Spatial, params: no_params(), supports_auto_increment: false },
            ColumnTypeSpec { name: "MULTIPOLYGON", category: ColumnTypeCategory::Spatial, params: no_params(), supports_auto_increment: false },
            ColumnTypeSpec { name: "GEOMETRYCOLLECTION", category: ColumnTypeCategory::Spatial, params: no_params(), supports_auto_increment: false },
            ColumnTypeSpec { name: "GEOMCOLLECTION", category: ColumnTypeCategory::Spatial, params: no_params(), supports_auto_increment: false },
        ];
        proof {
            assert(type_specs_view(r@) =~= mysql_column_types());
        }
        r
    }

    fn default_pk_column() -> (r: Option<Column>)
        ensures
            r matches Some(c) ==> is_uuid_v4_text(c.id@) && is_mysql_pk_column(c),
    {
        match new_uuid_v4_text() {
            Some(id) => Some(MySqlDialect::pk_column(id)),
            None => None,
        }
    }
}

} // verus!
