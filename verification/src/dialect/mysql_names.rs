//! What the MySQL charset and collation names show when they are spelled
//! out character by character. Verus sees inside a string literal only
//! after `reveal_strlit`, so the facts below reveal each name once and prove,
//! position by position, what the laws in the `mysql` module build on.
use vstd::prelude::*;

use crate::dialect::mysql::{binary_collation_of, mysql_charsets, mysql_collation_parts, mysql_collations};

verus! {

broadcast use vstd::string::axiom_str_literal_len, vstd::string::axiom_str_literal_get_char;

/// For each collation, the position of its charset among the charsets.
pub open spec fn collation_charset_index() -> Seq<int> {
    seq![
        0, 0, 1, 1, 2, 2, 3, 4, 4, 4, 4, 4, 5, 5, 5, 5, 5, 6, 6, 7,
        7, 7, 8, 8, 9, 9, 10, 10, 11, 11, 12, 12, 13, 13, 14, 14, 15, 15, 15, 16,
        16, 17, 17, 18, 18, 19, 19, 20, 20, 21, 21, 22, 22, 23, 23, 24, 24, 25, 25, 25,
        25, 25, 25, 25, 25, 26, 26, 26, 26, 26, 27, 27, 28, 28, 28, 28, 29, 29, 30, 30,
        31, 31, 32, 32, 33, 33, 34, 34, 34, 34, 34, 34, 34, 34, 34, 34, 34, 34, 34, 34,
        34, 34, 34, 34, 34, 34, 34, 34, 34, 34, 34, 34, 35, 35, 36, 36, 36, 36, 36, 36,
        36, 36, 36, 36, 36, 36, 36, 36, 36, 36, 36, 36, 36, 36, 36, 36, 36, 36, 36, 36,
        37, 37, 38, 38, 38, 38, 38, 38, 38, 38, 38, 38, 38, 38, 38, 38, 38, 38, 38, 38,
        38, 38, 38, 38, 38, 38, 38, 38, 39, 39, 39, 39, 39, 39, 39, 39, 39, 39, 39, 39,
        39, 39, 39, 39, 39, 39, 39, 39, 39, 39, 39, 39, 39, 39, 40, 40, 40, 40, 40, 40,
        40, 40
    ]
}

/// For each charset, the position of its binary collation.
pub open spec fn binary_collation_position() -> Seq<int> {
    seq![
        0, 2, 4, 6, 7, 12, 17, 19, 22, 24, 26, 28, 30, 32, 34, 36, 39, 41, 43, 45,
        47, 49, 51, 53, 55, 57, 65, 70, 72, 76, 78, 80, 82, 84, 86, 112, 114, 140, 142, 168,
        198
    ]
}

/// The first `n` characters of `a` and `b` are equal.
pub open spec fn same_prefix(a: Seq<char>, b: Seq<char>, n: nat) -> bool
    decreases n,
{
    n == 0 || (a[n - 1] == b[n - 1] && same_prefix(a, b, (n - 1) as nat))
}

/// None of the first `n` characters of `p` is `_`.
pub open spec fn no_underscore(p: Seq<char>, n: nat) -> bool
    decreases n,
{
    n == 0 || (p[n - 1] != '_' && no_underscore(p, (n - 1) as nat))
}

/// `c` is charset name `p`, alone or followed by `_` and more.
pub open spec fn starts_with_charset(c: Seq<char>, p: Seq<char>) -> bool {
    &&& p.len() <= c.len()
    &&& same_prefix(c, p, p.len())
    &&& (c.len() == p.len() || c[p.len() as int] == '_')
}

/// A ranking of the characters of the MySQL names under which both lists
/// are in strictly increasing order (plain alphabetical order is not one:
/// `ucs2_unicode_ci` comes before `ucs2_unicode_520_ci`). It serves to show
/// that no name occurs twice.
pub open spec fn name_char_rank(c: char) -> int {
    if c == '0' {
        0
    } else if c == 'a' {
        1
    } else if c == 'f' {
        2
    } else if c == 'y' {
        3
    } else if c == '1' {
        4
    } else if c == 'b' {
        5
    } else if c == '3' {
        6
    } else if c == '2' {
        7
    } else if c == 'c' {
        8
    } else if c == '4' {
        9
    } else if c == '8' {
        10
    } else if c == '_' {
        11
    } else if c == '5' {
        12
    } else if c == 'j' {
        13
    } else if c == 'd' {
        14
    } else if c == '9' {
        15
    } else if c == '6' {
        16
    } else if c == 'e' {
        17
    } else if c == '7' {
        18
    } else if c == 'o' {
        19
    } else if c == 'g' {
        20
    } else if c == 'n' {
        21
    } else if c == 'h' {
        22
    } else if c == 'i' {
        23
    } else if c == 'k' {
        24
    } else if c == 'l' {
        25
    } else if c == 'm' {
        26
    } else if c == 'p' {
        27
    } else if c == 'w' {
        28
    } else if c == 'r' {
        29
    } else if c == 'z' {
        30
    } else if c == 's' {
        31
    } else if c == 't' {
        32
    } else if c == 'u' {
        33
    } else if c == 'v' {
        34
    } else {
        -1
    }
}

/// `a` comes before `b` in the order of `name_char_rank`, comparing from
/// position `i` on (a proper prefix comes first).
pub open spec fn name_lt(a: Seq<char>, b: Seq<char>, i: nat) -> bool
    decreases a.len() - i,
{
    if i >= a.len() {
        i < b.len()
    } else if i >= b.len() {
        false
    } else if a[i as int] == b[i as int] {
        name_lt(a, b, i + 1)
    } else {
        name_char_rank(a[i as int]) < name_char_rank(b[i as int])
    }
}

/// What the collation at position `i` shows: it starts with the charset
/// that `collation_charset_index` gives, it is the charset and rest that
/// `mysql_collation_parts` gives, and it comes before the next collation,
/// whose charset is not an earlier one.
pub open spec fn collation_fact(i: int) -> bool {
    let c = mysql_collations();
    let cs = mysql_charsets();
    let k = collation_charset_index()[i];
    &&& 0 <= k < cs.len()
    &&& starts_with_charset(c[i], cs[k])
    &&& mysql_collation_parts().len() == c.len()
    &&& mysql_collation_parts()[i].0 == cs[k]
    &&& c[i].len() == (mysql_collation_parts()[i].0 + mysql_collation_parts()[i].1).len()
    &&& same_prefix(c[i], mysql_collation_parts()[i].0 + mysql_collation_parts()[i].1, c[i].len())
    &&& i + 1 < c.len() ==> name_lt(c[i], c[i + 1], 0) && k <= collation_charset_index()[i + 1]
}

/// What the charset at position `k` shows: it holds no `_`, it comes before
/// the next charset, and its binary collation stands where
/// `binary_collation_position` says.
pub open spec fn charset_fact(k: int) -> bool {
    let c = mysql_collations();
    let cs = mysql_charsets();
    let p = binary_collation_position()[k];
    let b = binary_collation_of(cs[k]);
    &&& no_underscore(cs[k], cs[k].len())
    &&& k + 1 < cs.len() ==> name_lt(cs[k], cs[k + 1], 0)
    &&& 0 <= p < c.len()
    &&& c[p].len() == b.len()
    &&& same_prefix(c[p], b, b.len())
}

/// What every charset name shows.
proof fn charset_facts()
    ensures
        forall|k: int| 0 <= k < 41 ==> #[trigger] charset_fact(k),
{
    reveal_strlit("armscii8");
    reveal_strlit("ascii");
    reveal_strlit("big5");
    reveal_strlit("binary");
    reveal_strlit("cp1250");
    reveal_strlit("cp1251");
    reveal_strlit("cp1256");
    reveal_strlit("cp1257");
    reveal_strlit("cp850");
    reveal_strlit("cp852");
    reveal_strlit("cp866");
    reveal_strlit("cp932");
    reveal_strlit("dec8");
    reveal_strlit("eucjpms");
    reveal_strlit("euckr");
    reveal_strlit("gb18030");
    reveal_strlit("gb2312");
    reveal_strlit("gbk");
    reveal_strlit("geostd8");
    reveal_strlit("greek");
    reveal_strlit("hebrew");
    reveal_strlit("hp8");
    reveal_strlit("keybcs2");
    reveal_strlit("koi8r");
    reveal_strlit("koi8u");
    reveal_strlit("latin1");
    reveal_strlit("latin2");
    reveal_strlit("latin5");
    reveal_strlit("latin7");
    reveal_strlit("macce");
    reveal_strlit("macroman");
    reveal_strlit("sjis");
    reveal_strlit("swe7");
    reveal_strlit("tis620");
    reveal_strlit("ucs2");
    reveal_strlit("ujis");
    reveal_strlit("utf16");
    reveal_strlit("utf16le");
    reveal_strlit("utf32");
    reveal_strlit("utf8mb3");
    reveal_strlit("utf8mb4");
    reveal_strlit("armscii8_bin");
    reveal_strlit("ascii_bin");
    reveal_strlit("big5_bin");
    reveal_strlit("cp1250_bin");
    reveal_strlit("cp1251_bin");
    reveal_strlit("cp1256_bin");
    reveal_strlit("cp1257_bin");
    reveal_strlit("cp850_bin");
    reveal_strlit("cp852_bin");
    reveal_strlit("cp866_bin");
    reveal_strlit("cp932_bin");
    reveal_strlit("dec8_bin");
    reveal_strlit("eucjpms_bin");
    reveal_strlit("euckr_bin");
    reveal_strlit("gb18030_bin");
    reveal_strlit("gb2312_bin");
    reveal_strlit("gbk_bin");
    reveal_strlit("geostd8_bin");
    reveal_strlit("greek_bin");
    reveal_strlit("hebrew_bin");
    reveal_strlit("hp8_bin");
    reveal_strlit("keybcs2_bin");
    reveal_strlit("koi8r_bin");
    reveal_strlit("koi8u_bin");
    reveal_strlit("latin1_bin");
    reveal_strlit("latin2_bin");
    reveal_strlit("latin5_bin");
    reveal_strlit("latin7_bin");
    reveal_strlit("macce_bin");
    reveal_strlit("macroman_bin");
    reveal_strlit("sjis_bin");
    reveal_strlit("swe7_bin");
    reveal_strlit("tis620_bin");
    reveal_strlit("ucs2_bin");
    reveal_strlit("ujis_bin");
    reveal_strlit("utf16_bin");
    reveal_strlit("utf16le_bin");
    reveal_strlit("utf32_bin");
    reveal_strlit("utf8mb3_bin");
    reveal_strlit("utf8mb4_bin");
    reveal_strlit("_bin");
    reveal_with_fuel(same_prefix, 13);
    reveal_with_fuel(no_underscore, 9);
    reveal_with_fuel(name_lt, 8);
    assert forall|k: int| 0 <= k < 41 implies #[trigger] charset_fact(k) by {
        assert(
            k == 0 || k == 1 || k == 2 || k == 3 || k == 4 || k == 5 || k == 6 || k == 7 || k == 8 || k == 9
                || k == 10 || k == 11 || k == 12 || k == 13 || k == 14 || k == 15 || k == 16 || k == 17 || k == 18 || k == 19
                || k == 20 || k == 21 || k == 22 || k == 23 || k == 24 || k == 25 || k == 26 || k == 27 || k == 28 || k == 29
                || k == 30 || k == 31 || k == 32 || k == 33 || k == 34 || k == 35 || k == 36 || k == 37 || k == 38 || k == 39
                || k == 40
        );
    }
}

/// What the collation names at positions 0 to 40 show when spelled
/// out.
proof fn collation_facts_0()
    ensures
        forall|i: int| 0 <= i < 41 ==> #[trigger] collation_fact(i),
{
    reveal_strlit("armscii8_bin");
    reveal_strlit("armscii8_general_ci");
    reveal_strlit("ascii_bin");
    reveal_strlit("ascii_general_ci");
    reveal_strlit("big5_bin");
    reveal_strlit("big5_chinese_ci");
    reveal_strlit("binary");
    reveal_strlit("cp1250_bin");
    reveal_strlit("cp1250_croatian_ci");
    reveal_strlit("cp1250_czech_cs");
    reveal_strlit("cp1250_general_ci");
    reveal_strlit("cp1250_polish_ci");
    reveal_strlit("cp1251_bin");
    reveal_strlit("cp1251_bulgarian_ci");
    reveal_strlit("cp1251_general_ci");
    reveal_strlit("cp1251_general_cs");
    reveal_strlit("cp1251_ukrainian_ci");
    reveal_strlit("cp1256_bin");
    reveal_strlit("cp1256_general_ci");
    reveal_strlit("cp1257_bin");
    reveal_strlit("cp1257_general_ci");
    reveal_strlit("cp1257_lithuanian_ci");
    reveal_strlit("cp850_bin");
    reveal_strlit("cp850_general_ci");
    reveal_strlit("cp852_bin");
    reveal_strlit("cp852_general_ci");
    reveal_strlit("cp866_bin");
    reveal_strlit("cp866_general_ci");
    reveal_strlit("cp932_bin");
    reveal_strlit("cp932_japanese_ci");
    reveal_strlit("dec8_bin");
    reveal_strlit("dec8_swedish_ci");
    reveal_strlit("eucjpms_bin");
    reveal_strlit("eucjpms_japanese_ci");
    reveal_strlit("euckr_bin");
    reveal_strlit("euckr_korean_ci");
    reveal_strlit("gb18030_bin");
    reveal_strlit("gb18030_chinese_ci");
    reveal_strlit("gb18030_unicode_520_ci");
    reveal_strlit("gb2312_bin");
    reveal_strlit("gb2312_chinese_ci");
    reveal_strlit("gbk_bin");
    reveal_strlit("armscii8");
    reveal_strlit("ascii");
    reveal_strlit("big5");
    reveal_strlit("cp1250");
    reveal_strlit("cp1251");
    reveal_strlit("cp1256");
    reveal_strlit("cp1257");
    reveal_strlit("cp850");
    reveal_strlit("cp852");
    reveal_strlit("cp866");
    reveal_strlit("cp932");
    reveal_strlit("dec8");
    reveal_strlit("eucjpms");
    reveal_strlit("euckr");
    reveal_strlit("gb18030");
    reveal_strlit("gb2312");
    reveal_strlit("gbk");
    reveal_strlit("_bin");
    reveal_strlit("_general_ci");
    reveal_strlit("_chinese_ci");
    reveal_strlit("");
    reveal_strlit("_croatian_ci");
    reveal_strlit("_czech_cs");
    reveal_strlit("_polish_ci");
    reveal_strlit("_bulgarian_ci");
    reveal_strlit("_general_cs");
    reveal_strlit("_ukrainian_ci");
    reveal_strlit("_lithuanian_ci");
    reveal_strlit("_japanese_ci");
    reveal_strlit("_swedish_ci");
    reveal_strlit("_korean_ci");
    reveal_strlit("_unicode_520_ci");
    reveal_with_fuel(same_prefix, 23);
    reveal_with_fuel(name_lt, 19);
    assert forall|i: int| 0 <= i < 41 implies #[trigger] collation_fact(i) by {
        assert(
            i == 0 || i == 1 || i == 2 || i == 3 || i == 4 || i == 5 || i == 6 || i == 7 || i == 8 || i == 9
                || i == 10 || i == 11 || i == 12 || i == 13 || i == 14 || i == 15 || i == 16 || i == 17 || i == 18 || i == 19
                || i == 20 || i == 21 || i == 22 || i == 23 || i == 24 || i == 25 || i == 26 || i == 27 || i == 28 || i == 29
                || i == 30 || i == 31 || i == 32 || i == 33 || i == 34 || i == 35 || i == 36 || i == 37 || i == 38 || i == 39
                || i == 40
        );
    }
}

/// What the collation names at positions 41 to 81 show when spelled
/// out.
proof fn collation_facts_1()
    ensures
        forall|i: int| 41 <= i < 82 ==> #[trigger] collation_fact(i),
{
    reveal_strlit("gbk_bin");
    reveal_strlit("gbk_chinese_ci");
    reveal_strlit("geostd8_bin");
    reveal_strlit("geostd8_general_ci");
    reveal_strlit("greek_bin");
    reveal_strlit("greek_general_ci");
    reveal_strlit("hebrew_bin");
    reveal_strlit("hebrew_general_ci");
    reveal_strlit("hp8_bin");
    reveal_strlit("hp8_english_ci");
    reveal_strlit("keybcs2_bin");
    reveal_strlit("keybcs2_general_ci");
    reveal_strlit("koi8r_bin");
    reveal_strlit("koi8r_general_ci");
    reveal_strlit("koi8u_bin");
    reveal_strlit("koi8u_general_ci");
    reveal_strlit("latin1_bin");
    reveal_strlit("latin1_danish_ci");
    reveal_strlit("latin1_general_ci");
    reveal_strlit("latin1_general_cs");
    reveal_strlit("latin1_german1_ci");
    reveal_strlit("latin1_german2_ci");
    reveal_strlit("latin1_spanish_ci");
    reveal_strlit("latin1_swedish_ci");
    reveal_strlit("latin2_bin");
    reveal_strlit("latin2_croatian_ci");
    reveal_strlit("latin2_czech_cs");
    reveal_strlit("latin2_general_ci");
    reveal_strlit("latin2_hungarian_ci");
    reveal_strlit("latin5_bin");
    reveal_strlit("latin5_turkish_ci");
    reveal_strlit("latin7_bin");
    reveal_strlit("latin7_estonian_cs");
    reveal_strlit("latin7_general_ci");
    reveal_strlit("latin7_general_cs");
    reveal_strlit("macce_bin");
    reveal_strlit("macce_general_ci");
    reveal_strlit("macroman_bin");
    reveal_strlit("macroman_general_ci");
    reveal_strlit("sjis_bin");
    reveal_strlit("sjis_japanese_ci");
    reveal_strlit("swe7_bin");
    reveal_strlit("gbk");
    reveal_strlit("geostd8");
    reveal_strlit("greek");
    reveal_strlit("hebrew");
    reveal_strlit("hp8");
    reveal_strlit("keybcs2");
    reveal_strlit("koi8r");
    reveal_strlit("koi8u");
    reveal_strlit("latin1");
    reveal_strlit("latin2");
    reveal_strlit("latin5");
    reveal_strlit("latin7");
    reveal_strlit("macce");
    reveal_strlit("macroman");
    reveal_strlit("sjis");
    reveal_strlit("swe7");
    reveal_strlit("_bin");
    reveal_strlit("_chinese_ci");
    reveal_strlit("_general_ci");
    reveal_strlit("_english_ci");
    reveal_strlit("_danish_ci");
    reveal_strlit("_general_cs");
    reveal_strlit("_german1_ci");
    reveal_strlit("_german2_ci");
    reveal_strlit("_spanish_ci");
    reveal_strlit("_swedish_ci");
    reveal_strlit("_croatian_ci");
    reveal_strlit("_czech_cs");
    reveal_strlit("_hungarian_ci");
    reveal_strlit("_turkish_ci");
    reveal_strlit("_estonian_cs");
    reveal_strlit("_japanese_ci");
    reveal_with_fuel(same_prefix, 23);
    reveal_with_fuel(name_lt, 19);
    assert forall|i: int| 41 <= i < 82 implies #[trigger] collation_fact(i) by {
        assert(
            i == 41 || i == 42 || i == 43 || i == 44 || i == 45 || i == 46 || i == 47 || i == 48 || i == 49 || i == 50
                || i == 51 || i == 52 || i == 53 || i == 54 || i == 55 || i == 56 || i == 57 || i == 58 || i == 59 || i == 60
                || i == 61 || i == 62 || i == 63 || i == 64 || i == 65 || i == 66 || i == 67 || i == 68 || i == 69 || i == 70
                || i == 71 || i == 72 || i == 73 || i == 74 || i == 75 || i == 76 || i == 77 || i == 78 || i == 79 || i == 80
                || i == 81
        );
    }
}

/// What the collation names at positions 82 to 122 show when spelled
/// out.
proof fn collation_facts_2()
    ensures
        forall|i: int| 82 <= i < 123 ==> #[trigger] collation_fact(i),
{
    reveal_strlit("swe7_bin");
    reveal_strlit("swe7_swedish_ci");
    reveal_strlit("tis620_bin");
    reveal_strlit("tis620_thai_ci");
    reveal_strlit("ucs2_bin");
    reveal_strlit("ucs2_croatian_ci");
    reveal_strlit("ucs2_czech_ci");
    reveal_strlit("ucs2_danish_ci");
    reveal_strlit("ucs2_esperanto_ci");
    reveal_strlit("ucs2_estonian_ci");
    reveal_strlit("ucs2_general_ci");
    reveal_strlit("ucs2_german2_ci");
    reveal_strlit("ucs2_hungarian_ci");
    reveal_strlit("ucs2_icelandic_ci");
    reveal_strlit("ucs2_latvian_ci");
    reveal_strlit("ucs2_lithuanian_ci");
    reveal_strlit("ucs2_persian_ci");
    reveal_strlit("ucs2_polish_ci");
    reveal_strlit("ucs2_roman_ci");
    reveal_strlit("ucs2_romanian_ci");
    reveal_strlit("ucs2_sinhala_ci");
    reveal_strlit("ucs2_slovak_ci");
    reveal_strlit("ucs2_slovenian_ci");
    reveal_strlit("ucs2_spanish2_ci");
    reveal_strlit("ucs2_spanish_ci");
    reveal_strlit("ucs2_swedish_ci");
    reveal_strlit("ucs2_turkish_ci");
    reveal_strlit("ucs2_unicode_ci");
    reveal_strlit("ucs2_unicode_520_ci");
    reveal_strlit("ucs2_vietnamese_ci");
    reveal_strlit("ujis_bin");
    reveal_strlit("ujis_japanese_ci");
    reveal_strlit("utf16_bin");
    reveal_strlit("utf16_croatian_ci");
    reveal_strlit("utf16_czech_ci");
    reveal_strlit("utf16_danish_ci");
    reveal_strlit("utf16_esperanto_ci");
    reveal_strlit("utf16_estonian_ci");
    reveal_strlit("utf16_general_ci");
    reveal_strlit("utf16_german2_ci");
    reveal_strlit("utf16_hungarian_ci");
    reveal_strlit("utf16_icelandic_ci");
    reveal_strlit("swe7");
    reveal_strlit("tis620");
    reveal_strlit("ucs2");
    reveal_strlit("ujis");
    reveal_strlit("utf16");
    reveal_strlit("_bin");
    reveal_strlit("_swedish_ci");
    reveal_strlit("_thai_ci");
    reveal_strlit("_croatian_ci");
    reveal_strlit("_czech_ci");
    reveal_strlit("_danish_ci");
    reveal_strlit("_esperanto_ci");
    reveal_strlit("_estonian_ci");
    reveal_strlit("_general_ci");
    reveal_strlit("_german2_ci");
    reveal_strlit("_hungarian_ci");
    reveal_strlit("_icelandic_ci");
    reveal_strlit("_latvian_ci");
    reveal_strlit("_lithuanian_ci");
    reveal_strlit("_persian_ci");
    reveal_strlit("_polish_ci");
    reveal_strlit("_roman_ci");
    reveal_strlit("_romanian_ci");
    reveal_strlit("_sinhala_ci");
    reveal_strlit("_slovak_ci");
    reveal_strlit("_slovenian_ci");
    reveal_strlit("_spanish2_ci");
    reveal_strlit("_spanish_ci");
    reveal_strlit("_turkish_ci");
    reveal_strlit("_unicode_ci");
    reveal_strlit("_unicode_520_ci");
    reveal_strlit("_vietnamese_ci");
    reveal_strlit("_japanese_ci");
    reveal_with_fuel(same_prefix, 23);
    reveal_with_fuel(name_lt, 19);
    assert forall|i: int| 82 <= i < 123 implies #[trigger] collation_fact(i) by {
        assert(
            i == 82 || i == 83 || i == 84 || i == 85 || i == 86 || i == 87 || i == 88 || i == 89 || i == 90 || i == 91
                || i == 92 || i == 93 || i == 94 || i == 95 || i == 96 || i == 97 || i == 98 || i == 99 || i == 100 || i == 101
                || i == 102 || i == 103 || i == 104 || i == 105 || i == 106 || i == 107 || i == 108 || i == 109 || i == 110 || i == 111
                || i == 112 || i == 113 || i == 114 || i == 115 || i == 116 || i == 117 || i == 118 || i == 119 || i == 120 || i == 121
                || i == 122
        );
    }
}

/// What the collation names at positions 123 to 163 show when spelled
/// out.
proof fn collation_facts_3()
    ensures
        forall|i: int| 123 <= i < 164 ==> #[trigger] collation_fact(i),
{
    reveal_strlit("utf16_icelandic_ci");
    reveal_strlit("utf16_latvian_ci");
    reveal_strlit("utf16_lithuanian_ci");
    reveal_strlit("utf16_persian_ci");
    reveal_strlit("utf16_polish_ci");
    reveal_strlit("utf16_roman_ci");
    reveal_strlit("utf16_romanian_ci");
    reveal_strlit("utf16_sinhala_ci");
    reveal_strlit("utf16_slovak_ci");
    reveal_strlit("utf16_slovenian_ci");
    reveal_strlit("utf16_spanish2_ci");
    reveal_strlit("utf16_spanish_ci");
    reveal_strlit("utf16_swedish_ci");
    reveal_strlit("utf16_turkish_ci");
    reveal_strlit("utf16_unicode_ci");
    reveal_strlit("utf16_unicode_520_ci");
    reveal_strlit("utf16_vietnamese_ci");
    reveal_strlit("utf16le_bin");
    reveal_strlit("utf16le_general_ci");
    reveal_strlit("utf32_bin");
    reveal_strlit("utf32_croatian_ci");
    reveal_strlit("utf32_czech_ci");
    reveal_strlit("utf32_danish_ci");
    reveal_strlit("utf32_esperanto_ci");
    reveal_strlit("utf32_estonian_ci");
    reveal_strlit("utf32_general_ci");
    reveal_strlit("utf32_german2_ci");
    reveal_strlit("utf32_hungarian_ci");
    reveal_strlit("utf32_icelandic_ci");
    reveal_strlit("utf32_latvian_ci");
    reveal_strlit("utf32_lithuanian_ci");
    reveal_strlit("utf32_persian_ci");
    reveal_strlit("utf32_polish_ci");
    reveal_strlit("utf32_roman_ci");
    reveal_strlit("utf32_romanian_ci");
    reveal_strlit("utf32_sinhala_ci");
    reveal_strlit("utf32_slovak_ci");
    reveal_strlit("utf32_slovenian_ci");
    reveal_strlit("utf32_spanish2_ci");
    reveal_strlit("utf32_spanish_ci");
    reveal_strlit("utf32_swedish_ci");
    reveal_strlit("utf32_turkish_ci");
    reveal_strlit("utf16");
    reveal_strlit("utf16le");
    reveal_strlit("utf32");
    reveal_strlit("_icelandic_ci");
    reveal_strlit("_latvian_ci");
    reveal_strlit("_lithuanian_ci");
    reveal_strlit("_persian_ci");
    reveal_strlit("_polish_ci");
    reveal_strlit("_roman_ci");
    reveal_strlit("_romanian_ci");
    reveal_strlit("_sinhala_ci");
    reveal_strlit("_slovak_ci");
    reveal_strlit("_slovenian_ci");
    reveal_strlit("_spanish2_ci");
    reveal_strlit("_spanish_ci");
    reveal_strlit("_swedish_ci");
    reveal_strlit("_turkish_ci");
    reveal_strlit("_unicode_ci");
    reveal_strlit("_unicode_520_ci");
    reveal_strlit("_vietnamese_ci");
    reveal_strlit("_bin");
    reveal_strlit("_general_ci");
    reveal_strlit("_croatian_ci");
    reveal_strlit("_czech_ci");
    reveal_strlit("_danish_ci");
    reveal_strlit("_esperanto_ci");
    reveal_strlit("_estonian_ci");
    reveal_strlit("_german2_ci");
    reveal_strlit("_hungarian_ci");
    reveal_with_fuel(same_prefix, 23);
    reveal_with_fuel(name_lt, 19);
    assert forall|i: int| 123 <= i < 164 implies #[trigger] collation_fact(i) by {
        assert(
            i == 123 || i == 124 || i == 125 || i == 126 || i == 127 || i == 128 || i == 129 || i == 130 || i == 131 || i == 132
                || i == 133 || i == 134 || i == 135 || i == 136 || i == 137 || i == 138 || i == 139 || i == 140 || i == 141 || i == 142
                || i == 143 || i == 144 || i == 145 || i == 146 || i == 147 || i == 148 || i == 149 || i == 150 || i == 151 || i == 152
                || i == 153 || i == 154 || i == 155 || i == 156 || i == 157 || i == 158 || i == 159 || i == 160 || i == 161 || i == 162
                || i == 163
        );
    }
}

/// What the collation names at positions 164 to 201 show when spelled
/// out.
proof fn collation_facts_4()
    ensures
        forall|i: int| 164 <= i < 202 ==> #[trigger] collation_fact(i),
{
    reveal_strlit("utf32_turkish_ci");
    reveal_strlit("utf32_unicode_ci");
    reveal_strlit("utf32_unicode_520_ci");
    reveal_strlit("utf32_vietnamese_ci");
    reveal_strlit("utf8mb3_bin");
    reveal_strlit("utf8mb3_croatian_ci");
    reveal_strlit("utf8mb3_czech_ci");
    reveal_strlit("utf8mb3_danish_ci");
    reveal_strlit("utf8mb3_esperanto_ci");
    reveal_strlit("utf8mb3_estonian_ci");
    reveal_strlit("utf8mb3_general_ci");
    reveal_strlit("utf8mb3_german2_ci");
    reveal_strlit("utf8mb3_hungarian_ci");
    reveal_strlit("utf8mb3_icelandic_ci");
    reveal_strlit("utf8mb3_latvian_ci");
    reveal_strlit("utf8mb3_lithuanian_ci");
    reveal_strlit("utf8mb3_persian_ci");
    reveal_strlit("utf8mb3_polish_ci");
    reveal_strlit("utf8mb3_roman_ci");
    reveal_strlit("utf8mb3_romanian_ci");
    reveal_strlit("utf8mb3_sinhala_ci");
    reveal_strlit("utf8mb3_slovak_ci");
    reveal_strlit("utf8mb3_slovenian_ci");
    reveal_strlit("utf8mb3_spanish2_ci");
    reveal_strlit("utf8mb3_spanish_ci");
    reveal_strlit("utf8mb3_swedish_ci");
    reveal_strlit("utf8mb3_turkish_ci");
    reveal_strlit("utf8mb3_unicode_ci");
    reveal_strlit("utf8mb3_unicode_520_ci");
    reveal_strlit("utf8mb3_vietnamese_ci");
    reveal_strlit("utf8mb4_0900_ai_ci");
    reveal_strlit("utf8mb4_0900_as_ci");
    reveal_strlit("utf8mb4_0900_as_cs");
    reveal_strlit("utf8mb4_0900_bin");
    reveal_strlit("utf8mb4_bin");
    reveal_strlit("utf8mb4_general_ci");
    reveal_strlit("utf8mb4_unicode_ci");
    reveal_strlit("utf8mb4_unicode_520_ci");
    reveal_strlit("utf32");
    reveal_strlit("utf8mb3");
    reveal_strlit("utf8mb4");
    reveal_strlit("_turkish_ci");
    reveal_strlit("_unicode_ci");
    reveal_strlit("_unicode_520_ci");
    reveal_strlit("_vietnamese_ci");
    reveal_strlit("_bin");
    reveal_strlit("_croatian_ci");
    reveal_strlit("_czech_ci");
    reveal_strlit("_danish_ci");
    reveal_strlit("_esperanto_ci");
    reveal_strlit("_estonian_ci");
    reveal_strlit("_general_ci");
    reveal_strlit("_german2_ci");
    reveal_strlit("_hungarian_ci");
    reveal_strlit("_icelandic_ci");
    reveal_strlit("_latvian_ci");
    reveal_strlit("_lithuanian_ci");
    reveal_strlit("_persian_ci");
    reveal_strlit("_polish_ci");
    reveal_strlit("_roman_ci");
    reveal_strlit("_romanian_ci");
    reveal_strlit("_sinhala_ci");
    reveal_strlit("_slovak_ci");
    reveal_strlit("_slovenian_ci");
    reveal_strlit("_spanish2_ci");
    reveal_strlit("_spanish_ci");
    reveal_strlit("_swedish_ci");
    reveal_strlit("_0900_ai_ci");
    reveal_strlit("_0900_as_ci");
    reveal_strlit("_0900_as_cs");
    reveal_strlit("_0900_bin");
    reveal_with_fuel(same_prefix, 23);
    reveal_with_fuel(name_lt, 19);
    assert forall|i: int| 164 <= i < 202 implies #[trigger] collation_fact(i) by {
        assert(
            i == 164 || i == 165 || i == 166 || i == 167 || i == 168 || i == 169 || i == 170 || i == 171 || i == 172 || i == 173
                || i == 174 || i == 175 || i == 176 || i == 177 || i == 178 || i == 179 || i == 180 || i == 181 || i == 182 || i == 183
                || i == 184 || i == 185 || i == 186 || i == 187 || i == 188 || i == 189 || i == 190 || i == 191 || i == 192 || i == 193
                || i == 194 || i == 195 || i == 196 || i == 197 || i == 198 || i == 199 || i == 200 || i == 201
        );
    }
}

/// What every charset and collation name shows.
pub proof fn mysql_name_facts()
    ensures
        mysql_collations().len() == 202,
        mysql_charsets().len() == 41,
        forall|i: int| 0 <= i < 202 ==> #[trigger] collation_fact(i),
        forall|k: int| 0 <= k < 41 ==> #[trigger] charset_fact(k),
{
    charset_facts();
    collation_facts_0();
    collation_facts_1();
    collation_facts_2();
    collation_facts_3();
    collation_facts_4();
}

/// Equal first `n` characters, position by position.
pub proof fn lemma_same_prefix(a: Seq<char>, b: Seq<char>, n: nat)
    requires
        same_prefix(a, b, n),
    ensures
        forall|j: int| 0 <= j < n ==> a[j] == b[j],
    decreases n,
{
    if n > 0 {
        lemma_same_prefix(a, b, (n - 1) as nat);
    }
}

/// No `_` among the first `n` characters, position by position.
pub proof fn lemma_no_underscore(p: Seq<char>, n: nat)
    requires
        no_underscore(p, n),
    ensures
        forall|j: int| 0 <= j < n ==> p[j] != '_',
    decreases n,
{
    if n > 0 {
        lemma_no_underscore(p, (n - 1) as nat);
    }
}

/// No name comes before itself.
pub proof fn lemma_name_lt_irreflexive(a: Seq<char>, i: nat)
    ensures
        !name_lt(a, a, i),
    decreases a.len() - i,
{
    if i < a.len() {
        lemma_name_lt_irreflexive(a, i + 1);
    }
}

/// The order of names is transitive.
pub proof fn lemma_name_lt_transitive(a: Seq<char>, b: Seq<char>, c: Seq<char>, i: nat)
    requires
        name_lt(a, b, i),
        name_lt(b, c, i),
    ensures
        name_lt(a, c, i),
    decreases a.len() - i,
{
    if i < a.len() && i < b.len() && i < c.len() && a[i as int] == b[i as int] && b[i as int] == c[i as int] {
        lemma_name_lt_transitive(a, b, c, i + 1);
    }
}

/// In a list of names each of which comes before the next, an earlier name
/// comes before a later one.
proof fn lemma_increasing_names_chain(s: Seq<Seq<char>>, i: int, j: int)
    requires
        0 <= i < j < s.len(),
        forall|k: int| 0 <= k < s.len() - 1 ==> name_lt(#[trigger] s[k], s[k + 1], 0),
    ensures
        name_lt(s[i], s[j], 0),
    decreases j - i,
{
    if j > i + 1 {
        lemma_increasing_names_chain(s, i, j - 1);
        lemma_name_lt_transitive(s[i], s[j - 1], s[j], 0);
    }
}

/// A list of names each of which comes before the next holds no name
/// twice.
pub proof fn lemma_increasing_names(s: Seq<Seq<char>>)
    requires
        forall|k: int| 0 <= k < s.len() - 1 ==> name_lt(#[trigger] s[k], s[k + 1], 0),
    ensures
        s.no_duplicates(),
{
    assert forall|i: int, j: int| 0 <= i < s.len() && 0 <= j < s.len() && i != j implies s[i] != s[j] by {
        if i < j {
            lemma_increasing_names_chain(s, i, j);
            lemma_name_lt_irreflexive(s[i], 0);
        } else {
            lemma_increasing_names_chain(s, j, i);
            lemma_name_lt_irreflexive(s[j], 0);
        }
    }
}

/// The charset positions of the collations never go down.
pub proof fn lemma_charset_index_nondecreasing(i: int, j: int)
    requires
        0 <= i <= j < 202,
        forall|k: int| 0 <= k < 202 ==> #[trigger] collation_fact(k),
        mysql_collations().len() == 202,
    ensures
        collation_charset_index()[i] <= collation_charset_index()[j],
    decreases j - i,
{
    if j > i {
        lemma_charset_index_nondecreasing(i, j - 1);
        assert(collation_fact(j - 1));
    }
}

} // verus!
