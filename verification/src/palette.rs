//! Palette tables: the fixed mapping from an iteration count to a glyph and a colour.
//!
//! A table is an ordered list of buckets. Each bucket covers a closed range of
//! iteration counts; the ranges follow one another without gap or overlap, the
//! first starts at zero and the last ends at `u32::MAX`, so every count falls
//! into exactly one bucket.
//!
//! There are four tables, one for each pair of a palette (plain ASCII or block
//! glyphs) and a detail level (standard or high). The tables at high detail
//! have the finer ranges and the greater variety of glyphs.

use vstd::prelude::*;

verus! {

/// The sixteen terminal colours that the palettes draw on.
#[derive(Clone, Copy, Debug, PartialEq, Eq, Structural)]
pub enum Color {
    Black,
    DarkGray,
    Gray,
    White,
    Blue,
    LightBlue,
    Cyan,
    LightCyan,
    Green,
    LightGreen,
    Yellow,
    LightYellow,
    Red,
    LightRed,
    Magenta,
    LightMagenta,
}

/// One row of a palette table: the counts `first..=last` are drawn as `glyph` in `color`.
pub struct Bucket {
    pub first: u32,
    pub last: u32,
    pub glyph: char,
    pub color: Color,
}

/// Builds one table row.
pub open spec fn bucket(first: u32, last: u32, glyph: char, color: Color) -> Bucket {
    Bucket { first, last, glyph, color }
}

/// The count `n` lies in the range of bucket `i` of `table`.
pub open spec fn bucket_matches(table: Seq<Bucket>, i: int, n: u32) -> bool {
    0 <= i < table.len() && table[i].first <= n <= table[i].last
}

/// A table is well formed when its ranges are non-empty, start at zero, follow
/// one another directly and end at the largest count.
pub open spec fn table_well_formed(table: Seq<Bucket>) -> bool {
    &&& table.len() > 0
    &&& table[0].first == 0
    &&& table[table.len() - 1].last == u32::MAX
    &&& forall|i: int| 0 <= i < table.len() ==> (#[trigger] table[i]).first <= table[i].last
    &&& forall|i: int|
        0 <= i < table.len() - 1 ==> (#[trigger] table[i + 1]).first == table[i].last + 1
}

/// The plain-ASCII table at standard detail.
pub open spec fn ascii_table() -> Seq<Bucket> {
    seq![
        bucket(0, 2, ' ', Color::Black),
        bucket(3, 5, '.', Color::DarkGray),
        bucket(6, 10, ':', Color::Gray),
        bucket(11, 15, ';', Color::White),
        bucket(16, 20, '!', Color::Blue),
        bucket(21, 30, '|', Color::Cyan),
        bucket(31, 40, '$', Color::Green),
        bucket(41, 50, '@', Color::Yellow),
        bucket(51, 70, '&', Color::Red),
        bucket(71, 90, '%', Color::Magenta),
        bucket(91, 99, '*', Color::LightRed),
        bucket(100, u32::MAX, '#', Color::LightMagenta),
    ]
}

/// The plain-ASCII table at high detail: the ranges and colours of the
/// block-glyph table at high detail, drawn with ASCII glyphs of rising weight.
pub open spec fn ascii_high_quality_table() -> Seq<Bucket> {
    seq![
        bucket(0, 1, ' ', Color::Black),
        bucket(2, 3, '.', Color::DarkGray),
        bucket(4, 5, ',', Color::DarkGray),
        bucket(6, 8, '-', Color::Gray),
        bucket(9, 12, ':', Color::LightBlue),
        bucket(13, 16, ';', Color::Blue),
        bucket(17, 20, '~', Color::Cyan),
        bucket(21, 25, '+', Color::LightCyan),
        bucket(26, 30, '=', Color::Green),
        bucket(31, 35, '<', Color::LightGreen),
        bucket(36, 40, '>', Color::Yellow),
        bucket(41, 45, 'i', Color::LightYellow),
        bucket(46, 50, '!', Color::Red),
        bucket(51, 60, '|', Color::LightRed),
        bucket(61, 70, '/', Color::Magenta),
        bucket(71, 80, '?', Color::LightMagenta),
        bucket(81, 90, 'o', Color::White),
        bucket(91, 100, 'c', Color::LightBlue),
        bucket(101, 120, 'x', Color::Blue),
        bucket(121, 140, 'X', Color::Cyan),
        bucket(141, 160, '*', Color::Green),
        bucket(161, 180, '$', Color::Yellow),
        bucket(181, 200, '&', Color::Red),
        bucket(201, 220, '%', Color::Magenta),
        bucket(221, 240, '@', Color::LightMagenta),
        bucket(241, 255, '0', Color::White),
        bucket(256, u32::MAX, '#', Color::LightMagenta),
    ]
}

/// The block-glyph table at standard detail.
pub open spec fn standard_table() -> Seq<Bucket> {
    seq![
        bucket(0, 2, ' ', Color::Black),
        bucket(3, 5, '░', Color::DarkGray),
        bucket(6, 10, '▒', Color::Gray),
        bucket(11, 15, '▓', Color::White),
        bucket(16, 20, '█', Color::Blue),
        bucket(21, 30, '█', Color::Cyan),
        bucket(31, 40, '█', Color::LightGreen),
        bucket(41, 50, '█', Color::Yellow),
        bucket(51, 60, '█', Color::LightYellow),
        bucket(61, 70, '█', Color::Red),
        bucket(71, 80, '█', Color::LightRed),
        bucket(81, 90, '▓', Color::Magenta),
        bucket(91, 99, '*', Color::LightRed),
        bucket(100, u32::MAX, '#', Color::LightMagenta),
    ]
}

/// The block-glyph table at high detail: finer ranges and more glyphs.
pub open spec fn high_quality_table() -> Seq<Bucket> {
    seq![
        bucket(0, 1, ' ', Color::Black),
        bucket(2, 3, '·', Color::DarkGray),
        bucket(4, 5, '░', Color::DarkGray),
        bucket(6, 8, '▒', Color::Gray),
        bucket(9, 12, '▓', Color::LightBlue),
        bucket(13, 16, '█', Color::Blue),
        bucket(17, 20, '▉', Color::Cyan),
        bucket(21, 25, '▊', Color::LightCyan),
        bucket(26, 30, '▋', Color::Green),
        bucket(31, 35, '▌', Color::LightGreen),
        bucket(36, 40, '▍', Color::Yellow),
        bucket(41, 45, '▎', Color::LightYellow),
        bucket(46, 50, '▏', Color::Red),
        bucket(51, 60, '▕', Color::LightRed),
        bucket(61, 70, '▔', Color::Magenta),
        bucket(71, 80, '▁', Color::LightMagenta),
        bucket(81, 90, '▂', Color::White),
        bucket(91, 100, '▃', Color::LightBlue),
        bucket(101, 120, '▄', Color::Blue),
        bucket(121, 140, '▅', Color::Cyan),
        bucket(141, 160, '▆', Color::Green),
        bucket(161, 180, '▇', Color::Yellow),
        bucket(181, 200, '█', Color::Red),
        bucket(201, 220, '▓', Color::Magenta),
        bucket(221, 240, '▒', Color::LightMagenta),
        bucket(241, 255, '░', Color::White),
        bucket(256, u32::MAX, '█', Color::LightMagenta),
    ]
}

/// The table that the two selector flags pick: one table for each pair of a
/// palette and a detail level, four in all.
pub open spec fn palette_table(use_unicode: bool, quality_mode: bool) -> Seq<Bucket> {
    if use_unicode {
        if quality_mode {
            high_quality_table()
        } else {
            standard_table()
        }
    } else {
        if quality_mode {
            ascii_high_quality_table()
        } else {
            ascii_table()
        }
    }
}

/// The index of the bucket of `table` that holds `n`.
pub open spec fn bucket_index(table: Seq<Bucket>, n: u32) -> int {
    choose|i: int| bucket_matches(table, i, n)
}

/// The glyph and colour that `table` gives the count `n`.
pub open spec fn table_lookup(table: Seq<Bucket>, n: u32) -> (char, Color) {
    let b = table[bucket_index(table, n)];
    (b.glyph, b.color)
}

/// The glyph and colour of the count `n` under the two selector flags.
pub open spec fn glyph_and_color(use_unicode: bool, quality_mode: bool, n: u32) -> (char, Color) {
    table_lookup(palette_table(use_unicode, quality_mode), n)
}

/// In a well-formed table the ranges grow: a later bucket starts above the end
/// of every earlier one.
proof fn lemma_buckets_ascend(table: Seq<Bucket>, i: int, j: int)
    requires
        table_well_formed(table),
        0 <= i < j < table.len(),
    ensures
        table[i].last < table[j].first,
    decreases j - i,
{
    if i + 1 < j {
        lemma_buckets_ascend(table, i, j - 1);
        assert(table[(j - 1) + 1].first == table[j - 1].last + 1);
    } else {
        assert(table[i + 1].first == table[i].last + 1);
    }
}

/// From bucket `k` on, a well-formed table holds a bucket for every count that
/// is not below the start of bucket `k`.
proof fn lemma_bucket_found(table: Seq<Bucket>, n: u32, k: int)
    requires
        table_well_formed(table),
        0 <= k < table.len(),
        table[k].first <= n,
    ensures
        exists|i: int| bucket_matches(table, i, n),
    decreases table.len() - k,
{
    if n <= table[k].last {
        assert(bucket_matches(table, k, n));
    } else {
        assert(table[k + 1].first == table[k].last + 1);
        lemma_bucket_found(table, n, k + 1);
    }
}

/// Every count falls into exactly one bucket of a well-formed table: there are
/// no gaps and no overlaps.
pub proof fn lemma_exactly_one_bucket(table: Seq<Bucket>, n: u32)
    requires
        table_well_formed(table),
    ensures
        exists|i: int| bucket_matches(table, i, n),
        forall|i: int, j: int|
            bucket_matches(table, i, n) && bucket_matches(table, j, n) ==> i == j,
{
    lemma_bucket_found(table, n, 0);
    assert forall|i: int, j: int|
        bucket_matches(table, i, n) && bucket_matches(table, j, n) implies i == j by {
        if i < j {
            lemma_buckets_ascend(table, i, j);
        } else if j < i {
            lemma_buckets_ascend(table, j, i);
        }
    }
}

/// Each of the palette tables is well formed, whatever the selector flags.
pub proof fn lemma_palette_tables_well_formed(use_unicode: bool, quality_mode: bool)
    ensures
        table_well_formed(palette_table(use_unicode, quality_mode)),
{
    assert(table_well_formed(ascii_table()));
    assert(table_well_formed(ascii_high_quality_table()));
    assert(table_well_formed(standard_table()));
    assert(table_well_formed(high_quality_table()));
}

/// The high-detail tables are the finer ones: in either palette the table at
/// high detail has more ranges than the table at standard detail.
pub proof fn lemma_high_detail_is_finer(use_unicode: bool)
    ensures
        palette_table(use_unicode, true).len() > palette_table(use_unicode, false).len(),
{
}

/// At high detail the two palettes differ in their glyphs only: range by
/// range they cover the same counts in the same colour.
pub proof fn lemma_high_detail_tables_share_ranges(i: int)
    requires
        0 <= i < high_quality_table().len(),
    ensures
        ascii_high_quality_table().len() == high_quality_table().len(),
        ascii_high_quality_table()[i].first == high_quality_table()[i].first,
        ascii_high_quality_table()[i].last == high_quality_table()[i].last,
        ascii_high_quality_table()[i].color == high_quality_table()[i].color,
{
}

/// Exhaustiveness of the palettes: under every choice of palette and detail
/// level, each `u32` count matches exactly one bucket of the selected table.
pub proof fn lemma_palette_exhaustive(use_unicode: bool, quality_mode: bool, n: u32)
    ensures
        exists|i: int| bucket_matches(palette_table(use_unicode, quality_mode), i, n),
        forall|i: int, j: int|
            bucket_matches(palette_table(use_unicode, quality_mode), i, n) && bucket_matches(
                palette_table(use_unicode, quality_mode),
                j,
                n,
            ) ==> i == j,
{
    lemma_palette_tables_well_formed(use_unicode, quality_mode);
    lemma_exactly_one_bucket(palette_table(use_unicode, quality_mode), n);
}

/// A lookup yields the glyph and colour of the bucket that holds the count.
pub proof fn lemma_lookup_at(table: Seq<Bucket>, k: int, n: u32)
    requires
        table_well_formed(table),
        bucket_matches(table, k, n),
    ensures
        table_lookup(table, n) == (table[k].glyph, table[k].color),
{
    lemma_exactly_one_bucket(table, n);
}

/// Quantizes a count with the plain-ASCII table at standard detail.
pub fn iterations_to_ascii_char_and_color(iterations: u32) -> (cell: (char, Color))
    ensures
        cell == table_lookup(ascii_table(), iterations),
{
    proof {
        assert(table_well_formed(ascii_table()));
    }
    if iterations <= 2 {
        proof {
            lemma_lookup_at(ascii_table(), 0, iterations);
        }
        (' ', Color::Black)
    } else if iterations <= 5 {
        proof {
            lemma_lookup_at(ascii_table(), 1, iterations);
        }
        ('.', Color::DarkGray)
    } else if iterations <= 10 {
        proof {
            lemma_lookup_at(ascii_table(), 2, iterations);
        }
        (':', Color::Gray)
    } else if iterations <= 15 {
        proof {
            lemma_lookup_at(ascii_table(), 3, iterations);
        }
        (';', Color::White)
    } else if iterations <= 20 {
        proof {
            lemma_lookup_at(ascii_table(), 4, iterations);
        }
        ('!', Color::Blue)
    } else if iterations <= 30 {
        proof {
            lemma_lookup_at(ascii_table(), 5, iterations);
        }
        ('|', Color::Cyan)
    } else if iterations <= 40 {
        proof {
            lemma_lookup_at(ascii_table(), 6, iterations);
        }
        ('$', Color::Green)
    } else if iterations <= 50 {
        proof {
            lemma_lookup_at(ascii_table(), 7, iterations);
        }
        ('@', Color::Yellow)
    } else if iterations <= 70 {
        proof {
            lemma_lookup_at(ascii_table(), 8, iterations);
        }
        ('&', Color::Red)
    } else if iterations <= 90 {
        proof {
            lemma_lookup_at(ascii_table(), 9, iterations);
        }
        ('%', Color::Magenta)
    } else if iterations <= 99 {
        proof {
            lemma_lookup_at(ascii_table(), 10, iterations);
        }
        ('*', Color::LightRed)
    } else {
        proof {
            lemma_lookup_at(ascii_table(), 11, iterations);
        }
        ('#', Color::LightMagenta)
    }
}

/// Quantizes a count with the plain-ASCII table at high detail.
pub fn iterations_to_ascii_high_quality_char_and_color(iterations: u32) -> (cell: (char, Color))
    ensures
        cell == table_lookup(ascii_high_quality_table(), iterations),
{
    proof {
        assert(table_well_formed(ascii_high_quality_table()));
    }
    if iterations <= 1 {
        proof {
            lemma_lookup_at(ascii_high_quality_table(), 0, iterations);
        }
        (' ', Color::Black)
    } else if iterations <= 3 {
        proof {
            lemma_lookup_at(ascii_high_quality_table(), 1, iterations);
        }
        ('.', Color::DarkGray)
    } else if iterations <= 5 {
        proof {
            lemma_lookup_at(ascii_high_quality_table(), 2, iterations);
        }
        (',', Color::DarkGray)
    } else if iterations <= 8 {
        proof {
            lemma_lookup_at(ascii_high_quality_table(), 3, iterations);
        }
        ('-', Color::Gray)
    } else if iterations <= 12 {
        proof {
            lemma_lookup_at(ascii_high_quality_table(), 4, iterations);
        }
        (':', Color::LightBlue)
    } else if iterations <= 16 {
        proof {
            lemma_lookup_at(ascii_high_quality_table(), 5, iterations);
        }
        (';', Color::Blue)
    } else if iterations <= 20 {
        proof {
            lemma_lookup_at(ascii_high_quality_table(), 6, iterations);
        }
        ('~', Color::Cyan)
    } else if iterations <= 25 {
        proof {
            lemma_lookup_at(ascii_high_quality_table(), 7, iterations);
        }
        ('+', Color::LightCyan)
    } else if iterations <= 30 {
        proof {
            lemma_lookup_at(ascii_high_quality_table(), 8, iterations);
        }
        ('=', Color::Green)
    } else if iterations <= 35 {
        proof {
            lemma_lookup_at(ascii_high_quality_table(), 9, iterations);
        }
        ('<', Color::LightGreen)
    } else if iterations <= 40 {
        proof {
            lemma_lookup_at(ascii_high_quality_table(), 10, iterations);
        }
        ('>', Color::Yellow)
    } else if iterations <= 45 {
        proof {
            lemma_lookup_at(ascii_high_quality_table(), 11, iterations);
        }
        ('i', Color::LightYellow)
    } else if iterations <= 50 {
        proof {
            lemma_lookup_at(ascii_high_quality_table(), 12, iterations);
        }
        ('!', Color::Red)
    } else if iterations <= 60 {
        proof {
            lemma_lookup_at(ascii_high_quality_table(), 13, iterations);
        }
        ('|', Color::LightRed)
    } else if iterations <= 70 {
        proof {
            lemma_lookup_at(ascii_high_quality_table(), 14, iterations);
        }
        ('/', Color::Magenta)
    } else if iterations <= 80 {
        proof {
            lemma_lookup_at(ascii_high_quality_table(), 15, iterations);
        }
        ('?', Color::LightMagenta)
    } else if iterations <= 90 {
        proof {
            lemma_lookup_at(ascii_high_quality_table(), 16, iterations);
        }
        ('o', Color::White)
    } else if iterations <= 100 {
        proof {
            lemma_lookup_at(ascii_high_quality_table(), 17, iterations);
        }
        ('c', Color::LightBlue)
    } else if iterations <= 120 {
        proof {
            lemma_lookup_at(ascii_high_quality_table(), 18, iterations);
        }
        ('x', Color::Blue)
    } else if iterations <= 140 {
        proof {
            lemma_lookup_at(ascii_high_quality_table(), 19, iterations);
        }
        ('X', Color::Cyan)
    } else if iterations <= 160 {
        proof {
            lemma_lookup_at(ascii_high_quality_table(), 20, iterations);
        }
        ('*', Color::Green)
    } else if iterations <= 180 {
        proof {
            lemma_lookup_at(ascii_high_quality_table(), 21, iterations);
        }
        ('$', Color::Yellow)
    } else if iterations <= 200 {
        proof {
            lemma_lookup_at(ascii_high_quality_table(), 22, iterations);
        }
        ('&', Color::Red)
    } else if iterations <= 220 {
        proof {
            lemma_lookup_at(ascii_high_quality_table(), 23, iterations);
        }
        ('%', Color::Magenta)
    } else if iterations <= 240 {
        proof {
            lemma_lookup_at(ascii_high_quality_table(), 24, iterations);
        }
        ('@', Color::LightMagenta)
    } else if iterations <= 255 {
        proof {
            lemma_lookup_at(ascii_high_quality_table(), 25, iterations);
        }
        ('0', Color::White)
    } else {
        proof {
            lemma_lookup_at(ascii_high_quality_table(), 26, iterations);
        }
        ('#', Color::LightMagenta)
    }
}

/// Quantizes a count with the block-glyph table at standard detail.
pub fn iterations_to_standard_char_and_color(iterations: u32) -> (cell: (char, Color))
    ensures
        cell == table_lookup(standard_table(), iterations),
{
    proof {
        assert(table_well_formed(standard_table()));
    }
    if iterations <= 2 {
        proof {
            lemma_lookup_at(standard_table(), 0, iterations);
        }
        (' ', Color::Black)
    } else if iterations <= 5 {
        proof {
            lemma_lookup_at(standard_table(), 1, iterations);
        }
        ('░', Color::DarkGray)
    } else if iterations <= 10 {
        proof {
            lemma_lookup_at(standard_table(), 2, iterations);
        }
        ('▒', Color::Gray)
    } else if iterations <= 15 {
        proof {
            lemma_lookup_at(standard_table(), 3, iterations);
        }
        ('▓', Color::White)
    } else if iterations <= 20 {
        proof {
            lemma_lookup_at(standard_table(), 4, iterations);
        }
        ('█', Color::Blue)
    } else if iterations <= 30 {
        proof {
            lemma_lookup_at(standard_table(), 5, iterations);
        }
        ('█', Color::Cyan)
    } else if iterations <= 40 {
        proof {
            lemma_lookup_at(standard_table(), 6, iterations);
        }
        ('█', Color::LightGreen)
    } else if iterations <= 50 {
        proof {
            lemma_lookup_at(standard_table(), 7, iterations);
        }
        ('█', Color::Yellow)
    } else if iterations <= 60 {
        proof {
            lemma_lookup_at(standard_table(), 8, iterations);
        }
        ('█', Color::LightYellow)
    } else if iterations <= 70 {
        proof {
            lemma_lookup_at(standard_table(), 9, iterations);
        }
        ('█', Color::Red)
    } else if iterations <= 80 {
        proof {
            lemma_lookup_at(standard_table(), 10, iterations);
        }
        ('█', Color::LightRed)
    } else if iterations <= 90 {
        proof {
            lemma_lookup_at(standard_table(), 11, iterations);
        }
        ('▓', Color::Magenta)
    } else if iterations <= 99 {
        proof {
            lemma_lookup_at(standard_table(), 12, iterations);
        }
        ('*', Color::LightRed)
    } else {
        proof {
            lemma_lookup_at(standard_table(), 13, iterations);
        }
        ('#', Color::LightMagenta)
    }
}

/// Quantizes a count with the block-glyph table at high detail.
pub fn iterations_to_high_quality_char_and_color(iterations: u32) -> (cell: (char, Color))
    ensures
        cell == table_lookup(high_quality_table(), iterations),
{
    proof {
        assert(table_well_formed(high_quality_table()));
    }
    if iterations <= 1 {
        proof {
            lemma_lookup_at(high_quality_table(), 0, iterations);
        }
        (' ', Color::Black)
    } else if iterations <= 3 {
        proof {
            lemma_lookup_at(high_quality_table(), 1, iterations);
        }
        ('·', Color::DarkGray)
    } else if iterations <= 5 {
        proof {
            lemma_lookup_at(high_quality_table(), 2, iterations);
        }
        ('░', Color::DarkGray)
    } else if iterations <= 8 {
        proof {
            lemma_lookup_at(high_quality_table(), 3, iterations);
        }
        ('▒', Color::Gray)
    } else if iterations <= 12 {
        proof {
            lemma_lookup_at(high_quality_table(), 4, iterations);
        }
        ('▓', Color::LightBlue)
    } else if iterations <= 16 {
        proof {
            lemma_lookup_at(high_quality_table(), 5, iterations);
        }
        ('█', Color::Blue)
    } else if iterations <= 20 {
        proof {
            lemma_lookup_at(high_quality_table(), 6, iterations);
        }
        ('▉', Color::Cyan)
    } else if iterations <= 25 {
        proof {
            lemma_lookup_at(high_quality_table(), 7, iterations);
        }
        ('▊', Color::LightCyan)
    } else if iterations <= 30 {
        proof {
            lemma_lookup_at(high_quality_table(), 8, iterations);
        }
        ('▋', Color::Green)
    } else if iterations <= 35 {
        proof {
            lemma_lookup_at(high_quality_table(), 9, iterations);
        }
        ('▌', Color::LightGreen)
    } else if iterations <= 40 {
        proof {
            lemma_lookup_at(high_quality_table(), 10, iterations);
        }
        ('▍', Color::Yellow)
    } else if iterations <= 45 {
        proof {
            lemma_lookup_at(high_quality_table(), 11, iterations);
        }
        ('▎', Color::LightYellow)
    } else if iterations <= 50 {
        proof {
            lemma_lookup_at(high_quality_table(), 12, iterations);
        }
        ('▏', Color::Red)
    } else if iterations <= 60 {
        proof {
            lemma_lookup_at(high_quality_table(), 13, iterations);
        }
        ('▕', Color::LightRed)
    } else if iterations <= 70 {
        proof {
            lemma_lookup_at(high_quality_table(), 14, iterations);
        }
        ('▔', Color::Magenta)
    } else if iterations <= 80 {
        proof {
            lemma_lookup_at(high_quality_table(), 15, iterations);
        }
        ('▁', Color::LightMagenta)
    } else if iterations <= 90 {
        proof {
            lemma_lookup_at(high_quality_table(), 16, iterations);
        }
        ('▂', Color::White)
    } else if iterations <= 100 {
        proof {
            lemma_lookup_at(high_quality_table(), 17, iterations);
        }
        ('▃', Color::LightBlue)
    } else if iterations <= 120 {
        proof {
            lemma_lookup_at(high_quality_table(), 18, iterations);
        }
        ('▄', Color::Blue)
    } else if iterations <= 140 {
        proof {
            lemma_lookup_at(high_quality_table(), 19, iterations);
        }
        ('▅', Color::Cyan)
    } else if iterations <= 160 {
        proof {
            lemma_lookup_at(high_quality_table(), 20, iterations);
        }
        ('▆', Color::Green)
    } else if iterations <= 180 {
        proof {
            lemma_lookup_at(high_quality_table(), 21, iterations);
        }
        ('▇', Color::Yellow)
    } else if iterations <= 200 {
        proof {
            lemma_lookup_at(high_quality_table(), 22, iterations);
        }
        ('█', Color::Red)
    } else if iterations <= 220 {
        proof {
            lemma_lookup_at(high_quality_table(), 23, iterations);
        }
        ('▓', Color::Magenta)
    } else if iterations <= 240 {
        proof {
            lemma_lookup_at(high_quality_table(), 24, iterations);
        }
        ('▒', Color::LightMagenta)
    } else if iterations <= 255 {
        proof {
            lemma_lookup_at(high_quality_table(), 25, iterations);
        }
        ('░', Color::White)
    } else {
        proof {
            lemma_lookup_at(high_quality_table(), 26, iterations);
        }
        ('█', Color::LightMagenta)
    }
}

/// Quantizes a count with the block-glyph table of the given detail.
pub fn iterations_to_unicode_char_and_color(quality_mode: bool, iterations: u32) -> (cell: (
    char,
    Color,
))
    ensures
        cell == glyph_and_color(true, quality_mode, iterations),
{
    if quality_mode {
        iterations_to_high_quality_char_and_color(iterations)
    } else {
        iterations_to_standard_char_and_color(iterations)
    }
}

/// Quantizes a count: picks the table by the two selector flags and looks the
/// count up in it.
pub fn quantize_count(use_unicode: bool, quality_mode: bool, iterations: u32) -> (cell: (char, Color))
    ensures
        cell == glyph_and_color(use_unicode, quality_mode, iterations),
{
    if use_unicode {
        iterations_to_unicode_char_and_color(quality_mode, iterations)
    } else if quality_mode {
        iterations_to_ascii_high_quality_char_and_color(iterations)
    } else {
        iterations_to_ascii_char_and_color(iterations)
    }
}

} // verus!
