//! The geometry of the dump: how many rows a buffer takes, where a byte's
//! cell sits in its row, and where the three columns of a frame begin.
//!
//! Lengths and coordinates are whole numbers of layout units. Coordinates are
//! 128 bits wide, so that no row of a buffer that the machine can address
//! lies beyond them.

use vstd::prelude::*;

verus! {

/// The number of bytes in a full row.
pub const ROW_BYTES: usize = 16;

/// The width of the address column, in glyph widths.
pub const ADDRESS_GLYPHS: u128 = 6;

/// The gap between the hex pane and the ASCII pane, besides one glyph width.
pub const ASCII_GUTTER: u128 = 30;

/// The font size that a default configuration starts with.
pub const DEFAULT_FONT_SIZE: u32 = 14;

/// The display settings of one view.
#[derive(Clone, Copy, Debug, PartialEq, Eq, Structural)]
pub struct HexConfig {
    /// The em-size of the font: the width of a cell and the height of a row.
    pub font_size: u32,
    /// Whether the hex digits above nine are drawn as `A-F` rather than `a-f`.
    pub uppercase_hex: bool,
    /// Extra space after every byte.
    pub byte_padding: u32,
    /// Extra space after every group of two bytes.
    pub word_padding: u32,
    /// Extra space after every group of four bytes.
    pub dword_padding: u32,
    /// Extra space after every group of eight bytes.
    pub qword_padding: u32,
}

/// A point of the frame, measured from the top left corner of the view.
#[derive(Clone, Copy, Debug, PartialEq, Eq, Structural)]
pub struct Pos {
    /// The distance from the left edge.
    pub x: u128,
    /// The distance from the top edge.
    pub y: u128,
}

/// What the host's scrolling area needs to know before it can say which rows
/// are in view, and where the columns of the frame begin.
#[derive(Clone, Copy, Debug, PartialEq, Eq, Structural)]
pub struct ScrollLayout {
    /// The height of every row.
    pub row_height: u32,
    /// The number of rows that hold data.
    pub total_rows: usize,
    /// The number of rows that the scrolling area is asked to lay out: the
    /// data rows, and as many empty ones as fit the viewport, so that the last
    /// data row can be scrolled up to the top.
    pub scroll_rows: u64,
    /// Where the hex pane begins.
    pub hex_x: u128,
    /// Where the ASCII pane begins.
    pub ascii_x: u128,
    /// The width of a whole row, the ASCII pane included.
    pub total_width: u128,
}

/// The number of rows that `length` bytes take: `length / 16`, rounded up.
pub open spec fn total_rows(length: nat) -> nat {
    (length + 15) / 16
}

/// The number of bytes in row `row` of a buffer of `length` bytes: sixteen,
/// or what is left of the buffer in its last row.
pub open spec fn row_len(length: nat, row: nat) -> nat {
    if row * 16 >= length {
        0
    } else if length - row * 16 >= 16 {
        16
    } else {
        (length - row * 16) as nat
    }
}

/// The horizontal offset of column `column` from the start of the hex pane:
/// one glyph width and one byte padding for every column before it, and one
/// word, dword and qword padding for every full group of two, four and eight
/// columns before it.
pub open spec fn byte_cell_offset(config: HexConfig, column: int) -> int {
    column * config.font_size + column * config.byte_padding + (column / 2) * config.word_padding
        + (column / 4) * config.dword_padding + (column / 8) * config.qword_padding
}

/// Where the hex pane begins: after the address column.
pub open spec fn hex_start(config: HexConfig) -> int {
    ADDRESS_GLYPHS * config.font_size
}

/// Where the ASCII pane begins: after the last cell of the hex pane, one
/// glyph width and the gutter.
pub open spec fn ascii_start(config: HexConfig) -> int {
    hex_start(config) + byte_cell_offset(config, 15) + config.font_size + ASCII_GUTTER
}

/// The horizontal place of column `column` in the ASCII pane.
pub open spec fn ascii_cell_x(config: HexConfig, column: int) -> int {
    ascii_start(config) + column * config.font_size
}

/// The width of a whole row: up to the end of the sixteenth cell of the
/// ASCII pane.
pub open spec fn row_width(config: HexConfig) -> int {
    ascii_start(config) + 16 * config.font_size
}

/// The number of rows of a viewport that is `available_height` high.
pub open spec fn viewport_rows(config: HexConfig, available_height: u32) -> int {
    available_height as int / config.font_size as int
}

/// The configuration that a view starts with when it is given none: the
/// default font size, lower-case digits and no padding.
pub open spec fn default_config() -> HexConfig {
    HexConfig {
        font_size: DEFAULT_FONT_SIZE,
        uppercase_hex: false,
        byte_padding: 0,
        word_padding: 0,
        dword_padding: 0,
        qword_padding: 0,
    }
}

impl Default for HexConfig {
    fn default() -> (config: HexConfig)
        ensures
            config == default_config(),
    {
        HexConfig {
            font_size: DEFAULT_FONT_SIZE,
            uppercase_hex: false,
            byte_padding: 0,
            word_padding: 0,
            dword_padding: 0,
            qword_padding: 0,
        }
    }
}

/// The largest product of a count with a length of the configuration.
pub open spec fn scaled_max() -> int {
    0xffff_ffff_ffff_ffffint * 0xffff_ffffint
}

/// A count of columns or rows times a length of the configuration lies
/// between zero and `scaled_max()`.
pub proof fn lemma_scaled_bound(count: int, unit: int)
    requires
        0 <= count <= usize::MAX,
        0 <= unit <= u32::MAX,
    ensures
        0 <= count * unit <= scaled_max(),
{
    assert(0 <= count * unit <= 0xffff_ffff_ffff_ffff * 0xffff_ffff) by (nonlinear_arith)
        requires
            0 <= count <= 0xffff_ffff_ffff_ffff,
            0 <= unit <= 0xffff_ffff,
    ;
}

/// The offset of a column is never negative and at most five times
/// `scaled_max()`; the start of the ASCII pane is at most seven times that
/// and the gutter.
pub proof fn lemma_offsets_bounded(config: HexConfig, column: int)
    requires
        0 <= column <= usize::MAX,
    ensures
        0 <= byte_cell_offset(config, column) <= 5 * scaled_max(),
        0 <= hex_start(config) <= scaled_max(),
        0 <= ascii_start(config) <= 7 * scaled_max() + ASCII_GUTTER,
        0 <= ascii_cell_x(config, column) <= 8 * scaled_max() + ASCII_GUTTER,
{
    lemma_scaled_bound(column, config.font_size as int);
    lemma_scaled_bound(column, config.byte_padding as int);
    lemma_scaled_bound(column / 2, config.word_padding as int);
    lemma_scaled_bound(column / 4, config.dword_padding as int);
    lemma_scaled_bound(column / 8, config.qword_padding as int);
    lemma_scaled_bound(15, config.font_size as int);
    lemma_scaled_bound(15, config.byte_padding as int);
    lemma_scaled_bound(7, config.word_padding as int);
    lemma_scaled_bound(3, config.dword_padding as int);
    lemma_scaled_bound(1, config.qword_padding as int);
}

/// The first column sits at the start of the hex pane, whatever the padding.
pub proof fn lemma_cell_offset_zero(config: HexConfig)
    ensures
        byte_cell_offset(config, 0) == 0,
{
    lemma_nothing_of(config.font_size as int);
    lemma_nothing_of(config.byte_padding as int);
    lemma_nothing_of(config.word_padding as int);
    lemma_nothing_of(config.dword_padding as int);
    lemma_nothing_of(config.qword_padding as int);
}

/// No groups of a padding take no space.
proof fn lemma_nothing_of(unit: int)
    ensures
        0 * unit == 0,
{
    assert(0 * unit == 0) by (nonlinear_arith);
}

/// A column further right sits further right: the offset is strictly
/// increasing in the column as long as the glyph width is not zero.
pub proof fn lemma_cell_offset_increasing(config: HexConfig, left: int, right: int)
    requires
        config.font_size > 0,
        0 <= left < right,
    ensures
        byte_cell_offset(config, left) < byte_cell_offset(config, right),
{
    let size = config.font_size as int;
    assert(left * size < right * size) by (nonlinear_arith)
        requires
            size > 0,
            0 <= left < right,
    ;
    lemma_padding_monotonic(left, right, config.byte_padding as int);
    lemma_padding_monotonic(left / 2, right / 2, config.word_padding as int);
    lemma_padding_monotonic(left / 4, right / 4, config.dword_padding as int);
    lemma_padding_monotonic(left / 8, right / 8, config.qword_padding as int);
}

/// More groups of a padding take at least as much space.
proof fn lemma_padding_monotonic(fewer: int, more: int, padding: int)
    requires
        0 <= fewer <= more,
        0 <= padding,
    ensures
        fewer * padding <= more * padding,
{
    assert(fewer * padding <= more * padding) by (nonlinear_arith)
        requires
            0 <= fewer <= more,
            0 <= padding,
    ;
}

/// The number of rows is the length divided by sixteen, rounded up: the
/// least number of rows of sixteen bytes that hold the whole buffer.
pub proof fn lemma_total_rows_is_ceiling(length: nat)
    ensures
        total_rows(length) * 16 >= length,
        length > 0 ==> (total_rows(length) - 1) * 16 < length,
        length == 0 ==> total_rows(length) == 0,
        length % 16 == 0 ==> total_rows(length) == length / 16,
        length % 16 != 0 ==> total_rows(length) == length / 16 + 1,
{
}

/// Every row before the last is full; the last row of a buffer that is not
/// empty holds `length % 16` bytes, or sixteen where that is zero; and there
/// is no row after the last.
pub proof fn lemma_row_lengths(length: nat, row: nat)
    ensures
        row + 1 < total_rows(length) ==> row_len(length, row) == 16,
        row + 1 == total_rows(length) ==> row_len(length, row) == (if length % 16 != 0 {
            length % 16
        } else {
            16
        }),
        row >= total_rows(length) ==> row_len(length, row) == 0,
        row < total_rows(length) ==> row * 16 + row_len(length, row) <= length,
{
}

/// The product of a count with a length of the configuration.
fn scaled(count: usize, unit: u32) -> (product: u128)
    ensures
        product == count * unit,
{
    proof {
        lemma_scaled_bound(count as int, unit as int);
    }
    (count as u128) * (unit as u128)
}

impl HexConfig {
    /// Computes the horizontal offset of a column from the start of the hex
    /// pane.
    pub fn cell_offset(&self, column: usize) -> (offset: u128)
        ensures
            offset == byte_cell_offset(*self, column as int),
    {
        proof {
            lemma_offsets_bounded(*self, column as int);
        }
        let cells: u128 = scaled(column, self.font_size);
        let bytes: u128 = scaled(column, self.byte_padding);
        let words: u128 = scaled(column / 2, self.word_padding);
        let dwords: u128 = scaled(column / 4, self.dword_padding);
        let qwords: u128 = scaled(column / 8, self.qword_padding);
        cells + bytes + words + dwords + qwords
    }

    /// Computes where the hex pane begins.
    pub fn hex_x(&self) -> (x: u128)
        ensures
            x == hex_start(*self),
    {
        proof {
            lemma_offsets_bounded(*self, 0);
        }
        ADDRESS_GLYPHS * (self.font_size as u128)
    }

    /// Computes where the ASCII pane begins.
    pub fn ascii_x(&self) -> (x: u128)
        ensures
            x == ascii_start(*self),
    {
        proof {
            lemma_offsets_bounded(*self, 15);
        }
        self.hex_x() + self.cell_offset(15) + (self.font_size as u128) + ASCII_GUTTER
    }

    /// Computes the horizontal place of a column in the ASCII pane.
    pub fn ascii_cell(&self, column: usize) -> (x: u128)
        ensures
            x == ascii_cell_x(*self, column as int),
    {
        proof {
            lemma_offsets_bounded(*self, column as int);
        }
        self.ascii_x() + scaled(column, self.font_size)
    }
}

/// Counts the rows that `length` bytes take.
pub fn row_count(length: usize) -> (rows: usize)
    ensures
        rows == total_rows(length as nat),
{
    if length % ROW_BYTES == 0 {
        length / ROW_BYTES
    } else {
        length / ROW_BYTES + 1
    }
}

/// Lays out a frame over `length` bytes for a viewport that is
/// `available_height` high. The row height must not be zero.
pub fn scroll_layout(config: &HexConfig, length: usize, available_height: u32) -> (layout:
    ScrollLayout)
    requires
        config.font_size > 0,
    ensures
        layout.row_height == config.font_size,
        layout.total_rows == total_rows(length as nat),
        layout.scroll_rows == total_rows(length as nat) + viewport_rows(*config, available_height),
        layout.hex_x == hex_start(*config),
        layout.ascii_x == ascii_start(*config),
        layout.total_width == row_width(*config),
{
    proof {
        lemma_offsets_bounded(*config, 16);
    }
    let rows: usize = row_count(length);
    let spare_rows: u32 = available_height / config.font_size;
    let ascii_x: u128 = config.ascii_x();
    ScrollLayout {
        row_height: config.font_size,
        total_rows: rows,
        scroll_rows: rows as u64 + spare_rows as u64,
        hex_x: config.hex_x(),
        ascii_x,
        total_width: ascii_x + 16 * (config.font_size as u128),
    }
}

} // verus!
