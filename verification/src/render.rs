//! One frame of the dump: for every row that the host has scrolled into view,
//! the address label and the cells of the bytes in it, each with its place,
//! its text and its tone.

use crate::glyph::{ascii_glyph, ascii_glyph_of, hex_glyph_of, hex_tone, hex_tone_of, HexGlyph, Tone};
use crate::label::{address_label, address_text, lemma_address_text_injective};
use crate::layout::{
    ascii_cell_x, byte_cell_offset, hex_start, lemma_cell_offset_zero, lemma_offsets_bounded,
    lemma_scaled_bound, row_count, row_len, total_rows, HexConfig, Pos,
};
use crate::source::ByteProvider;
use crate::state::{glyph_table, refresh_galleys, HexState};
use std::ops::Range;
use vstd::prelude::*;

verus! {

/// One byte of a row, as it is drawn in both panes.
#[derive(Clone, Copy, Debug, PartialEq, Eq, Structural)]
pub struct CellDraw {
    /// The column of the byte in its row, from zero.
    pub column: usize,
    /// The byte.
    pub value: u8,
    /// Where its two hex digits go.
    pub hex_pos: Pos,
    /// Its two hex digits, as the cache holds them.
    pub hex_glyph: HexGlyph,
    /// The tone of the hex digits.
    pub hex_tone: Tone,
    /// Where its glyph in the ASCII pane goes.
    pub ascii_pos: Pos,
    /// Its glyph in the ASCII pane.
    pub ascii_glyph: char,
    /// The tone of that glyph.
    pub ascii_tone: Tone,
}

/// One row of a frame.
#[derive(Debug)]
pub struct RowDraw {
    /// The index of the row, counted from the start of the buffer.
    pub row: usize,
    /// The address of the first byte of the row.
    pub address: usize,
    /// The address label.
    pub label: String,
    /// Where the address label goes.
    pub label_pos: Pos,
    /// The tone of the address label.
    pub label_tone: Tone,
    /// The cells of the bytes that the row holds, in column order.
    pub cells: Vec<CellDraw>,
}

/// One frame of the dump.
#[derive(Debug)]
pub struct Frame {
    /// The rows in view that hold data, from the top of the window down.
    pub rows: Vec<RowDraw>,
    /// Whether the cache of text runs was filled while the frame was drawn.
    /// What the host has shaped from the cache is out of date then.
    pub galleys_refreshed: bool,
}

/// The distance of row `row` from the top of a window whose first row is
/// `first_row`.
pub open spec fn row_top(config: HexConfig, row: int, first_row: int) -> int {
    (row - first_row) * config.font_size
}

/// Whether `cell` is the cell of the byte `value` at column `column` of a row
/// whose top is at `top`.
pub open spec fn cell_is(
    cell: CellDraw,
    config: HexConfig,
    value: u8,
    column: int,
    top: int,
) -> bool {
    &&& cell.column == column
    &&& cell.value == value
    &&& cell.hex_pos.x == hex_start(config) + byte_cell_offset(config, column)
    &&& cell.hex_pos.y == top
    &&& cell.hex_glyph == hex_glyph_of(value, config.uppercase_hex)
    &&& cell.hex_tone == hex_tone_of(value)
    &&& cell.ascii_pos.x == ascii_cell_x(config, column)
    &&& cell.ascii_pos.y == top
    &&& cell.ascii_glyph == ascii_glyph_of(value).0
    &&& cell.ascii_tone == ascii_glyph_of(value).1
}

/// Whether `drawn` is row `row` of the dump of `bytes`, in a window whose
/// first row is `first_row`: the dim label of its address at the left edge,
/// and one cell for each byte that the buffer has in that row.
pub open spec fn row_is(
    drawn: RowDraw,
    config: HexConfig,
    bytes: Seq<u8>,
    row: int,
    first_row: int,
) -> bool {
    &&& drawn.row == row
    &&& drawn.address == row * 16
    &&& drawn.label@ == address_text((row * 16) as nat)
    &&& drawn.label_pos.x == 0
    &&& drawn.label_pos.y == row_top(config, row, first_row)
    &&& drawn.label_tone == Tone::Dim
    &&& drawn.cells@.len() == row_len(bytes.len(), row as nat)
    &&& forall|column: int|
        0 <= column < drawn.cells@.len() ==> cell_is(
            #[trigger] drawn.cells@[column],
            config,
            bytes[row * 16 + column],
            column,
            row_top(config, row, first_row),
        )
}

/// The number of rows that a frame shows when the host asks for the rows
/// from `start` up to `end`: those of them that hold data.
pub open spec fn shown_rows(length: nat, start: int, end: int) -> nat {
    if start < end && start < total_rows(length) {
        if end <= total_rows(length) {
            (end - start) as nat
        } else {
            (total_rows(length) - start) as nat
        }
    } else {
        0
    }
}

/// A window that begins at the first row and ends at or after the last shows
/// as many rows as the buffer has.
pub proof fn lemma_full_window(length: nat, end: int)
    requires
        end >= total_rows(length),
    ensures
        shown_rows(length, 0, end) == total_rows(length),
{
}

/// Two windows that meet show together what the window over both shows: no
/// row is left out and none is shown twice.
pub proof fn lemma_windows_tile(length: nat, start: int, middle: int, end: int)
    requires
        0 <= start <= middle <= end,
    ensures
        shown_rows(length, start, middle) + shown_rows(length, middle, end) == shown_rows(
            length,
            start,
            end,
        ),
{
}

/// The rows of a frame come in address order without gaps: the first is the
/// first row of the window, each next one begins sixteen bytes further, and
/// no two of them have the same address or the same label.
pub proof fn lemma_frame_addresses(
    frame: Seq<RowDraw>,
    config: HexConfig,
    bytes: Seq<u8>,
    start: int,
    end: int,
)
    requires
        0 <= start,
        frame.len() == shown_rows(bytes.len(), start, end),
        forall|i: int|
            0 <= i < frame.len() ==> row_is(#[trigger] frame[i], config, bytes, start + i, start),
    ensures
        forall|i: int| 0 <= i < frame.len() ==> (#[trigger] frame[i]).address == (start + i) * 16,
        forall|i: int|
            0 <= i && i + 1 < frame.len() ==> (#[trigger] frame[i + 1]).address == frame[i].address + 16,
        forall|i: int, j: int|
            0 <= i < j < frame.len() ==> (#[trigger] frame[i]).address < (#[trigger] frame[j]).address,
        forall|i: int, j: int|
            0 <= i < j < frame.len() ==> (#[trigger] frame[i]).label@ != (#[trigger] frame[j]).label@,
{
    assert forall|i: int, j: int| 0 <= i < j < frame.len() implies (#[trigger] frame[i]).label@ != (
    #[trigger] frame[j]).label@ by {
        if frame[i].label@ == frame[j].label@ {
            lemma_address_text_injective(((start + i) * 16) as nat, ((start + j) * 16) as nat);
        }
    }
}

/// Computes the place of the byte at `index`, measured from the start of the
/// hex pane and from the top of the first row of the buffer.
pub fn byte_pos(state: &HexState, index: usize) -> (pos: Pos)
    ensures
        pos.x == byte_cell_offset(state@.config, index as int % 16),
        pos.y == (index as int / 16) * state@.config.font_size,
{
    let config: HexConfig = state.config();
    let line: usize = index / 16;
    let column: usize = index % 16;
    proof {
        lemma_scaled_bound(line as int, config.font_size as int);
    }
    Pos { x: config.cell_offset(column), y: (line as u128) * (config.font_size as u128) }
}

/// Computes the distance of row `row` from the top of a window whose first
/// row is `first_row`.
fn window_top(state: &HexState, row: usize, first_row: usize) -> (top: u128)
    requires
        first_row <= row,
        row * 16 <= usize::MAX,
    ensures
        top == row_top(state@.config, row as int, first_row as int),
{
    let at: Pos = byte_pos(state, row * 16);
    let skipped: Pos = byte_pos(state, first_row * 16);
    proof {
        let size = state@.config.font_size as int;
        lemma_scaled_bound(row as int, size);
        lemma_scaled_bound(first_row as int, size);
        assert((row - first_row) * size == row * size - first_row * size) by (nonlinear_arith);
    }
    at.y - skipped.y
}

/// Draws one cell: the byte `value` at column `column` of a row whose top is
/// at `top`.
fn draw_cell(state: &mut HexState, value: u8, column: usize, top: u128) -> (cell: CellDraw)
    requires
        column < 16,
    ensures
        final(state)@.config == old(state)@.config,
        final(state)@.galleys == glyph_table(old(state)@.config.uppercase_hex),
        cell_is(cell, old(state)@.config, value, column as int, top as int),
{
    let config: HexConfig = state.config();
    let at: Pos = byte_pos(state, column);
    proof {
        lemma_offsets_bounded(config, column as int);
    }
    let shown: (char, Tone) = ascii_glyph(value);
    if !state.galleys_current() {
        refresh_galleys(state);
    }
    let hex_glyph: HexGlyph = state.galley(value).unwrap();
    CellDraw {
        column,
        value,
        hex_pos: Pos { x: config.hex_x() + at.x, y: top },
        hex_glyph,
        hex_tone: hex_tone(value),
        ascii_pos: Pos { x: config.ascii_cell(column), y: top },
        ascii_glyph: shown.0,
        ascii_tone: shown.1,
    }
}

/// Draws the cells of the bytes in `row_data`, the bytes of one row, from the
/// first column on.
fn draw_cells(state: &mut HexState, row_data: &[u8], top: u128) -> (cells: Vec<CellDraw>)
    requires
        0 < row_data@.len() <= 16,
    ensures
        final(state)@.config == old(state)@.config,
        final(state)@.galleys == glyph_table(old(state)@.config.uppercase_hex),
        cells@.len() == row_data@.len(),
        forall|column: int|
            0 <= column < cells@.len() ==> cell_is(
                #[trigger] cells@[column],
                old(state)@.config,
                row_data@[column],
                column,
                top as int,
            ),
{
    let ghost config = state@.config;
    let mut cells: Vec<CellDraw> = Vec::new();
    let mut column: usize = 0;
    while column < row_data.len()
        invariant
            column <= row_data@.len() <= 16,
            state@.config == config,
            column > 0 ==> state@.galleys == glyph_table(config.uppercase_hex),
            cells@.len() == column,
            forall|c: int|
                0 <= c < column ==> cell_is(#[trigger] cells@[c], config, row_data@[c], c, top as int),
        decreases row_data@.len() - column,
    {
        let cell: CellDraw = draw_cell(state, row_data[column], column, top);
        cells.push(cell);
        column = column + 1;
    }
    cells
}

/// Draws row `row` of the dump in a window whose first row is `first_row`.
fn draw_row<B: ByteProvider>(
    state: &mut HexState,
    data: &B,
    length: usize,
    row: usize,
    first_row: usize,
) -> (drawn: RowDraw)
    requires
        length == data.bytes().len(),
        first_row <= row < total_rows(length as nat),
    ensures
        final(state)@.config == old(state)@.config,
        final(state)@.galleys == glyph_table(old(state)@.config.uppercase_hex),
        row_is(drawn, old(state)@.config, data.bytes(), row as int, first_row as int),
{
    let ghost config = state@.config;
    let ghost bytes = data.bytes();
    let address: usize = row * 16;
    let end: usize = if length - address > 16 { address + 16 } else { length };
    let top: u128 = window_top(state, row, first_row);
    let at: Pos = byte_pos(state, address);
    proof {
        lemma_cell_offset_zero(config);
    }
    let cells: Vec<CellDraw> = match data.get_range(Range { start: address, end }) {
        Some(row_data) => {
            assert(row_data@ == bytes.subrange(address as int, end as int));
            draw_cells(state, row_data, top)
        },
        None => Vec::new(),
    };
    assert(cells@.len() == row_len(bytes.len(), row as nat));
    assert forall|column: int| 0 <= column < cells@.len() implies cell_is(
        #[trigger] cells@[column],
        config,
        bytes[row * 16 + column],
        column,
        top as int,
    ) by {
        assert(bytes.subrange(address as int, end as int)[column] == bytes[address + column]);
    }
    RowDraw {
        row,
        address,
        label: address_label(address),
        label_pos: Pos { x: at.x, y: top },
        label_tone: Tone::Dim,
        cells,
    }
}

/// Draws one frame: the rows from `row_range.start` up to `row_range.end`
/// that hold data, in a window whose first row is `row_range.start`.
///
/// The first byte that is drawn finds the cache of text runs filled for the
/// digit case of the configuration, or fills it; a frame without a byte
/// leaves the cache alone.
pub fn draw_scroll<B: ByteProvider>(
    state: &mut HexState,
    data: B,
    row_range: Range<usize>,
) -> (frame: Frame)
    ensures
        final(state)@.config == old(state)@.config,
        final(state)@.galleys == (if frame.rows@.len() > 0 {
            glyph_table(old(state)@.config.uppercase_hex)
        } else {
            old(state)@.galleys
        }),
        frame.galleys_refreshed == (frame.rows@.len() > 0 && old(state)@.galleys != glyph_table(
            old(state)@.config.uppercase_hex,
        )),
        frame.rows@.len() == shown_rows(
            data.bytes().len(),
            row_range.start as int,
            row_range.end as int,
        ),
        forall|i: int|
            0 <= i < frame.rows@.len() ==> row_is(
                #[trigger] frame.rows@[i],
                old(state)@.config,
                data.bytes(),
                row_range.start + i,
                row_range.start as int,
            ),
{
    let ghost config = state@.config;
    let stale: bool = !state.galleys_current();
    let length: usize = data.len();
    let total: usize = row_count(length);
    let first_row: usize = row_range.start;
    let mut rows: Vec<RowDraw> = Vec::new();
    let mut row: usize = first_row;
    while row < row_range.end && row < total
        invariant
            first_row <= row,
            first_row == row_range.start,
            length == data.bytes().len(),
            total == total_rows(length as nat),
            row > first_row ==> row <= row_range.end && row <= total,
            state@.config == config,
            state@.galleys == (if row > first_row {
                glyph_table(config.uppercase_hex)
            } else {
                old(state)@.galleys
            }),
            rows@.len() == row - first_row,
            forall|i: int|
                0 <= i < rows@.len() ==> row_is(
                    #[trigger] rows@[i],
                    config,
                    data.bytes(),
                    first_row + i,
                    first_row as int,
                ),
        decreases total - row,
    {
        let drawn: RowDraw = draw_row(state, &data, length, row, first_row);
        rows.push(drawn);
        row = row + 1;
    }
    let galleys_refreshed: bool = stale && rows.len() > 0;
    Frame { rows, galleys_refreshed }
}

} // verus!
