//! What holds of every result, stated over the characters of its text.
//!
//! A result is the text of a grid that is valid for the parameters. The
//! blocks of the grid stand in the text at fixed positions: each row takes
//! `width + 1` characters, its blocks and a line break.

use crate::layout::{attribution, grid_lines, is_glyph, joined, terminated};
use crate::result_generator::Colours;
use crate::Parameters;
use vstd::prelude::*;

verus! {

/// Where the block in row `r` and column `c` stands in the text of a grid
/// whose rows are `width` blocks wide.
pub open spec fn block_position(width: int, r: int, c: int) -> int {
    r * (width + 1) + c
}

/// Rows lie one after the other, `width + 1` characters apart.
pub proof fn lemma_block_position(width: int, r: int, c: int)
    requires
        0 <= width,
        0 <= r,
        0 <= c <= width,
    ensures
        block_position(width, 0, c) == c,
        block_position(width, r + 1, 0) == block_position(width, r, width) + 1,
        block_position(width, r, c) == block_position(width, r, 0) + c,
        0 <= block_position(width, r, 0),
        forall|s: int| r < s ==> block_position(width, r, c) < #[trigger] block_position(width, s, 0),
{
    assert((r + 1) * (width + 1) == r * (width + 1) + width + 1) by (nonlinear_arith);
    assert(0 <= r * (width + 1)) by (nonlinear_arith)
        requires
            0 <= r,
            0 <= width,
    ;
    assert forall|s: int| r < s implies block_position(width, r, c) < #[trigger] block_position(
        width,
        s,
        0,
    ) by {
        assert((r + 1) * (width + 1) <= s * (width + 1)) by (nonlinear_arith)
            requires
                r + 1 <= s,
                0 <= width,
        ;
    }
}

/// In lines of equal length that each end in a break, every character has
/// its place, and the breaks stand at the end of each line.
pub proof fn lemma_terminated_positions(lines: Seq<Seq<char>>, width: int)
    requires
        0 <= width,
        forall|r: int| 0 <= r < lines.len() ==> (#[trigger] lines[r]).len() == width,
    ensures
        terminated(lines).len() == block_position(width, lines.len() as int, 0),
        forall|r: int, c: int|
            0 <= r < lines.len() && 0 <= c < width ==> terminated(lines)[block_position(
                width,
                r,
                c,
            )] == #[trigger] lines[r][c],
        forall|r: int|
            0 <= r < lines.len() ==> terminated(lines)[#[trigger] block_position(width, r, width)]
                == '\n',
    decreases lines.len(),
{
    if lines.len() > 0 {
        let rest = lines.drop_last();
        let last_row = lines.len() - 1;
        lemma_terminated_positions(rest, width);
        lemma_block_position(width, last_row, 0);
        assert forall|r: int, c: int| 0 <= r < lines.len() && 0 <= c < width implies terminated(
            lines,
        )[block_position(width, r, c)] == #[trigger] lines[r][c] by {
            lemma_block_position(width, r, c);
            if r < last_row {
                assert(rest[r][c] == lines[r][c]);
            }
        }
        assert forall|r: int| 0 <= r < lines.len() implies terminated(
            lines,
        )[#[trigger] block_position(width, r, width)] == '\n' by {
            lemma_block_position(width, r, width);
        }
    }
}

/// In lines of equal length with breaks between them, every character has
/// its place, and a break stands after each line but the last.
pub proof fn lemma_joined_positions(lines: Seq<Seq<char>>, width: int)
    requires
        0 <= width,
        lines.len() >= 1,
        forall|r: int| 0 <= r < lines.len() ==> (#[trigger] lines[r]).len() == width,
    ensures
        joined(lines).len() == block_position(width, lines.len() as int, 0) - 1,
        forall|r: int, c: int|
            0 <= r < lines.len() && 0 <= c < width ==> joined(lines)[block_position(width, r, c)]
                == #[trigger] lines[r][c],
        forall|r: int|
            0 <= r < lines.len() - 1 ==> joined(lines)[#[trigger] block_position(width, r, width)]
                == '\n',
{
    let rest = lines.drop_last();
    let last_row = lines.len() - 1;
    lemma_terminated_positions(rest, width);
    lemma_block_position(width, last_row, 0);
    assert forall|r: int, c: int| 0 <= r < lines.len() && 0 <= c < width implies joined(
        lines,
    )[block_position(width, r, c)] == #[trigger] lines[r][c] by {
        lemma_block_position(width, r, c);
        if r < last_row {
            assert(rest[r][c] == lines[r][c]);
        }
    }
    assert forall|r: int| 0 <= r < lines.len() - 1 implies joined(
        lines,
    )[#[trigger] block_position(width, r, width)] == '\n' by {
        lemma_block_position(width, r, width);
    }
}

/// The text of a valid grid holds the glyph of each block at the block's
/// position, a line break after each row but the last, and after the last
/// row too in a column; and nothing else.
pub proof fn law_body_positions(params: Parameters, grid: Seq<Seq<Colours>>)
    requires
        params.valid_grid(grid),
    ensures
        params.body_text(grid).len() == block_position(
            params.width as int,
            params.height as int,
            0,
        ) - if params.layout() is Column {
            0int
        } else {
            1int
        },
        forall|r: int, c: int|
            0 <= r < params.height && 0 <= c < params.width ==> params.body_text(
                grid,
            )[block_position(params.width as int, r, c)] == (#[trigger] grid[r][c]).glyph(),
        forall|r: int|
            0 <= r < params.height && (r < params.height - 1 || params.layout() is Column)
                ==> params.body_text(grid)[#[trigger] block_position(
                params.width as int,
                r,
                params.width as int,
            )] == '\n',
{
    let lines = grid_lines(grid);
    let width = params.width as int;
    lemma_terminated_positions(lines, width);
    lemma_joined_positions(lines, width);
    assert forall|r: int, c: int| 0 <= r < params.height && 0 <= c < params.width implies params.body_text(
        grid,
    )[block_position(width, r, c)] == (#[trigger] grid[r][c]).glyph() by {
        assert(lines[r][c] == grid[r][c].glyph());
    }
}

/// No block is shown by a line break, and green is shown by no other
/// colour's character.
pub proof fn lemma_glyphs(colour: Colours)
    ensures
        is_glyph(colour.glyph()),
        colour.glyph() != '\n',
        colour != Colours::Green ==> colour.glyph() != Colours::Green.glyph(),
{
}

/// A result one line high: its blocks are `width` glyphs and nothing else,
/// so no line break stands among them.
pub proof fn law_row_is_one_line(params: Parameters, grid: Seq<Seq<Colours>>)
    requires
        params.height == 1,
        params.valid_grid(grid),
    ensures
        params.body_text(grid).len() == params.width,
        forall|i: int|
            0 <= i < params.width ==> is_glyph(#[trigger] params.body_text(grid)[i])
                && params.body_text(grid)[i] != '\n',
{
    law_body_positions(params, grid);
}

/// A result one block wide and more than one line high: its blocks are
/// `height` lines, each one glyph and a line break.
pub proof fn law_column_lines(params: Parameters, grid: Seq<Seq<Colours>>)
    requires
        params.width == 1,
        params.height > 1,
        params.valid_grid(grid),
    ensures
        params.body_text(grid).len() == 2 * params.height,
        forall|r: int|
            0 <= r < params.height ==> params.body_text(grid)[2 * r] == (#[trigger] grid[r])[0].glyph()
                && is_glyph(params.body_text(grid)[2 * r]) && params.body_text(grid)[2 * r + 1]
                == '\n',
{
    law_body_positions(params, grid);
    assert forall|r: int| 0 <= r < params.height implies params.body_text(grid)[2 * r] == (
    #[trigger] grid[r])[0].glyph() && is_glyph(params.body_text(grid)[2 * r]) && params.body_text(
        grid,
    )[2 * r + 1] == '\n' by {
        assert(block_position(1, r, 1) == 2 * r + 1);
        lemma_glyphs(grid[r][0]);
    }
}

/// A result more than one block wide and more than one line high: its
/// blocks are `height` lines of `width` glyphs each, with a line break
/// between each two lines and none at the end.
pub proof fn law_table_lines(params: Parameters, grid: Seq<Seq<Colours>>)
    requires
        params.width > 1,
        params.height > 1,
        params.valid_grid(grid),
    ensures
        params.body_text(grid).len() == params.height * (params.width + 1) - 1,
        forall|r: int, c: int|
            0 <= r < params.height && 0 <= c < params.width ==> params.body_text(grid)[r * (
            params.width + 1) + c] == (#[trigger] grid[r][c]).glyph() && is_glyph(
                params.body_text(grid)[r * (params.width + 1) + c],
            ),
        forall|r: int|
            0 <= r < params.height - 1 ==> params.body_text(grid)[#[trigger] block_position(
                params.width as int,
                r,
                params.width as int,
            )] == '\n',
{
    law_body_positions(params, grid);
}

/// On a win a row or a column ends in a green block, and the last row of a
/// table is green throughout.
pub proof fn law_win_ends_green(params: Parameters, grid: Seq<Seq<Colours>>)
    requires
        params.winning,
        params.valid_grid(grid),
    ensures
        !(params.layout() is Tabular) ==> params.body_text(grid)[block_position(
            params.width as int,
            params.height - 1,
            params.width - 1,
        )] == Colours::Green.glyph(),
        params.layout() is Tabular ==> forall|c: int|
            0 <= c < params.width ==> params.body_text(grid)[#[trigger] block_position(
                params.width as int,
                params.height - 1,
                c,
            )] == Colours::Green.glyph(),
{
    let width = params.width as int;
    let last_row = params.height - 1;
    law_body_positions(params, grid);
    if params.layout() is Tabular {
        assert forall|c: int| 0 <= c < params.width implies params.body_text(
            grid,
        )[#[trigger] block_position(width, last_row, c)] == Colours::Green.glyph() by {
            assert(grid[last_row][c] == Colours::Green);
        }
    }
}

/// Without a win a row or a column ends in a block of some colour of the
/// palette.
pub proof fn law_loss_ends_in_palette(params: Parameters, grid: Seq<Seq<Colours>>)
    requires
        !params.winning,
        !(params.layout() is Tabular),
        params.valid_grid(grid),
    ensures
        exists|colour: Colours|
            params.palette().contains(colour) && params.body_text(grid)[block_position(
                params.width as int,
                params.height - 1,
                params.width - 1,
            )] == #[trigger] colour.glyph(),
{
    law_body_positions(params, grid);
}

/// The grid with its last block replaced.
pub open spec fn with_last_block(grid: Seq<Seq<Colours>>, colour: Colours) -> Seq<Seq<Colours>> {
    grid.update(grid.len() - 1, grid.last().update(grid.last().len() - 1, colour))
}

/// Without a win every colour of the palette, green too, may be the last
/// block of a row or a column.
pub proof fn law_loss_allows_every_colour(
    params: Parameters,
    grid: Seq<Seq<Colours>>,
    colour: Colours,
)
    requires
        !params.winning,
        !(params.layout() is Tabular),
        params.valid_grid(grid),
        params.palette().contains(colour),
    ensures
        params.valid_grid(with_last_block(grid, colour)),
{
}

/// In a row or a column no block before the last is green, win or not.
pub proof fn law_no_early_green(params: Parameters, grid: Seq<Seq<Colours>>)
    requires
        !(params.layout() is Tabular),
        params.valid_grid(grid),
    ensures
        forall|r: int, c: int|
            0 <= r < params.height && 0 <= c < params.width && !(r == params.height - 1 && c
                == params.width - 1) ==> params.body_text(grid)[#[trigger] block_position(
                params.width as int,
                r,
                c,
            )] != Colours::Green.glyph(),
{
    law_body_positions(params, grid);
    assert forall|r: int, c: int|
        0 <= r < params.height && 0 <= c < params.width && !(r == params.height - 1 && c
            == params.width - 1) implies params.body_text(grid)[#[trigger] block_position(
        params.width as int,
        r,
        c,
    )] != Colours::Green.glyph() by {
        lemma_glyphs(grid[r][c]);
    }
}

/// A result is framed: a blank marker and a line break, the name, exactly
/// one empty line, the blocks, which begin with a glyph, one more empty line
/// and the credit line, which ends the text.
pub proof fn law_frame(params: Parameters, grid: Seq<Seq<Colours>>)
    requires
        params.valid_grid(grid),
    ensures
        ({
            let text = params.result_text(grid);
            let name = params.name@;
            let body = params.body_text(grid);
            let start = 4 + name.len() as int;
            let end = start + body.len() as int;
            &&& text.len() == end + 2 + attribution().len()
            &&& text[0] == '⠀'
            &&& text[1] == '\n'
            &&& text.subrange(2, start - 2) == name
            &&& text[start - 2] == '\n'
            &&& text[start - 1] == '\n'
            &&& text.subrange(start, end) == body
            &&& body.len() > 0
            &&& is_glyph(text[start])
            &&& text[end] == '\n'
            &&& text[end + 1] == '\n'
            &&& text.subrange(end + 2, text.len() as int) == attribution()
        }),
{
    law_body_positions(params, grid);
    lemma_glyphs(grid[0][0]);
}

} // verus!
