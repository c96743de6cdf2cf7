//! The model of a result: which colours may stand where, and the text that
//! a grid of colours is written as.

use crate::result_generator::{Colours, ATTRIBUTION};
use crate::Parameters;
use vstd::prelude::*;

verus! {

/// The three ways a result is laid out.
pub enum Layout {
    /// One line of blocks.
    Row,
    /// One block per line.
    Column,
    /// Several lines of several blocks.
    Tabular,
}

/// A single line wins over a single column, and a table is what is left.
pub open spec fn layout_of(width: int, height: int) -> Layout {
    if height == 1 {
        Layout::Row
    } else if width == 1 {
        Layout::Column
    } else {
        Layout::Tabular
    }
}

/// One colour if it is selected, none otherwise.
pub open spec fn selected(flag: bool, colour: Colours) -> Seq<Colours> {
    if flag {
        seq![colour]
    } else {
        Seq::empty()
    }
}

/// The colours that may be drawn: green first, then red, yellow and grey
/// where selected.
pub open spec fn palette(red: bool, yellow: bool, grey: bool) -> Seq<Colours> {
    seq![Colours::Green] + selected(red, Colours::Red) + selected(yellow, Colours::Yellow)
        + selected(grey, Colours::Grey)
}

/// The colours of a palette that may stand before the end of a line: all but green.
pub open spec fn fillers(colours: Seq<Colours>) -> Seq<Colours> {
    colours.filter(|c: Colours| c != Colours::Green)
}

/// The character shows a block of some colour.
pub open spec fn is_glyph(ch: char) -> bool {
    exists|colour: Colours| ch == #[trigger] colour.glyph()
}

/// The characters of a line of blocks.
pub open spec fn row_text(cells: Seq<Colours>) -> Seq<char> {
    cells.map_values(|c: Colours| c.glyph())
}

/// The lines, each followed by a line break.
pub open spec fn terminated(lines: Seq<Seq<char>>) -> Seq<char>
    decreases lines.len(),
{
    if lines.len() == 0 {
        Seq::empty()
    } else {
        terminated(lines.drop_last()) + lines.last() + seq!['\n']
    }
}

/// The lines with a line break between each two.
pub open spec fn joined(lines: Seq<Seq<char>>) -> Seq<char> {
    if lines.len() == 0 {
        Seq::empty()
    } else {
        terminated(lines.drop_last()) + lines.last()
    }
}

/// The text of each row of a grid.
pub open spec fn grid_lines(grid: Seq<Seq<Colours>>) -> Seq<Seq<char>> {
    grid.map_values(|row: Seq<Colours>| row_text(row))
}

/// A line drawn from `colours`: green stands nowhere before the last block,
/// and the last block is green on a win and any colour of the palette otherwise.
pub open spec fn valid_line(colours: Seq<Colours>, length: int, winning: bool, cells: Seq<Colours>) -> bool {
    &&& length >= 1
    &&& cells.len() == length
    &&& forall|i: int|
        0 <= i < length - 1 ==> colours.contains(#[trigger] cells[i]) && cells[i] != Colours::Green
    &&& if winning {
        cells.last() == Colours::Green
    } else {
        colours.contains(cells.last())
    }
}

/// The text of a line: in a column each block stands on a line of its own.
pub open spec fn line_text(cells: Seq<Colours>, is_column: bool) -> Seq<char> {
    if is_column {
        terminated(cells.map_values(|c: Colours| seq![c.glyph()]))
    } else {
        row_text(cells)
    }
}

/// A table drawn from `colours`: every block comes from the palette, but on a
/// win the last row is green throughout.
pub open spec fn valid_table(
    colours: Seq<Colours>,
    width: int,
    height: int,
    winning: bool,
    rows: Seq<Seq<Colours>>,
) -> bool {
    &&& height >= 1
    &&& rows.len() == height
    &&& forall|r: int| 0 <= r < height ==> (#[trigger] rows[r]).len() == width
    &&& forall|r: int, c: int|
        0 <= r < height && 0 <= c < width && !(winning && r == height - 1) ==> colours.contains(
            #[trigger] rows[r][c],
        )
    &&& winning ==> forall|c: int| 0 <= c < width ==> #[trigger] rows[height - 1][c] == Colours::Green
}

/// The rows of a table as sequences.
pub open spec fn grid_view(rows: Seq<Vec<Colours>>) -> Seq<Seq<Colours>> {
    rows.map_values(|row: Vec<Colours>| row@)
}

/// The text of a table: its rows, with a line break between each two.
pub open spec fn table_text(rows: Seq<Seq<Colours>>) -> Seq<char> {
    joined(grid_lines(rows))
}

/// A column as a grid: one row for each block.
pub open spec fn column_grid(cells: Seq<Colours>) -> Seq<Seq<Colours>> {
    cells.map_values(|c: Colours| seq![c])
}

/// What stands before the blocks: a blank marker line, the name and an empty line.
pub open spec fn header(name: Seq<char>) -> Seq<char> {
    seq!['⠀', '\n'] + name + seq!['\n', '\n']
}

/// The credit line that ends every result.
pub open spec fn attribution() -> Seq<char> {
    ATTRIBUTION@
}

/// What stands after the blocks: an empty line and the credit line.
pub open spec fn footer() -> Seq<char> {
    seq!['\n', '\n'] + attribution()
}

/// A whole result: header, blocks, footer.
pub open spec fn framed(name: Seq<char>, body: Seq<char>) -> Seq<char> {
    header(name) + body + footer()
}

impl Parameters {
    /// The colours that these parameters allow.
    pub open spec fn palette(self) -> Seq<Colours> {
        palette(self.red, self.yellow, self.grey)
    }

    /// The layout that these dimensions select.
    pub open spec fn layout(self) -> Layout {
        layout_of(self.width as int, self.height as int)
    }

    /// The number of blocks in a single line: the height of a column, the
    /// width of a row.
    pub open spec fn line_length(self, is_column: bool) -> int {
        if is_column {
            self.height as int
        } else {
            self.width as int
        }
    }

    /// A line of more than one block needs a colour besides green.
    pub open spec fn needs_filler(self) -> bool {
        (self.height == 1 && self.width > 1) || (self.width == 1 && self.height > 1)
    }

    /// The grids that may be drawn for these parameters: `height` rows of
    /// `width` blocks from the palette. In a row or a column green stands
    /// nowhere before the last block, which is green on a win. In a table the
    /// last row is green throughout on a win.
    pub open spec fn valid_grid(self, grid: Seq<Seq<Colours>>) -> bool {
        let w = self.width as int;
        let h = self.height as int;
        &&& self.has_blocks()
        &&& grid.len() == h
        &&& forall|r: int| 0 <= r < h ==> (#[trigger] grid[r]).len() == w
        &&& forall|r: int, c: int|
            0 <= r < h && 0 <= c < w ==> self.palette().contains(#[trigger] grid[r][c])
        &&& if self.layout() is Tabular {
            self.winning ==> forall|c: int| 0 <= c < w ==> #[trigger] grid[h - 1][c] == Colours::Green
        } else {
            &&& forall|r: int, c: int|
                0 <= r < h && 0 <= c < w && !(r == h - 1 && c == w - 1) ==> #[trigger] grid[r][c]
                    != Colours::Green
            &&& self.winning ==> grid[h - 1][w - 1] == Colours::Green
        }
    }

    /// The blocks of a grid as text. In a column every line ends in a line
    /// break; otherwise the breaks stand between the lines.
    pub open spec fn body_text(self, grid: Seq<Seq<Colours>>) -> Seq<char> {
        if self.layout() is Column {
            terminated(grid_lines(grid))
        } else {
            joined(grid_lines(grid))
        }
    }

    /// The whole result for a grid.
    pub open spec fn result_text(self, grid: Seq<Seq<Colours>>) -> Seq<char> {
        framed(self.name@, self.body_text(grid))
    }

    /// `text` is a result that these parameters may give.
    pub open spec fn is_block_result(self, text: Seq<char>) -> bool {
        exists|grid: Seq<Seq<Colours>>| #[trigger] self.valid_grid(grid) && text == self.result_text(grid)
    }
}

/// Appending a block to a line appends its text.
pub proof fn lemma_line_text_push(cells: Seq<Colours>, colour: Colours, is_column: bool)
    ensures
        line_text(cells.push(colour), is_column) == line_text(cells, is_column) + line_text(
            seq![colour],
            is_column,
        ),
        line_text(seq![colour], false) == seq![colour.glyph()],
        line_text(seq![colour], true) == seq![colour.glyph(), '\n'],
{
    let text_of = |c: Colours| seq![c.glyph()];
    assert(cells.push(colour).map_values(text_of).drop_last() =~= cells.map_values(text_of));
    assert(terminated(seq![colour].map_values(text_of)) =~= seq![colour.glyph(), '\n']) by {
        reveal_with_fuel(terminated, 2);
    }
}

/// Lines that each end in a break, with one more line added.
pub proof fn lemma_terminated_push(lines: Seq<Seq<char>>, line: Seq<char>)
    ensures
        terminated(lines.push(line)) == terminated(lines) + line + seq!['\n'],
        joined(lines.push(line)) == terminated(lines) + line,
{
    assert(lines.push(line).drop_last() =~= lines);
}

/// With a colour besides green selected, the palette has a filler.
pub proof fn lemma_palette_has_filler(red: bool, yellow: bool, grey: bool)
    requires
        red || yellow || grey,
    ensures
        fillers(palette(red, yellow, grey)).len() > 0,
{
    let colours = palette(red, yellow, grey);
    let not_green = |c: Colours| c != Colours::Green;
    let at = colours.len() - 1;
    colours.lemma_filter_contains(not_green, at);
}

/// A line drawn for a result one line high is a grid of one row, and its
/// text is the text of that grid.
pub proof fn lemma_row_is_grid(params: Parameters, cells: Seq<Colours>)
    requires
        params.height == 1,
        valid_line(params.palette(), params.width as int, params.winning, cells),
    ensures
        params.valid_grid(seq![cells]),
        params.body_text(seq![cells]) == line_text(cells, false),
{
    assert(params.palette()[0] == Colours::Green);
}

/// A line drawn for a result one block wide is a grid of one block per row,
/// and its text is the text of that grid.
pub proof fn lemma_column_is_grid(params: Parameters, cells: Seq<Colours>)
    requires
        params.width == 1,
        params.height != 1,
        valid_line(params.palette(), params.height as int, params.winning, cells),
    ensures
        params.valid_grid(column_grid(cells)),
        params.body_text(column_grid(cells)) == line_text(cells, true),
{
    assert(params.palette()[0] == Colours::Green);
    assert forall|r: int| 0 <= r < cells.len() implies #[trigger] grid_lines(column_grid(cells))[r]
        =~= seq![cells[r].glyph()] by {}
    assert(grid_lines(column_grid(cells)) =~= cells.map_values(|c: Colours| seq![c.glyph()]));
}

/// A table drawn for a result of several rows and columns is a grid, and its
/// text is the text of that grid.
pub proof fn lemma_table_is_grid(params: Parameters, rows: Seq<Seq<Colours>>)
    requires
        params.layout() is Tabular,
        params.has_blocks(),
        valid_table(
            params.palette(),
            params.width as int,
            params.height as int,
            params.winning,
            rows,
        ),
    ensures
        params.valid_grid(rows),
        params.body_text(rows) == table_text(rows),
{
    assert(params.palette()[0] == Colours::Green);
}

} // verus!
