//! The colours of a result and the functions that lay them out as text.

use crate::layout::{
    column_grid, fillers, grid_lines, grid_view, header, joined, lemma_column_is_grid,
    lemma_line_text_push, lemma_palette_has_filler, lemma_row_is_grid, lemma_table_is_grid,
    lemma_terminated_push, line_text, table_text, terminated, valid_line, valid_table,
};
use crate::Parameters;
use rand::seq::SliceRandom;
use vstd::prelude::*;
use vstd::string::StringExecFns;

verus! {

/// The colour of one block. Green marks success.
#[derive(PartialEq, Eq, Structural, Clone, Copy, Debug)]
pub enum Colours {
    Green,
    Red,
    Yellow,
    Grey,
}

impl Colours {
    /// The character that shows a block of this colour.
    pub open spec fn glyph(self) -> char {
        match self {
            Colours::Green => '🟩',
            Colours::Red => '🟥',
            Colours::Grey => '⬛',
            Colours::Yellow => '🟨',
        }
    }

    /// The block of this colour, as text of one character.
    pub fn block(&self) -> (text: &'static str)
        ensures
            text@ == seq![self.glyph()],
    {
        match self {
            Colours::Green => {
                proof {
                    reveal_strlit("🟩");
                }
                "🟩"
            },
            Colours::Red => {
                proof {
                    reveal_strlit("🟥");
                }
                "🟥"
            },
            Colours::Grey => {
                proof {
                    reveal_strlit("⬛");
                }
                "⬛"
            },
            Colours::Yellow => {
                proof {
                    reveal_strlit("🟨");
                }
                "🟨"
            },
        }
    }
}

/// The credit line that ends every result.
pub const ATTRIBUTION: &'static str = "https://github.com/metz-dev/bestle";

/// Draws the blocks that `params` asks for and returns them as a result
/// text: the header with the name, the blocks laid out as a row, a column or
/// a table, and the footer.
///
/// Both dimensions must be at least one block. A row or a column of more
/// than one block needs a colour besides green, because green never stands
/// before its end. The parameters are only read.
pub fn create_block_result(params: &mut Parameters) -> (text: String)
    requires
        old(params).has_blocks(),
        old(params).needs_filler() ==> old(params).has_optional_colour(),
    ensures
        *final(params) == *old(params),
        old(params).is_block_result(text@),
{
    let colours = get_colours(params);
    proof {
        reveal_strlit("⠀\n");
        reveal_strlit("\n\n");
        if params.has_optional_colour() {
            lemma_palette_has_filler(params.red, params.yellow, params.grey);
        }
    }
    let mut result = String::from_str("⠀\n");
    result.append(params.name.as_str());
    result.append("\n\n");
    assert(result@ =~= header(params.name@));
    let ghost grid: Seq<Seq<Colours>>;
    if is_row_layout(params) {
        result = create_row_result(params, &colours, &mut result);
        proof {
            let cells = choose|cells: Seq<Colours>|
                #[trigger] valid_line(colours@, params.width as int, params.winning, cells)
                    && result@ == header(params.name@) + line_text(cells, false);
            lemma_row_is_grid(*params, cells);
            grid = seq![cells];
        }
    } else if is_column_layout(params) {
        result = create_column_result(params, &colours, &mut result);
        proof {
            let cells = choose|cells: Seq<Colours>|
                #[trigger] valid_line(colours@, params.height as int, params.winning, cells)
                    && result@ == header(params.name@) + line_text(cells, true);
            lemma_column_is_grid(*params, cells);
            grid = column_grid(cells);
        }
    } else {
        result = create_tabular_result(params, colours, &mut result);
        proof {
            let rows = choose|rows: Seq<Seq<Colours>>|
                #[trigger] valid_table(
                    params.palette(),
                    params.width as int,
                    params.height as int,
                    params.winning,
                    rows,
                ) && result@ == header(params.name@) + table_text(rows);
            lemma_table_is_grid(*params, rows);
            grid = rows;
        }
    }
    result.append("\n\n");
    result.append(ATTRIBUTION);
    assert(params.valid_grid(grid) && result@ == params.result_text(grid));
    result
}

/// Whether the result is a single row: it is one line high.
pub fn is_row_layout(params: &Parameters) -> (row: bool)
    ensures
        row == (params.height == 1),
        row == (params.layout() is Row),
{
    params.height == 1
}

/// Whether the result is one block wide. With `is_row_layout` false this
/// selects the column.
pub fn is_column_layout(params: &Parameters) -> (column: bool)
    ensures
        column == (params.width == 1),
        params.height != 1 ==> column == (params.layout() is Column),
{
    params.width == 1
}

/// Appends a freshly drawn row of `params.width` blocks to `result` and
/// returns the text so far.
pub fn create_row_result(params: &Parameters, colours: &Vec<Colours>, result: &mut String) -> (text:
    String)
    requires
        params.width >= 1,
        params.width > 1 ==> fillers(colours@).len() > 0,
        !params.winning ==> colours@.len() > 0,
    ensures
        text@ == final(result)@,
        exists|cells: Seq<Colours>|
            #[trigger] valid_line(colours@, params.width as int, params.winning, cells)
                && final(result)@ == old(result)@ + line_text(cells, false),
{
    create_single_line_result(params, colours, result, false)
}

/// Appends a freshly drawn column of `params.height` blocks to `result` and
/// returns the text so far.
pub fn create_column_result(params: &Parameters, colours: &Vec<Colours>, result: &mut String) -> (text:
    String)
    requires
        params.height >= 1,
        params.height > 1 ==> fillers(colours@).len() > 0,
        !params.winning ==> colours@.len() > 0,
    ensures
        text@ == final(result)@,
        exists|cells: Seq<Colours>|
            #[trigger] valid_line(colours@, params.height as int, params.winning, cells)
                && final(result)@ == old(result)@ + line_text(cells, true),
{
    create_single_line_result(params, colours, result, true)
}

/// Appends a freshly drawn line to `result`, as a column or as a row, and
/// returns the text so far.
pub fn create_single_line_result(
    params: &Parameters,
    colours: &Vec<Colours>,
    result: &mut String,
    is_column: bool,
) -> (text: String)
    requires
        params.line_length(is_column) >= 1,
        params.line_length(is_column) > 1 ==> fillers(colours@).len() > 0,
        !params.winning ==> colours@.len() > 0,
    ensures
        text@ == final(result)@,
        exists|cells: Seq<Colours>|
            #[trigger] valid_line(colours@, params.line_length(is_column), params.winning, cells)
                && final(result)@ == old(result)@ + line_text(cells, is_column),
{
    let length = if is_column {
        params.height
    } else {
        params.width
    };
    let cells = draw_line(colours, length, params.winning);
    push_line(result, &cells, is_column);
    result.clone()
}

/// Draws a line of `length` blocks: fillers other than green, then a last
/// block that is green on a win and any colour of `colours` otherwise.
pub fn draw_line(colours: &Vec<Colours>, length: u8, winning: bool) -> (cells: Vec<Colours>)
    requires
        length >= 1,
        length > 1 ==> fillers(colours@).len() > 0,
        !winning ==> colours@.len() > 0,
    ensures
        valid_line(colours@, length as int, winning, cells@),
{
    let not_green = filler_colours(colours);
    let mut cells: Vec<Colours> = Vec::new();
    let mut i: u8 = 1;
    while i < length
        invariant
            1 <= i <= length,
            cells@.len() == i - 1,
            not_green@ == fillers(colours@),
            length > 1 ==> not_green@.len() > 0,
            forall|j: int|
                0 <= j < cells@.len() ==> colours@.contains(#[trigger] cells@[j]) && cells@[j]
                    != Colours::Green,
        decreases length - i,
    {
        let colour = random_colour(&not_green);
        proof {
            let not_green_pred = |c: Colours| c != Colours::Green;
            let at = choose|k: int| 0 <= k < not_green@.len() && not_green@[k] == colour;
            colours@.lemma_filter_pred(not_green_pred, at);
            colours@.lemma_filter_contains_rev(not_green_pred, colour);
        }
        cells.push(colour);
        i += 1;
    }
    if winning {
        cells.push(Colours::Green);
    } else {
        let colour = random_colour(colours);
        cells.push(colour);
    }
    cells
}

/// Appends the text of a line of blocks to `result`: in a column each block
/// is followed by a line break.
pub fn push_line(result: &mut String, cells: &Vec<Colours>, is_column: bool)
    ensures
        final(result)@ == old(result)@ + line_text(cells@, is_column),
{
    let mut i: usize = 0;
    while i < cells.len()
        invariant
            i <= cells.len(),
            result@ == old(result)@ + line_text(cells@.take(i as int), is_column),
        decreases cells.len() - i,
    {
        proof {
            lemma_line_text_push(cells@.take(i as int), cells@[i as int], is_column);
            assert(cells@.take(i + 1) =~= cells@.take(i as int).push(cells@[i as int]));
            reveal_strlit("\n");
        }
        result.append(cells[i].block());
        if is_column {
            result.append("\n");
        }
        i += 1;
    }
    assert(cells@.take(i as int) =~= cells@);
}

/// Appends a freshly drawn table of `params.height` rows of `params.width`
/// blocks to `result` and returns the text so far.
pub fn create_tabular_result(params: &Parameters, colours: Vec<Colours>, result: &mut String) -> (text:
    String)
    requires
        params.height >= 1,
        params.width > 0 && (params.height > 1 || !params.winning) ==> colours@.len() > 0,
    ensures
        text@ == final(result)@,
        exists|rows: Seq<Seq<Colours>>|
            #[trigger] valid_table(
                colours@,
                params.width as int,
                params.height as int,
                params.winning,
                rows,
            ) && final(result)@ == old(result)@ + table_text(rows),
{
    let rows = draw_table(&colours, params.width, params.height, params.winning);
    push_table(result, &rows);
    result.clone()
}

/// Draws a table of `height` rows of `width` blocks from `colours`; on a win
/// the last row is green.
pub fn draw_table(colours: &Vec<Colours>, width: u8, height: u8, winning: bool) -> (rows: Vec<
    Vec<Colours>,
>)
    requires
        height >= 1,
        width > 0 && (height > 1 || !winning) ==> colours@.len() > 0,
    ensures
        valid_table(colours@, width as int, height as int, winning, grid_view(rows@)),
{
    let mut rows: Vec<Vec<Colours>> = Vec::new();
    let mut r: u8 = 1;
    while r < height
        invariant
            1 <= r <= height,
            width > 0 && (height > 1 || !winning) ==> colours@.len() > 0,
            rows@.len() == r - 1,
            forall|k: int| 0 <= k < rows@.len() ==> (#[trigger] rows@[k])@.len() == width,
            forall|k: int, c: int|
                0 <= k < rows@.len() && 0 <= c < width ==> colours@.contains(
                    #[trigger] rows@[k]@[c],
                ),
        decreases height - r,
    {
        let row = random_row(colours, width);
        rows.push(row);
        r += 1;
    }
    if winning {
        rows.push(green_row(width));
    } else {
        rows.push(random_row(colours, width));
    }
    rows
}

/// Draws a row of `width` blocks, each any colour of `colours`.
pub fn random_row(colours: &Vec<Colours>, width: u8) -> (cells: Vec<Colours>)
    requires
        width > 0 ==> colours@.len() > 0,
    ensures
        cells@.len() == width,
        forall|c: int| 0 <= c < width ==> colours@.contains(#[trigger] cells@[c]),
{
    let mut cells: Vec<Colours> = Vec::new();
    let mut c: u8 = 0;
    while c < width
        invariant
            c <= width,
            colours@.len() > 0 || width == 0,
            cells@.len() == c,
            forall|j: int| 0 <= j < c ==> colours@.contains(#[trigger] cells@[j]),
        decreases width - c,
    {
        let colour = random_colour(colours);
        cells.push(colour);
        c += 1;
    }
    cells
}

/// A row of `width` green blocks.
pub fn green_row(width: u8) -> (cells: Vec<Colours>)
    ensures
        cells@ == Seq::new(width as nat, |c: int| Colours::Green),
{
    let mut cells: Vec<Colours> = Vec::new();
    let mut c: u8 = 0;
    while c < width
        invariant
            c <= width,
            cells@ == Seq::new(c as nat, |j: int| Colours::Green),
        decreases width - c,
    {
        cells.push(Colours::Green);
        c += 1;
    }
    cells
}

/// Appends the text of a table to `result`: a line break stands between each
/// two rows, and none after the last.
pub fn push_table(result: &mut String, rows: &Vec<Vec<Colours>>)
    ensures
        final(result)@ == old(result)@ + table_text(grid_view(rows@)),
{
    let ghost lines = grid_lines(grid_view(rows@));
    let n = rows.len();
    let mut r: usize = 0;
    while r < n
        invariant
            r <= n,
            n == rows@.len(),
            lines == grid_lines(grid_view(rows@)),
            r < n ==> result@ == old(result)@ + terminated(lines.take(r as int)),
            r == n ==> result@ == old(result)@ + joined(lines),
        decreases n - r,
    {
        proof {
            lemma_terminated_push(lines.take(r as int), lines[r as int]);
            assert(lines.take(r + 1) =~= lines.take(r as int).push(lines[r as int]));
            reveal_strlit("\n");
        }
        push_line(result, &rows[r], false);
        if r + 1 < n {
            result.append("\n");
        }
        r += 1;
    }
}

/// One colour of `colours`, drawn at random. Nothing is promised of which.
pub fn random_colour(colours: &Vec<Colours>) -> (colour: Colours)
    requires
        colours@.len() > 0,
    ensures
        colours@.contains(colour),
{
    match choose_colour(colours) {
        Some(colour) => colour,
        None => colours[0],
    }
}

/// Calls `choose` of rand's `SliceRandom` on the colours, with the generator
/// that `rand::thread_rng` gives. It returns nothing for an empty list, and
/// otherwise one of the list's items. Which one is left open.
#[verifier::external_body]
fn choose_colour(colours: &Vec<Colours>) -> (picked: Option<Colours>)
    ensures
        colours@.len() == 0 ==> picked is None,
        colours@.len() > 0 ==> picked is Some && colours@.contains(picked->0),
{
    colours.choose(&mut rand::thread_rng()).copied()
}

/// The colours that `params` allows, green first.
pub fn get_colours(params: &Parameters) -> (colours: Vec<Colours>)
    ensures
        colours@ == params.palette(),
{
    let mut colours = Vec::new();
    colours.push(Colours::Green);
    if params.red {
        colours.push(Colours::Red);
    }
    if params.yellow {
        colours.push(Colours::Yellow);
    }
    if params.grey {
        colours.push(Colours::Grey);
    }
    colours
}

/// The colours of `colours` other than green, in their order.
pub fn filler_colours(colours: &Vec<Colours>) -> (not_green: Vec<Colours>)
    ensures
        not_green@ == fillers(colours@),
{
    let mut not_green = Vec::new();
    let mut i: usize = 0;
    while i < colours.len()
        invariant
            i <= colours.len(),
            not_green@ == fillers(colours@.take(i as int)),
        decreases colours.len() - i,
    {
        proof {
            reveal(Seq::filter);
            assert(colours@.take(i + 1).drop_last() =~= colours@.take(i as int));
        }
        match colours[i] {
            Colours::Green => {},
            c => {
                not_green.push(c);
            },
        }
        i += 1;
    }
    assert(colours@.take(i as int) =~= colours@);
    not_green
}

} // verus!
