//! Emoji block results in the style of a daily word-game share text.
//!
//! The crate holds the configuration of a result, the rules that lay it out
//! as a row, a column or a table of coloured blocks, and the text that frames
//! it. Every function is verified against a model of the text as a sequence
//! of characters.

use crate::result_generator::create_block_result;
use vstd::prelude::*;
use vstd::string::StringExecFns;

pub mod laws;
pub mod layout;
pub mod result_generator;

verus! {

/// What the user has chosen for one result.
#[derive(Debug)]
pub struct Parameters {
    /// The label that heads the result.
    pub name: String,
    /// Blocks per line.
    pub width: u8,
    /// Number of lines.
    pub height: u8,
    /// Whether the result ends in success.
    pub winning: bool,
    pub yellow: bool,
    pub red: bool,
    pub grey: bool,
}

impl Parameters {
    /// At least one colour besides green is selected.
    pub open spec fn has_optional_colour(self) -> bool {
        self.red || self.yellow || self.grey
    }

    /// Both dimensions are at least one block.
    pub open spec fn has_blocks(self) -> bool {
        self.width >= 1 && self.height >= 1
    }

    /// Both dimensions lie in the range that the input form offers.
    pub open spec fn dimensions_in_range(self) -> bool {
        1 <= self.width <= 12 && 1 <= self.height <= 12
    }

    /// Whether a colour besides green is selected. Without one no result is
    /// generated, and the form shows a warning.
    pub fn colour_selected(&self) -> (selected: bool)
        ensures
            selected == self.has_optional_colour(),
    {
        self.red || self.grey || self.yellow
    }

    /// Whether both dimensions lie between 1 and 12.
    pub fn dimensions_valid(&self) -> (valid: bool)
        ensures
            valid == self.dimensions_in_range(),
    {
        1 <= self.width && self.width <= 12 && 1 <= self.height && self.height <= 12
    }
}

/// Why no result was generated.
#[derive(PartialEq, Eq, Structural, Clone, Copy, Debug)]
pub enum GenerationError {
    /// None of red, yellow and grey is selected.
    NoColourSelected,
    /// The width or the height is 0 or above 12.
    InvalidDimension,
}

/// Checks the parameters and generates the result text that is to be copied.
///
/// Without a colour besides green nothing is generated; that is looked at
/// first. A width or height outside 1 to 12 is refused next. Otherwise the
/// text is a result that the parameters may give.
pub fn generate_result(params: &mut Parameters) -> (result: Result<String, GenerationError>)
    ensures
        *final(params) == *old(params),
        !old(params).has_optional_colour() ==> result == Err::<String, GenerationError>(
            GenerationError::NoColourSelected,
        ),
        old(params).has_optional_colour() && !old(params).dimensions_in_range() ==> result == Err::<
            String,
            GenerationError,
        >(GenerationError::InvalidDimension),
        old(params).has_optional_colour() && old(params).dimensions_in_range() ==> (result matches Ok(
            text,
        ) && old(params).is_block_result(text@)),
{
    if !params.colour_selected() {
        return Err(GenerationError::NoColourSelected);
    }
    if !params.dimensions_valid() {
        return Err(GenerationError::InvalidDimension);
    }
    Ok(create_block_result(params))
}

/// The state of the form: the parameters, and whether the last copy was made.
pub struct Bestle {
    pub params: Parameters,
    pub done: bool,
}

impl Default for Bestle {
    /// A winning five by five result named "Bestle", with yellow and grey.
    fn default() -> (state: Self)
        ensures
            !state.done,
            state.params.name@ == "Bestle"@,
            state.params.width == 5,
            state.params.height == 5,
            state.params.winning,
            state.params.yellow,
            !state.params.red,
            state.params.grey,
    {
        Self {
            done: false,
            params: Parameters {
                name: String::from_str("Bestle"),
                width: 5,
                height: 5,
                winning: true,
                yellow: true,
                red: false,
                grey: true,
            },
        }
    }
}

impl Bestle {
    /// The copy button was pressed: the mark of the last copy is cleared, and
    /// the text to copy is generated from the parameters.
    pub fn start_copy(&mut self) -> (result: Result<String, GenerationError>)
        ensures
            !final(self).done,
            final(self).params == old(self).params,
            !old(self).params.has_optional_colour() ==> result == Err::<String, GenerationError>(
                GenerationError::NoColourSelected,
            ),
            old(self).params.has_optional_colour() && !old(self).params.dimensions_in_range()
                ==> result == Err::<String, GenerationError>(GenerationError::InvalidDimension),
            old(self).params.has_optional_colour() && old(self).params.dimensions_in_range() ==> (
            result matches Ok(text) && old(self).params.is_block_result(text@)),
    {
        self.done = false;
        generate_result(&mut self.params)
    }

    /// The press of the copy button has been dealt with: the copy is marked as made.
    pub fn finish_copy(&mut self)
        ensures
            final(self).done,
            final(self).params == old(self).params,
    {
        self.done = true;
    }
}

} // verus!
