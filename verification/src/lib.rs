//! Rendering of styled terminal output as plain values.
//!
//! Every function here computes what is to be written (lines, spans of
//! styled text, the next state of a prompt) and leaves the writing, the
//! terminal's width and the keyboard to the caller.
//!
//! - [`printer`] holds [`RusticPrint`], with one function for each kind of
//!   output: blocks and their presets, headings, lists, text, tables and
//!   the three prompts.
//! - [`block`] renders a message as a block of lines; [`underline`] renders
//!   headings; [`table`] lays out tables.
//! - [`prompt`] holds the prompts as state machines over [`prompt::Key`].
//! - [`line`] and [`span`] are the two shapes of output; [`messages`],
//!   [`block_options`] and [`style_options`] are the inputs.
//! - [`wrapping`] measures and wraps text with the `textwrap` crate;
//!   [`text`] and [`input`] build and read text.
//! - [`console_color`] is the sixteen-colour palette.
//!
//! Text is measured in terminal columns as `textwrap` counts them, and
//! wrapped as `textwrap::wrap` wraps it. The contracts speak of both
//! through the names [`wrapping::columns`] and [`wrapping::wrapped`], and
//! of upper and lower case through [`text::uppercase`] and
//! [`input::lowercase`]: what these are on a given text is not stated.
//! What is made of a measure, of wrapped lines or of a text in lower case
//! is made by a function that takes it as an argument and is stated over
//! plain values: [`block::assemble`], [`underline::underline`],
//! [`table::Table::from_cells`], [`prompt::Choice::apply`] and their like.

pub mod block;
pub mod block_options;
pub mod console_color;
pub mod input;
pub mod line;
pub mod messages;
pub mod printer;
pub mod prompt;
pub mod span;
pub mod style_options;
pub mod table;
pub mod text;
pub mod underline;
pub mod wrapping;

pub use printer::RusticPrint;
