//! Measuring and wrapping text, which the `textwrap` crate does, and
//! padding text to a width.

use crate::text::{push_repeat, spaces};
use vstd::prelude::*;
use vstd::string::*;

verus! {

/// The lines into which `textwrap::wrap` breaks `text` at `width` columns,
/// the first line starting with `initial_indent` and every later one with
/// `subsequent_indent`.
pub uninterp spec fn wrapped(
    text: Seq<char>,
    width: nat,
    initial_indent: Seq<char>,
    subsequent_indent: Seq<char>,
) -> Seq<Seq<char>>;

/// The number of terminal columns that `text` takes, as
/// `textwrap::core::display_width` counts them.
pub uninterp spec fn columns(text: Seq<char>) -> nat;

/// Calls `textwrap::wrap` with options that hold the width and the two
/// indents and are otherwise those of `textwrap::Options::new`. Assumed of
/// it: the lines that come back depend on these four arguments alone. They
/// are given the name `wrapped` of the arguments, and nothing more is
/// claimed of them.
#[verifier::external_body]
pub(crate) fn wrap(
    text: &str,
    width: usize,
    initial_indent: &str,
    subsequent_indent: &str,
) -> (lines: Vec<String>)
    ensures
        lines.deep_view() == wrapped(text@, width as nat, initial_indent@, subsequent_indent@),
{
    let options = textwrap::Options::new(width)
        .initial_indent(initial_indent)
        .subsequent_indent(subsequent_indent);
    let mut lines: Vec<String> = Vec::new();
    for line in textwrap::wrap(text, options) {
        lines.push(line.into_owned());
    }
    lines
}

/// Calls `textwrap::core::display_width`, which adds up the widths of the
/// characters of `text` and skips escape sequences. Assumed of it: the
/// count depends on the text alone. It is given the name `columns` of the
/// text, and nothing more is claimed of it.
#[verifier::external_body]
pub(crate) fn display_width(text: &str) -> (width: usize)
    ensures
        width == columns(text@),
{
    textwrap::core::display_width(text)
}

/// A text with the number of columns that it takes.
#[derive(Clone, Debug, PartialEq, Eq)]
pub struct Measured {
    pub text: String,
    pub columns: usize,
}

/// A `Measured` with its text as a sequence of characters.
pub struct MeasuredView {
    pub text: Seq<char>,
    pub columns: nat,
}

impl View for Measured {
    type V = MeasuredView;

    open spec fn view(&self) -> MeasuredView {
        MeasuredView { text: self.text@, columns: self.columns as nat }
    }
}

impl DeepView for Measured {
    type V = MeasuredView;

    open spec fn deep_view(&self) -> MeasuredView {
        self@
    }
}

/// A text with its columns as they are measured.
pub open spec fn measured(text: Seq<char>) -> MeasuredView {
    MeasuredView { text, columns: columns(text) }
}

/// Texts with their columns as they are measured.
pub open spec fn measured_all(texts: Seq<Seq<char>>) -> Seq<MeasuredView> {
    Seq::new(texts.len(), |i: int| measured(texts[i]))
}

/// Measures a text.
pub fn measure(text: String) -> (line: Measured)
    ensures
        line@ == measured(text@),
{
    let columns = display_width(text.as_str());
    Measured { text, columns }
}

/// Measures texts.
pub fn measure_all(texts: &Vec<String>) -> (lines: Vec<Measured>)
    ensures
        lines.deep_view() == measured_all(texts.deep_view()),
{
    let mut lines: Vec<Measured> = Vec::new();
    let mut i: usize = 0;
    while i < texts.len()
        invariant
            i <= texts.len(),
            lines.len() == i,
            forall|k: int| 0 <= k < i ==> lines[k]@ == measured(texts[k]@),
        decreases texts.len() - i,
    {
        lines.push(measure(texts[i].clone()));
        i = i + 1;
    }
    assert(lines.deep_view() =~= measured_all(texts.deep_view()));
    lines
}

/// The number of spaces that bring a text of `taken` columns up to `width`
/// columns: none where the text is as wide as that or wider.
pub open spec fn missing_columns(taken: nat, width: nat) -> nat {
    if width > taken {
        (width - taken) as nat
    } else {
        0
    }
}

/// A measured text with spaces after it up to `width` columns.
pub open spec fn filled(line: MeasuredView, width: nat) -> Seq<char> {
    line.text + spaces(missing_columns(line.columns, width))
}

/// `text` with spaces after it up to `width` columns.
pub open spec fn padded(text: Seq<char>, width: nat) -> Seq<char> {
    filled(measured(text), width)
}

/// Returns the text of `line` with spaces after it up to `width` columns.
pub fn fill(line: &Measured, width: usize) -> (text: String)
    ensures
        text@ == filled(line@, width as nat),
{
    let mut text = line.text.clone();
    if width > line.columns {
        push_repeat(&mut text, ' ', width - line.columns);
    } else {
        assert(text@ =~= text@ + spaces(0));
    }
    text
}

/// Returns `text` with spaces after it up to `width` columns.
pub fn pad_to_width(text: &str, width: usize) -> (line: String)
    ensures
        line@ == padded(text@, width as nat),
{
    fill(&measure(String::from_str(text)), width)
}

/// How many spaces `text` ends with.
pub open spec fn trailing_spaces(text: Seq<char>) -> nat
    decreases text.len(),
{
    if text.len() > 0 && text.last() == ' ' {
        1 + trailing_spaces(text.drop_last())
    } else {
        0
    }
}

/// The columns of a line as it stands on the screen: those of its text up
/// to the spaces that end it, and one for each of these spaces.
pub open spec fn line_columns(text: Seq<char>) -> nat {
    columns(text.take(text.len() - trailing_spaces(text))) + trailing_spaces(text)
}

/// A text ends in no more spaces than it has characters.
pub proof fn trailing_spaces_are_bounded(text: Seq<char>)
    ensures
        trailing_spaces(text) <= text.len(),
    decreases text.len(),
{
    if text.len() > 0 && text.last() == ' ' {
        trailing_spaces_are_bounded(text.drop_last());
    }
}

/// Spaces put after a text add to the spaces that end it, and to nothing
/// else.
pub proof fn trailing_spaces_of_padded(text: Seq<char>, fill: nat)
    ensures
        trailing_spaces(text + spaces(fill)) == trailing_spaces(text) + fill,
        (text + spaces(fill)).take(text.len() + fill - trailing_spaces(text + spaces(fill)))
            == text.take(text.len() - trailing_spaces(text)),
    decreases fill,
{
    trailing_spaces_are_bounded(text);
    if fill == 0 {
        assert(text + spaces(0) =~= text);
    } else {
        let shorter = text + spaces((fill - 1) as nat);
        assert((text + spaces(fill)).drop_last() =~= shorter);
        trailing_spaces_of_padded(text, (fill - 1) as nat);
        assert((text + spaces(fill)).take(text.len() - trailing_spaces(text)) =~= shorter.take(
            text.len() - trailing_spaces(text),
        ));
    }
}

/// Padding reaches the width exactly. A text that takes no more than
/// `width` columns, the spaces that end it counting for one each, is once
/// padded a line of exactly `width` columns.
pub proof fn padded_is_full_width(text: Seq<char>, width: nat)
    requires
        columns(text) <= width,
        line_columns(text) == columns(text),
    ensures
        line_columns(padded(text, width)) == width,
{
    trailing_spaces_of_padded(text, missing_columns(columns(text), width));
}

/// A text that ends in no space counts its columns as a line does.
pub proof fn line_columns_without_trailing_spaces(text: Seq<char>)
    requires
        text.len() == 0 || text.last() != ' ',
    ensures
        line_columns(text) == columns(text),
{
    assert(text.take(text.len() as int) =~= text);
}

/// Filling adds exactly the spaces that are missing: to a text of no more
/// than `width` columns as many as bring its columns to `width`, to a wider
/// text none.
pub proof fn filled_adds_the_missing_spaces(line: MeasuredView, width: nat)
    ensures
        line.columns <= width ==> filled(line, width).len() == line.text.len() + (width
            - line.columns),
        line.columns >= width ==> filled(line, width) == line.text,
        filled(line, width).take(line.text.len() as int) == line.text,
{
    assert(line.text + spaces(0) =~= line.text);
    assert(filled(line, width).take(line.text.len() as int) =~= line.text);
}

} // verus!
