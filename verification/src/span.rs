//! Spans of output: pieces of text, each under its own style, that follow
//! one another on a line.

use crate::style_options::{Color, StyleOptions};
use vstd::prelude::*;
use vstd::string::*;

verus! {

/// A piece of text to write under one style.
#[derive(Clone, Debug, PartialEq, Eq)]
pub struct Span {
    pub text: String,
    pub style: StyleOptions,
    pub bold: bool,
}

/// A `Span` with its text as a sequence of characters.
pub struct SpanView {
    pub text: Seq<char>,
    pub style: StyleOptions,
    pub bold: bool,
}

impl View for Span {
    type V = SpanView;

    open spec fn view(&self) -> SpanView {
        SpanView { text: self.text@, style: self.style, bold: self.bold }
    }
}

impl DeepView for Span {
    type V = SpanView;

    open spec fn deep_view(&self) -> SpanView {
        self@
    }
}

/// Text without colours or weight.
pub open spec fn plain(text: Seq<char>) -> SpanView {
    SpanView { text, style: StyleOptions { foreground: None, background: None }, bold: false }
}

/// Text in a colour.
pub open spec fn colored(text: Seq<char>, color: Color) -> SpanView {
    SpanView {
        text,
        style: StyleOptions { foreground: Some(color), background: None },
        bold: false,
    }
}

/// Text in a colour on a background.
pub open spec fn colored_on(text: Seq<char>, color: Color, background: Color) -> SpanView {
    SpanView {
        text,
        style: StyleOptions { foreground: Some(color), background: Some(background) },
        bold: false,
    }
}

/// Bold text in a colour.
pub open spec fn bold(text: Seq<char>, color: Color) -> SpanView {
    SpanView { text, style: StyleOptions { foreground: Some(color), background: None }, bold: true }
}

impl Span {
    /// Text without colours or weight.
    pub fn plain(text: String) -> (span: Span)
        ensures
            span@ == plain(text@),
    {
        Span { text, style: StyleOptions { foreground: None, background: None }, bold: false }
    }

    /// Text in a colour.
    pub fn colored(text: String, color: Color) -> (span: Span)
        ensures
            span@ == colored(text@, color),
    {
        Span {
            text,
            style: StyleOptions { foreground: Some(color), background: None },
            bold: false,
        }
    }

    /// Text in a colour on a background.
    pub fn colored_on(text: String, color: Color, background: Color) -> (span: Span)
        ensures
            span@ == colored_on(text@, color, background),
    {
        Span {
            text,
            style: StyleOptions { foreground: Some(color), background: Some(background) },
            bold: false,
        }
    }

    /// Bold text in a colour.
    pub fn bold(text: String, color: Color) -> (span: Span)
        ensures
            span@ == bold(text@, color),
    {
        Span { text, style: StyleOptions { foreground: Some(color), background: None }, bold: true }
    }
}

} // verus!
