//! The options that draw one block.

use crate::style_options::StyleOptions;
use vstd::prelude::*;
use vstd::string::*;

verus! {

/// How one block is drawn: the label shown in brackets on its first line,
/// its colours, the text that starts every line, and whether a padding
/// line stands above and below the message.
#[derive(Debug, Clone)]
pub struct BlockOptions {
    pub block_type: Option<String>,
    pub style: Option<StyleOptions>,
    pub prefix: String,
    pub padding: bool,
}

/// A `BlockOptions` with its strings as sequences of characters.
pub struct BlockOptionsView {
    pub block_type: Option<Seq<char>>,
    pub style: Option<StyleOptions>,
    pub prefix: Seq<char>,
    pub padding: bool,
}

impl View for BlockOptions {
    type V = BlockOptionsView;

    open spec fn view(&self) -> BlockOptionsView {
        BlockOptionsView {
            block_type: match self.block_type {
                Some(name) => Some(name@),
                None => None,
            },
            style: self.style,
            prefix: self.prefix@,
            padding: self.padding,
        }
    }
}

impl Default for BlockOptions {
    /// No label, no style, an empty prefix and no padding.
    fn default() -> (options: Self)
        ensures
            options@ == (BlockOptionsView {
                block_type: None,
                style: None,
                prefix: Seq::empty(),
                padding: false,
            }),
    {
        BlockOptions { block_type: None, style: None, prefix: String::new(), padding: false }
    }
}

} // verus!
