//! How the server parses markup in message text.
use vstd::prelude::*;

verus! {

/// A markup syntax for text and captions.
#[derive(Clone, Copy, Debug, PartialEq, Eq, Structural)]
pub enum ParseMode {
    Markdown,
    MarkdownV2,
    Html,
}

/// The name the API gives each syntax.
pub open spec fn parse_mode_name(p: ParseMode) -> Seq<char> {
    match p {
        ParseMode::Markdown => "Markdown"@,
        ParseMode::MarkdownV2 => "MarkdownV2"@,
        ParseMode::Html => "HTML"@,
    }
}

impl ParseMode {
    /// The name the API gives the syntax.
    pub fn name(&self) -> (r: &'static str)
        ensures
            r@ == parse_mode_name(*self),
    {
        match self {
            ParseMode::Markdown => "Markdown",
            ParseMode::MarkdownV2 => "MarkdownV2",
            ParseMode::Html => "HTML",
        }
    }
}

} // verus!
