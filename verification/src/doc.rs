//! Documentation text, built from a description and warnings.

use vstd::prelude::*;
use vstd::string::StringExecFns;
use crate::model::Text;

verus! {

/// A documentation text under construction.
pub struct DocBuilder {
    pub content: String,
}

/// What introduces a warning in a documentation text.
pub open spec fn warning_mark() -> Text {
    "\n@warning "@
}

impl View for DocBuilder {
    type V = Text;

    open spec fn view(&self) -> Text {
        self.content@
    }
}

impl DocBuilder {
    pub fn new() -> (d: DocBuilder)
        ensures
            d@ == Seq::<char>::empty(),
    {
        DocBuilder { content: String::new() }
    }

    /// Appends a piece of description.
    pub fn text(self, text: &str) -> (d: DocBuilder)
        ensures
            d@ == self@ + text@,
    {
        let mut d = self;
        d.content.append(text);
        d
    }

    /// Appends a warning, on a line of its own.
    pub fn warn(self, text: &str) -> (d: DocBuilder)
        ensures
            d@ == self@ + warning_mark() + text@,
    {
        let mut d = self;
        d.content.append("\n@warning ");
        d.content.append(text);
        d
    }

    /// The finished text.
    pub fn build(self) -> (s: String)
        ensures
            s@ == self@,
    {
        self.content
    }
}

} // verus!
