//! A capability for producing short summaries, with a provided default method.

use vstd::prelude::*;

verus! {

/// The text that every summary offers as its long-form default.
pub open spec fn read_more_text() -> Seq<char> {
    "(Read more...)"@
}

/// Something that can describe itself in one line.
pub trait Summary {
    /// The one-line summary of this value.
    spec fn summary_text(&self) -> Seq<char>;

    /// Returns the one-line summary.
    fn summarize(&self) -> (r: String)
        ensures
            r@ == self.summary_text(),
    ;

    /// Returns the long-form summary; unless overridden, a fixed invitation to read on.
    fn default_summary(&self) -> (r: String)
        ensures
            r@ == read_more_text(),
    {
        String::from_str("(Read more...)")
    }
}

/// A news article.
pub struct NewsArticle {
    pub headline: String,
    pub location: String,
    pub author: String,
    pub content: String,
}

impl Summary for NewsArticle {
    /// `"<headline>, by <author> (<location>)"`.
    open spec fn summary_text(&self) -> Seq<char> {
        self.headline@ + ", by "@ + self.author@ + " ("@ + self.location@ + ")"@
    }

    fn summarize(&self) -> (r: String) {
        let mut r = self.headline.clone();
        r.append(", by ");
        r.append(self.author.as_str());
        r.append(" (");
        r.append(self.location.as_str());
        r.append(")");
        r
    }
}

} // verus!
