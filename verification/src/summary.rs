//! Summaries of articles and tweets behind one trait.

use vstd::prelude::*;
use vstd::string::StringExecFns;

verus! {

/// Something with an author and a one-line summary.
pub trait Summary {
    /// The author tag, for use in specifications.
    spec fn spec_author(&self) -> Seq<char>;

    /// The summary line, for use in specifications.
    spec fn spec_summary(&self) -> Seq<char>;

    /// The author tag.
    fn summarize_author(&self) -> (r: String)
        ensures
            r@ == self.spec_author(),
    ;

    /// The summary line.
    fn summarize(&self) -> (r: String)
        ensures
            r@ == self.spec_summary(),
    ;
}

/// A news article.
pub struct NewArticle {
    pub headline: String,
    pub location: String,
    pub author: String,
    pub content: String,
}

impl Summary for NewArticle {
    open spec fn spec_author(&self) -> Seq<char> {
        "@"@ + self.author@
    }

    open spec fn spec_summary(&self) -> Seq<char> {
        "(Read more from "@ + self.spec_author() + " ...)"@
    }

    fn summarize_author(&self) -> (r: String) {
        String::from_str("@").concat(self.author.as_str())
    }

    fn summarize(&self) -> (r: String) {
        let author = self.summarize_author();
        String::from_str("(Read more from ").concat(author.as_str()).concat(" ...)")
    }
}

/// A tweet.
pub struct Tweet {
    pub username: String,
    pub content: String,
    pub reply: bool,
    pub retweet: bool,
}

impl Summary for Tweet {
    open spec fn spec_author(&self) -> Seq<char> {
        "@"@ + self.username@
    }

    open spec fn spec_summary(&self) -> Seq<char> {
        self.username@ + ": "@ + self.content@
    }

    fn summarize_author(&self) -> (r: String) {
        String::from_str("@").concat(self.username.as_str())
    }

    fn summarize(&self) -> (r: String) {
        self.username.clone().concat(": ").concat(self.content.as_str())
    }
}

/// The breaking-news line for `a`; the second argument only shows that
/// unrelated bounds ride along.
pub fn notify_bound_mulit_mix<T: Summary + core::fmt::Display, U: Clone + core::fmt::Debug>(
    a: T,
    _b: U,
) -> (r: String)
    ensures
        r@ == "Breaking news! "@ + a.spec_summary(),
{
    let s = a.summarize();
    String::from_str("Breaking news! ").concat(s.as_str())
}

/// The breaking-news line for `a`, with the bounds in a where clause.
pub fn notify_bound_mulit_mix_where<T, U>(a: T, _b: U) -> (r: String) where
    T: Summary + core::fmt::Display,
    U: Clone + core::fmt::Debug,

    ensures
        r@ == "Breaking news! "@ + a.spec_summary(),
{
    let s = a.summarize();
    String::from_str("Breaking news! ").concat(s.as_str())
}

/// A fixed sample article, summarizable like any other.
pub fn notify_return_trait(s: &str) -> (r: NewArticle)
    ensures
        r.headline@ == "headline str"@,
        r.content@ == "content text"@,
        r.author@ == "author info"@,
        r.location@ == "location info"@,
{
    let _ = s;
    NewArticle {
        headline: String::from_str("headline str"),
        content: String::from_str("content text"),
        author: String::from_str("author info"),
        location: String::from_str("location info"),
    }
}

} // verus!
