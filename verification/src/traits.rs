use vstd::prelude::*;
use vstd::string::*;

verus! {

/// An article of a newspaper.
pub struct NewsArticle {
    pub headline: String,
    pub location: String,
    pub author: String,
    pub content: String,
}

/// A short message of a user.
pub struct Tweet {
    pub username: String,
    pub content: String,
    pub reply: bool,
    pub retweet: bool,
}

/// The invitation to read more from `author`.
pub open spec fn read_more(author: Seq<char>) -> Seq<char> {
    "(Read more from "@ + author + "... )"@
}

/// The invitation to read more from `author`.
pub fn invitation(author: &str) -> (r: String)
    ensures
        r@ == read_more(author@),
{
    let mut r = "(Read more from ".to_owned();
    r.append(author);
    r.append("... )");
    r
}

/// Something that can be summed up in a line.
pub trait Summary {
    /// The author as the summary names them.
    spec fn author_line(&self) -> Seq<char>;

    fn summarize_author(&self) -> (r: String)
        ensures
            r@ == self.author_line(),
    ;

    /// The summary: an invitation to read more from the author, unless the
    /// type has a summary of its own.
    fn summarize(&self) -> (r: String)
        default_ensures
            r@ == read_more(self.author_line()),
    {
        let author = self.summarize_author();
        invitation(author.as_str())
    }
}

/// The announcement of `item`: its summary after the words
/// `Breaking news! `.
pub fn breaking_news<T: Summary>(item: &T) -> (r: String)
    ensures
        exists|summary: String|
            call_ensures(T::summarize, (item,), summary) && r@ == "Breaking news! "@ + summary@,
{
    let mut r = "Breaking news! ".to_owned();
    let summary = item.summarize();
    r.append(summary.as_str());
    r
}

impl Summary for NewsArticle {
    open spec fn author_line(&self) -> Seq<char> {
        self.author@
    }

    fn summarize_author(&self) -> (r: String) {
        self.author.clone()
    }
}

impl Summary for Tweet {
    open spec fn author_line(&self) -> Seq<char> {
        "@"@ + self.username@
    }

    fn summarize_author(&self) -> (r: String) {
        let mut r = "@".to_owned();
        r.append(self.username.as_str());
        r
    }

    fn summarize(&self) -> (r: String)
        ensures
            r@ == self.username@ + ": "@ + self.content@,
    {
        let mut r = self.username.clone();
        r.append(": ");
        r.append(self.content.as_str());
        r
    }
}

} // verus!
