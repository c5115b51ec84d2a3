//! The `Summary` capability set: an author-identifying string and a full
//! summary string, with a default composition rule for kinds that do not
//! override the full summary.

use vstd::prelude::*;

verus! {

/// The default composition rule: `"(Read more from " + author + "...)"`.
pub open spec fn default_summary_of(author: Seq<char>) -> Seq<char> {
    "(Read more from "@ + author + "...)"@
}

/// Any kind of content that can identify its author and summarize itself.
///
/// `summarize` has a provided implementation that composes the author
/// identity by the default rule; a kind may override it.
pub trait Summary {
    /// The author-identifying string, as a mathematical sequence.
    spec fn author_spec(&self) -> Seq<char>;

    /// The full summary, as a mathematical sequence.
    spec fn summary_spec(&self) -> Seq<char>;

    /// Returns exactly the author identity given by `author_spec`.
    fn summarize_author(&self) -> (r: String)
        ensures
            r@ == self.author_spec(),
    ;

    /// Returns the summary given by `summary_spec`, or, for a kind that
    /// keeps the provided body, the default composition. A kind whose
    /// `summary_spec` is the default composition returns it exactly.
    fn summarize(&self) -> (r: String)
        ensures
            r@ == self.summary_spec() || r@ == default_summary_of(self.author_spec()),
            self.summary_spec() == default_summary_of(self.author_spec()) ==> r@
                == self.summary_spec(),
        default_ensures
            r@ == default_summary_of(self.author_spec()),
    {
        let author = self.summarize_author();
        let mut r = String::from_str("(Read more from ");
        r.append(author.as_str());
        r.append("...)");
        r
    }
}

/// A long-form news article.
pub struct NewsArticle {
    pub headline: String,
    pub location: String,
    pub author: String,
    pub content: String,
}

/// The article's summary: `"{headline}, by {author} ({location})"`.
pub open spec fn news_summary_of(
    headline: Seq<char>,
    author: Seq<char>,
    location: Seq<char>,
) -> Seq<char> {
    headline + ", by "@ + author + " ("@ + location + ")"@
}

/// The author identity of either kind: `"author is ({name})"`.
pub open spec fn author_identity_of(name: Seq<char>) -> Seq<char> {
    "author is ("@ + name + ")"@
}

impl Summary for NewsArticle {
    open spec fn author_spec(&self) -> Seq<char> {
        author_identity_of(self.author@)
    }

    open spec fn summary_spec(&self) -> Seq<char> {
        news_summary_of(self.headline@, self.author@, self.location@)
    }

    fn summarize_author(&self) -> (r: String) {
        let mut r = String::from_str("author is (");
        r.append(self.author.as_str());
        r.append(")");
        r
    }

    fn summarize(&self) -> (r: String)
        ensures
            r@ == self.summary_spec(),
    {
        let mut r = self.headline.clone();
        r.append(", by ");
        r.append(self.author.as_str());
        r.append(" (");
        r.append(self.location.as_str());
        r.append(")");
        r
    }
}

/// A short post.
pub struct Tweet {
    pub username: String,
    pub content: String,
    pub reply: bool,
    pub retweet: bool,
}

/// The post's summary: `"{handle}: {content}"`.
pub open spec fn tweet_summary_of(username: Seq<char>, content: Seq<char>) -> Seq<char> {
    username + ": "@ + content
}

impl Summary for Tweet {
    open spec fn author_spec(&self) -> Seq<char> {
        author_identity_of(self.username@)
    }

    open spec fn summary_spec(&self) -> Seq<char> {
        tweet_summary_of(self.username@, self.content@)
    }

    fn summarize_author(&self) -> (r: String) {
        let mut r = String::from_str("author is (");
        r.append(self.username.as_str());
        r.append(")");
        r
    }

    fn summarize(&self) -> (r: String)
        ensures
            r@ == self.summary_spec(),
    {
        let mut r = self.username.clone();
        r.append(": ");
        r.append(self.content.as_str());
        r
    }
}

/// The fixed example post handed out by the registry.
pub fn returns_summarizable_tweet() -> (r: Tweet)
    ensures
        r.username@ == "horse_ebooks"@,
        r.content@ == "of course, as you probably already know, people"@,
        !r.reply,
        !r.retweet,
{
    Tweet {
        username: String::from_str("horse_ebooks"),
        content: String::from_str("of course, as you probably already know, people"),
        reply: false,
        retweet: false,
    }
}

/// A uniform handle over the closed set of summarizable kinds, so that a
/// caller can hold and summarize an item chosen at run time without knowing
/// its concrete kind.
pub enum SummaryItem {
    Article(NewsArticle),
    Post(Tweet),
}

impl Summary for SummaryItem {
    open spec fn author_spec(&self) -> Seq<char> {
        match self {
            SummaryItem::Article(a) => a.author_spec(),
            SummaryItem::Post(t) => t.author_spec(),
        }
    }

    open spec fn summary_spec(&self) -> Seq<char> {
        match self {
            SummaryItem::Article(a) => a.summary_spec(),
            SummaryItem::Post(t) => t.summary_spec(),
        }
    }

    fn summarize_author(&self) -> (r: String) {
        match self {
            SummaryItem::Article(a) => a.summarize_author(),
            SummaryItem::Post(t) => t.summarize_author(),
        }
    }

    fn summarize(&self) -> (r: String)
        ensures
            r@ == self.summary_spec(),
    {
        match self {
            SummaryItem::Article(a) => a.summarize(),
            SummaryItem::Post(t) => t.summarize(),
        }
    }
}

/// Selects between the two kinds at run time, returning the choice through
/// the uniform handle: the article kind for `true`, the short-post kind for
/// `false`.
pub fn returns_summarizable_switch(switch: bool) -> (r: SummaryItem)
    ensures
        switch ==> (r matches SummaryItem::Article(a) && a.headline@
            == "Penguins win the Stanley Cup Championship!"@ && a.author@ == "Iceburgh"@
            && a.location@ == "Pittsburgh, PA, USA"@ && a.content@
            == "The Pittsburgh Penguins once again are the best hockey team in the NHL."@),
        !switch ==> (r matches SummaryItem::Post(t) && t.username@ == "horse_ebooks"@
            && t.content@ == "of course, as you probably already know, people"@ && !t.reply
            && !t.retweet),
{
    if switch {
        SummaryItem::Article(NewsArticle {
            headline: String::from_str("Penguins win the Stanley Cup Championship!"),
            location: String::from_str("Pittsburgh, PA, USA"),
            author: String::from_str("Iceburgh"),
            content: String::from_str(
                "The Pittsburgh Penguins once again are the best hockey team in the NHL.",
            ),
        })
    } else {
        SummaryItem::Post(returns_summarizable_tweet())
    }
}

/// An item that carries nothing but its author's name and does not override
/// the full summary: summarizing it applies the default composition rule.
pub struct PlainItem {
    pub author: String,
}

impl Summary for PlainItem {
    open spec fn author_spec(&self) -> Seq<char> {
        self.author@
    }

    open spec fn summary_spec(&self) -> Seq<char> {
        default_summary_of(self.author@)
    }

    fn summarize_author(&self) -> (r: String) {
        self.author.clone()
    }
}

/// Law: summarizing an article is pure. Any two results of `summarize` on
/// one unmodified article hold the same characters.
pub proof fn lemma_article_summarize_pure(a: &NewsArticle, r1: String, r2: String)
    requires
        call_ensures(NewsArticle::summarize, (a,), r1),
        call_ensures(NewsArticle::summarize, (a,), r2),
    ensures
        r1@ == r2@,
{
}

/// Law: summarizing a short post is pure. Any two results of `summarize` on
/// one unmodified post hold the same characters.
pub proof fn lemma_tweet_summarize_pure(t: &Tweet, r1: String, r2: String)
    requires
        call_ensures(Tweet::summarize, (t,), r1),
        call_ensures(Tweet::summarize, (t,), r2),
    ensures
        r1@ == r2@,
{
}

/// Law: summarizing through the uniform handle is pure, whichever kind the
/// handle holds.
pub proof fn lemma_item_summarize_pure(i: &SummaryItem, r1: String, r2: String)
    requires
        call_ensures(SummaryItem::summarize, (i,), r1),
        call_ensures(SummaryItem::summarize, (i,), r2),
    ensures
        r1@ == r2@,
{
}

/// Law: summarizing a plain item is pure and returns exactly the default
/// composition over its author.
pub proof fn lemma_plain_item_summarize_default(p: &PlainItem, r: String)
    requires
        call_ensures(PlainItem::summarize, (p,), r),
    ensures
        r@ == default_summary_of(p.author@),
{
}

/// Law: a kind whose declared summary is the default composition gets
/// exactly `"(Read more from " + author + "...)"` from `summarize`, whether
/// it keeps the provided body or overrides it.
pub proof fn lemma_default_composition<T: Summary>(t: &T, r: String)
    requires
        t.summary_spec() == default_summary_of(t.author_spec()),
        call_ensures(T::summarize, (t,), r),
    ensures
        r@ == default_summary_of(t.author_spec()),
{
}

} // verus!
