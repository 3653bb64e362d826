use vstd::prelude::*;
use vstd::string::StringExecFns;

verus! {

/// A part of a longer text.
pub struct ImportantExcerpt<'a> {
    pub part: &'a str,
}

impl<'a> ImportantExcerpt<'a> {
    /// The excerpt's level, always 3.
    pub fn level(&self) -> (r: i32)
        ensures
            r == 3,
    {
        3
    }

    /// The excerpt; the announcement is for the caller to show.
    pub fn announce_and_return_part(&self, announcement: &str) -> (r: &'a str)
        ensures
            r@ == self.part@,
    {
        self.part
    }
}

/// Something that can be summed up in a line.
pub trait Summary {
    /// The summary line.
    spec fn summary_text(&self) -> Seq<char>;

    /// The line that names the author.
    spec fn author_text(&self) -> Seq<char>;

    fn summarize(&self) -> (r: String)
        ensures
            r@ == self.summary_text(),
    ;

    fn summarize_author(&self) -> (r: String)
        ensures
            r@ == self.author_text(),
    ;
}

/// Text used when an item names no author.
pub const READ_MORE: &'static str = "(Read more...)";

/// A news article.
pub struct NewsArticle {
    pub headline: String,
    pub location: String,
    pub author: String,
    pub content: String,
}

impl Summary for NewsArticle {
    /// `<headline>, by <author> (<location>)`.
    open spec fn summary_text(&self) -> Seq<char> {
        self.headline@ + ", by "@ + self.author@ + " ("@ + self.location@ + ")"@
    }

    /// `@<author>`.
    open spec fn author_text(&self) -> Seq<char> {
        "@"@ + self.author@
    }

    fn summarize(&self) -> (r: String) {
        let mut r = self.headline.clone();
        r.append(", by ");
        r.append(self.author.as_str());
        r.append(" (");
        r.append(self.location.as_str());
        r.append(")");
        r
    }

    fn summarize_author(&self) -> (r: String) {
        let mut r = "@".to_owned();
        r.append(self.author.as_str());
        r
    }
}

/// A short post.
pub struct Tweet {
    pub username: String,
    pub content: String,
    pub reply: bool,
    pub retweet: bool,
}

impl Summary for Tweet {
    /// `<username>: <content>`.
    open spec fn summary_text(&self) -> Seq<char> {
        self.username@ + ": "@ + self.content@
    }

    /// `(Read more...)`: a post names no author line.
    open spec fn author_text(&self) -> Seq<char> {
        READ_MORE@
    }

    fn summarize(&self) -> (r: String) {
        let mut r = self.username.clone();
        r.append(": ");
        r.append(self.content.as_str());
        r
    }

    fn summarize_author(&self) -> (r: String) {
        READ_MORE.to_owned()
    }
}

/// A fixed post, returned as something that can be summed up.
pub fn returns_summarizable() -> (r: Tweet)
    ensures
        r.username@ == "horse_ebooks"@,
        r.content@ == "当然，你可能已经知道了"@,
        !r.reply,
        !r.retweet,
{
    Tweet {
        username: "horse_ebooks".to_owned(),
        content: "当然，你可能已经知道了".to_owned(),
        reply: false,
        retweet: false,
    }
}

/// Always 42, whatever it is given.
pub fn some_function<T: core::fmt::Display + Clone, U: Clone + core::fmt::Debug>(_t: &T, _u: &U) -> (r: i32)
    ensures
        r == 42,
{
    42
}

/// A point with two coordinates of one type.
pub struct Point<T> {
    pub x: T,
    pub y: T,
}

impl<T> Point<T> {
    pub fn x(&self) -> (r: &T)
        ensures
            *r == self.x,
    {
        &self.x
    }
}

/// A point whose coordinates may have different types.
pub struct Point2<T, U> {
    pub x: T,
    pub y: U,
}

impl<T, U> Point2<T, U> {
    /// This point's `x` with the other point's `y`.
    pub fn mixup<V, W>(self, other: Point2<V, W>) -> (r: Point2<T, W>)
        ensures
            r.x == self.x,
            r.y == other.y,
    {
        Point2 { x: self.x, y: other.y }
    }
}

/// An optional value.
pub enum MyOption<T> {
    MySome(T),
    MyNone,
}

/// A value or an error.
pub enum MyResult<T, E> {
    MyOk(T),
    MyErr(E),
}

/// Where a point lies with respect to the axes; a point on the x axis is
/// reported as such even at the origin.
#[derive(Debug, Clone, Copy, PartialEq, Eq, Structural)]
pub enum AxisPosition {
    OnXAxis(i32),
    OnYAxis(i32),
    Neither(i32, i32),
}

/// Classifies a point by the axes it lies on.
pub fn axis_position(x: i32, y: i32) -> (r: AxisPosition)
    ensures
        r == if y == 0 {
            AxisPosition::OnXAxis(x)
        } else if x == 0 {
            AxisPosition::OnYAxis(y)
        } else {
            AxisPosition::Neither(x, y)
        },
{
    if y == 0 {
        AxisPosition::OnXAxis(x)
    } else if x == 0 {
        AxisPosition::OnYAxis(y)
    } else {
        AxisPosition::Neither(x, y)
    }
}

} // verus!
