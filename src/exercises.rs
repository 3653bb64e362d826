use vstd::prelude::*;
use vstd::string::{StrSliceExecFns, StringExecFns};
use vstd::utf8::encode_utf8;
use crate::text::{decimal, decimal_text};

verus! {

/// Length of a string in bytes (UTF-8).
pub fn calculate_length(s: &String) -> (r: usize)
    ensures
        r == encode_utf8(s@).len() as usize,
{
    s.as_str().len()
}

/// Appends `suffix` to `s`.
pub fn add_suffix(s: &mut String, suffix: &str)
    ensures
        final(s)@ == old(s)@ + suffix@,
{
    s.append(suffix);
}

/// A library book.
#[derive(Debug, Clone)]
pub struct Book {
    pub title: String,
    pub author: String,
    pub pages: u32,
    pub available: bool,
}

/// Message of a refused loan or of a text that is no number.
pub const NOT_IMPLEMENTED: &'static str = "未实现";

/// How a book's state is shown.
pub open spec fn availability_text(available: bool) -> Seq<char> {
    if available {
        "可用"@
    } else {
        "已借"@
    }
}

impl Book {
    /// A book with these details, available for loan.
    pub fn new(title: String, author: String, pages: u32) -> (r: Book)
        ensures
            r.title == title,
            r.author == author,
            r.pages == pages,
            r.available,
    {
        Book { title, author, pages, available: true }
    }

    /// `书名: <title>, 作者: <author>, 页数: <pages>, 状态: <可用|已借>` (available or borrowed).
    pub fn get_info(&self) -> (r: String)
        ensures
            r@ == "书名: "@ + self.title@ + ", 作者: "@ + self.author@ + ", 页数: "@ + decimal(
                self.pages as nat,
            ) + ", 状态: "@ + availability_text(self.available),
    {
        let mut r = "书名: ".to_owned();
        r.append(self.title.as_str());
        r.append(", 作者: ");
        r.append(self.author.as_str());
        r.append(", 页数: ");
        r.append(decimal_text(self.pages as u64).as_str());
        r.append(", 状态: ");
        if self.available {
            r.append("可用");
        } else {
            r.append("已借");
        }
        r
    }

    /// Lends the book: an available book becomes unavailable; lending one that is
    /// out fails and changes nothing.
    pub fn borrow_book(&mut self) -> (r: Result<(), String>)
        ensures
            old(self).available ==> r is Ok && !final(self).available,
            !old(self).available ==> (r matches Err(m) && m@ == NOT_IMPLEMENTED@) && *final(self)
                == *old(self),
            final(self).title == old(self).title,
            final(self).author == old(self).author,
            final(self).pages == old(self).pages,
    {
        if self.available {
            self.available = false;
            return Ok(());
        }
        Err(NOT_IMPLEMENTED.to_owned())
    }

    /// Marks the book available.
    pub fn return_book(&mut self)
        ensures
            final(self).available,
            final(self).title == old(self).title,
            final(self).author == old(self).author,
            final(self).pages == old(self).pages,
    {
        self.available = true;
    }
}

/// Whether `c` is an ASCII decimal digit.
pub open spec fn is_digit(c: char) -> bool {
    '0' <= c <= '9'
}

/// The value of a run of decimal digits.
pub open spec fn digits_value(s: Seq<char>) -> int
    decreases s.len(),
{
    if s.len() == 0 {
        0
    } else {
        digits_value(s.drop_last()) * 10 + (s.last() as int - '0' as int)
    }
}

/// What `i32`'s `from_str` makes of a text: an optional `+` or `-`, then one or
/// more ASCII digits, with a value that fits in an `i32`; anything else fails.
pub open spec fn decimal_i32(s: Seq<char>) -> Option<int> {
    let signed = s.len() > 0 && (s[0] == '-' || s[0] == '+');
    let digits = if signed {
        s.drop_first()
    } else {
        s
    };
    let magnitude = digits_value(digits);
    let value = if signed && s[0] == '-' {
        -magnitude
    } else {
        magnitude
    };
    if digits.len() > 0 && (forall|i: int| 0 <= i < digits.len() ==> is_digit(#[trigger] digits[i]))
        && i32::MIN <= value <= i32::MAX {
        Some(value)
    } else {
        None
    }
}

/// Relies on `str::parse::<i32>` (`i32::from_str`): an optional sign and decimal
/// digits in range are accepted, anything else (whitespace included) is an error.
#[verifier::external_body]
fn parse_i32(s: &str) -> (r: Option<i32>)
    ensures
        match r {
            Some(v) => decimal_i32(s@) == Some(v as int),
            None => decimal_i32(s@) is None,
        },
{
    s.parse::<i32>().ok()
}

/// The number a text writes, or an error.
pub fn parse_number(s: &str) -> (r: Result<i32, String>)
    ensures
        match decimal_i32(s@) {
            Some(v) => r == Ok::<i32, String>(v as i32),
            None => r matches Err(m) && m@ == NOT_IMPLEMENTED@,
        },
{
    match parse_i32(s) {
        Some(num) => Ok(num),
        None => Err(NOT_IMPLEMENTED.to_owned()),
    }
}

/// The even numbers of a sequence, in order.
pub open spec fn evens(s: Seq<i32>) -> Seq<i32>
    decreases s.len(),
{
    if s.len() == 0 {
        s
    } else if s.last() % 2 == 0 {
        evens(s.drop_last()).push(s.last())
    } else {
        evens(s.drop_last())
    }
}

/// Keeps the even numbers, in order.
pub fn filter_even_numbers(numbers: Vec<i32>) -> (r: Vec<i32>)
    ensures
        r@ == evens(numbers@),
{
    let mut r: Vec<i32> = Vec::new();
    let mut i: usize = 0;
    while i < numbers.len()
        invariant
            i <= numbers@.len(),
            r@ == evens(numbers@.take(i as int)),
        decreases numbers@.len() - i,
    {
        let x = numbers[i];
        assert(numbers@.take(i + 1).drop_last() =~= numbers@.take(i as int));
        if x % 2 == 0 {
            r.push(x);
        }
        i = i + 1;
    }
    assert(numbers@.take(i as int) =~= numbers@);
    r
}

/// How many times `c` occurs in `s`.
pub open spec fn occurrences(s: Seq<char>, c: char) -> nat
    decreases s.len(),
{
    if s.len() == 0 {
        0
    } else {
        occurrences(s.drop_last(), c) + if s.last() == c {
            1nat
        } else {
            0nat
        }
    }
}

proof fn lemma_occurrences_bounded(s: Seq<char>, c: char)
    ensures
        occurrences(s, c) <= s.len(),
    decreases s.len(),
{
    if s.len() > 0 {
        lemma_occurrences_bounded(s.drop_last(), c);
    }
}

/// Every character of `s` has an entry in `r`.
pub open spec fn lists_every_char(r: Seq<(char, usize)>, s: Seq<char>) -> bool {
    forall|k: int|
        #![trigger s[k]]
        0 <= k < s.len() ==> exists|a: int| 0 <= a < r.len() && (#[trigger] r[a]).0 == s[k]
}

/// Each character of `text` with the number of times it occurs, in order of first
/// occurrence.
pub fn count_characters(text: &str) -> (r: Vec<(char, usize)>)
    ensures
        forall|a: int, b: int| 0 <= a < b < r@.len() ==> r@[a].0 != r@[b].0,
        forall|a: int| 0 <= a < r@.len() ==> (#[trigger] r@[a]).1 == occurrences(text@, r@[a].0),
        forall|a: int| 0 <= a < r@.len() ==> (#[trigger] r@[a]).1 > 0,
        lists_every_char(r@, text@),
{
    let n = text.unicode_len();
    let ghost s = text@;
    let mut res: Vec<(char, usize)> = Vec::new();
    let mut i: usize = 0;
    while i < n
        invariant
            n == s.len(),
            s == text@,
            i <= n,
            forall|a: int, b: int| 0 <= a < b < res@.len() ==> res@[a].0 != res@[b].0,
            forall|a: int|
                0 <= a < res@.len() ==> (#[trigger] res@[a]).1 == occurrences(s.take(i as int), res@[a].0),
            forall|a: int| 0 <= a < res@.len() ==> (#[trigger] res@[a]).1 > 0,
            lists_every_char(res@, s.take(i as int)),
            forall|c: char|
                occurrences(s.take(i as int), c) > 0 ==> exists|a: int|
                    0 <= a < res@.len() && (#[trigger] res@[a]).0 == c,
        decreases n - i,
    {
        let c = text.get_char(i);
        let ghost before = res@;
        proof {
            assert(s.take(i + 1).drop_last() =~= s.take(i as int));
            lemma_occurrences_bounded(s.take(i as int), c);
        }
        let mut j: usize = 0;
        let mut found = false;
        while j < res.len()
            invariant_except_break
                !found,
            invariant
                res@ == before,
                j <= res@.len(),
                forall|a: int| 0 <= a < j ==> (#[trigger] res@[a]).0 != c,
            ensures
                res@ == before,
                found ==> j < res@.len() && res@[j as int].0 == c,
                !found ==> forall|a: int| 0 <= a < res@.len() ==> (#[trigger] res@[a]).0 != c,
            decreases res@.len() - j,
        {
            if res[j].0 == c {
                found = true;
                break;
            }
            j = j + 1;
        }
        if found {
            let count = res[j].1;
            res.set(j, (c, count + 1));
        } else {
            proof {
                if occurrences(s.take(i as int), c) > 0 {
                    let a = choose|a: int| 0 <= a < before.len() && (#[trigger] before[a]).0 == c;
                }
            }
            res.push((c, 1));
        }
        proof {
            let ghost prev = s.take(i as int);
            let ghost cur = s.take(i + 1);
            assert forall|k: int| #![trigger cur[k]] 0 <= k < cur.len() implies exists|a: int|
                0 <= a < res@.len() && (#[trigger] res@[a]).0 == cur[k] by {
                if k < i {
                    assert(prev[k] == cur[k]);
                    let a = choose|a: int| 0 <= a < before.len() && (#[trigger] before[a]).0 == prev[k];
                    assert(res@[a].0 == cur[k]);
                } else {
                    if found {
                        assert(res@[j as int].0 == s[k]);
                    } else {
                        assert(res@[before.len() as int].0 == s[k]);
                    }
                }
            }
            let ghost next = s.take(i + 1);
            assert forall|d: char| #[trigger] occurrences(next, d) > 0 implies exists|a: int|
                0 <= a < res@.len() && (#[trigger] res@[a]).0 == d by {
                assert(next.drop_last() =~= s.take(i as int));
                assert(next.last() == c);
                if d == c {
                    if found {
                        assert(res@[j as int].0 == d);
                    } else {
                        assert(res@[before.len() as int].0 == d);
                    }
                } else {
                    assert(occurrences(next, d) == occurrences(s.take(i as int), d));
                    let a = choose|a: int| 0 <= a < before.len() && (#[trigger] before[a]).0 == d;
                    assert(res@[a].0 == d);
                }
            }
        }
        i = i + 1;
    }
    proof {
        assert(s.take(i as int) =~= s);
    }
    res
}

/// The longer of two texts by byte length; `y` when they are equally long.
pub fn longest<'a>(x: &'a str, y: &'a str) -> (r: &'a str)
    ensures
        r@ == if encode_utf8(x@).len() as usize > encode_utf8(y@).len() as usize {
            x@
        } else {
            y@
        },
{
    if x.len() > y.len() {
        x
    } else {
        y
    }
}

/// Unicode's `White_Space` characters.
pub open spec fn is_white_space(c: char) -> bool {
    ('\u{9}' <= c && c <= '\u{d}') || c == ' ' || c == '\u{85}' || c == '\u{a0}' || c
        == '\u{1680}' || ('\u{2000}' <= c && c <= '\u{200a}') || c == '\u{2028}' || c
        == '\u{2029}' || c == '\u{202f}' || c == '\u{205f}' || c == '\u{3000}'
}

/// Relies on `char::is_whitespace`: true exactly for the `White_Space` characters.
#[verifier::external_body]
fn white_space(c: char) -> (r: bool)
    ensures
        r == is_white_space(c),
{
    c.is_whitespace()
}

/// The maximal runs of non-white-space characters of `s`, in order.
pub open spec fn words(s: Seq<char>) -> Seq<Seq<char>>
    decreases s.len(),
{
    if s.len() == 0 {
        Seq::empty()
    } else {
        let w = words(s.drop_last());
        let c = s.last();
        if is_white_space(c) {
            w
        } else if s.len() >= 2 && !is_white_space(s[s.len() - 2]) {
            w.update(w.len() - 1, w.last().push(c))
        } else {
            w.push(seq![c])
        }
    }
}

/// Length in bytes (UTF-8) of a text, as `str::len` gives it.
pub open spec fn byte_len(w: Seq<char>) -> usize {
    encode_utf8(w).len() as usize
}

/// The texts that character spans cut out of `s`.
pub open spec fn span_texts(s: Seq<char>, spans: Seq<(usize, usize)>) -> Seq<Seq<char>> {
    Seq::new(spans.len(), |k: int| s.subrange(spans[k].0 as int, spans[k].1 as int))
}

/// The character spans of the words of `text`, in order.
fn word_spans(text: &str) -> (r: Vec<(usize, usize)>)
    ensures
        span_texts(text@, r@) == words(text@),
        forall|k: int| 0 <= k < r@.len() ==> (#[trigger] r@[k]).0 <= r@[k].1 <= text@.len(),
{
    let n = text.unicode_len();
    let ghost s = text@;
    let mut spans: Vec<(usize, usize)> = Vec::new();
    let mut in_word = false;
    let mut start: usize = 0;
    let mut i: usize = 0;
    while i < n
        invariant
            n == s.len(),
            s == text@,
            i <= n,
            in_word == (i > 0 && !is_white_space(s[i - 1])),
            in_word ==> start < i,
            forall|k: int| 0 <= k < spans@.len() ==> (#[trigger] spans@[k]).0 <= spans@[k].1 <= i,
            in_word ==> words(s.take(i as int)) == span_texts(s, spans@).push(
                s.subrange(start as int, i as int),
            ),
            !in_word ==> words(s.take(i as int)) == span_texts(s, spans@),
        decreases n - i,
    {
        let c = text.get_char(i);
        let ghost t = s.take(i + 1);
        let ghost old_texts = span_texts(s, spans@);
        proof {
            assert(t.drop_last() =~= s.take(i as int));
            assert(t.last() == c);
            if i >= 1 {
                assert(t[i - 1] == s[i - 1]);
            }
        }
        if white_space(c) {
            if in_word {
                spans.push((start, i));
                assert(span_texts(s, spans@) =~= old_texts.push(s.subrange(start as int, i as int)));
            }
            in_word = false;
        } else {
            if !in_word {
                start = i;
                in_word = true;
                assert(s.subrange(i as int, i + 1) =~= seq![c]);
            } else {
                let ghost w = old_texts.push(s.subrange(start as int, i as int));
                assert(s.subrange(start as int, i + 1) =~= s.subrange(start as int, i as int).push(c));
                assert(w.update(w.len() - 1, w.last().push(c)) =~= old_texts.push(
                    s.subrange(start as int, i + 1),
                ));
            }
        }
        i = i + 1;
    }
    assert(s.take(i as int) =~= s);
    if in_word {
        let ghost old_texts = span_texts(s, spans@);
        spans.push((start, n));
        assert(span_texts(s, spans@) =~= old_texts.push(s.subrange(start as int, n as int)));
    }
    spans
}

/// Word statistics over a borrowed text.
pub struct TextAnalyzer<'a> {
    pub text: &'a str,
}

impl<'a> TextAnalyzer<'a> {
    /// An analyzer of `text`.
    pub fn new(text: &'a str) -> (r: TextAnalyzer<'a>)
        ensures
            r.text@ == text@,
    {
        TextAnalyzer { text }
    }

    /// Number of words, words being separated by white space.
    pub fn word_count(&self) -> (r: usize)
        ensures
            r == words(self.text@).len(),
    {
        let spans = word_spans(self.text);
        assert(span_texts(self.text@, spans@).len() == spans@.len());
        spans.len()
    }

    /// The longest word by byte length, the last one among equally long ones;
    /// `None` when there is no word.
    pub fn longest_word(&self) -> (r: Option<&'a str>)
        ensures
            match r {
                None => words(self.text@).len() == 0,
                Some(w) => exists|k: int|
                    0 <= k < words(self.text@).len() && w@ == words(self.text@)[k] && (forall|j: int|
                        0 <= j < words(self.text@).len() ==> byte_len(#[trigger] words(self.text@)[j])
                            <= byte_len(words(self.text@)[k])) && (forall|j: int|
                        k < j < words(self.text@).len() ==> byte_len(#[trigger] words(self.text@)[j])
                            < byte_len(words(self.text@)[k])),
            },
    {
        let text: &'a str = self.text;
        let spans = word_spans(text);
        let ghost ws = words(text@);
        assert(ws.len() == spans@.len());
        if spans.len() == 0 {
            return None;
        }
        let mut best: usize = 0;
        let mut best_len: usize = text.substring_char(spans[0].0, spans[0].1).len();
        let mut i: usize = 1;
        while i < spans.len()
            invariant
                ws == words(text@),
                ws == span_texts(text@, spans@),
                ws.len() == spans@.len(),
                forall|k: int| 0 <= k < spans@.len() ==> (#[trigger] spans@[k]).0 <= spans@[k].1 <= text@.len(),
                1 <= i <= spans@.len(),
                best < i,
                best_len == byte_len(ws[best as int]),
                forall|j: int| 0 <= j < i ==> byte_len(#[trigger] ws[j]) <= best_len,
                forall|j: int| best < j < i ==> byte_len(#[trigger] ws[j]) < best_len,
            decreases spans@.len() - i,
        {
            let (a, b) = spans[i];
            let len = text.substring_char(a, b).len();
            assert(ws[i as int] == text@.subrange(a as int, b as int));
            if len >= best_len {
                best = i;
                best_len = len;
            }
            i = i + 1;
        }
        let (a, b) = spans[best];
        let w = text.substring_char(a, b);
        assert(w@ == ws[best as int]);
        Some(w)
    }
}

/// A node of a singly linked list of integers.
#[derive(Debug)]
pub struct ListNode {
    pub value: i32,
    pub next: Option<Box<ListNode>>,
}

impl ListNode {
    /// A node with no successor.
    pub fn new(value: i32) -> (r: ListNode)
        ensures
            r.value == value,
            r.next is None,
    {
        ListNode { value, next: None }
    }

    /// Makes a new node holding `value` this node's successor, replacing any
    /// earlier one.
    pub fn add_next(&mut self, value: i32)
        ensures
            final(self).value == old(self).value,
            final(self).next matches Some(n) && n.value == value && n.next is None,
    {
        self.next = Some(Box::new(ListNode::new(value)));
    }
}

} // verus!
