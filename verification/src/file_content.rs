//! The text of a file, its lines, and the lines that two texts share.

use vstd::prelude::*;

verus! {

/// Where the first line of `text` ends: the position of its first line feed,
/// or the length of `text` if it holds none.
pub open spec fn line_end(text: Seq<char>) -> nat
    decreases text.len(),
{
    if text.len() == 0 || text[0] == '\n' {
        0
    } else {
        1 + line_end(text.drop_first())
    }
}

/// The lines of `text`. A line ends at a line feed, or at a carriage return
/// directly followed by a line feed; neither belongs to the line. What
/// follows the last line feed is a line too, unless it is empty.
pub open spec fn lines_of(text: Seq<char>) -> Seq<Seq<char>>
    decreases text.len(),
{
    if text.len() == 0 {
        Seq::empty()
    } else {
        let end = line_end(text) as int;
        if end >= text.len() {
            seq![text]
        } else if end > 0 && text[end - 1] == '\r' {
            seq![text.subrange(0, end - 1)] + lines_of(text.subrange(end + 1, text.len() as int))
        } else {
            seq![text.subrange(0, end)] + lines_of(text.subrange(end + 1, text.len() as int))
        }
    }
}

/// The lines of `second` that also occur in `first`, in the order of
/// `second`, each one once: at its first occurrence.
pub open spec fn common(first: Seq<Seq<char>>, second: Seq<Seq<char>>) -> Seq<Seq<char>>
    decreases second.len(),
{
    if second.len() == 0 {
        Seq::empty()
    } else {
        let before = common(first, second.drop_last());
        let line = second.last();
        if first.contains(line) && !before.contains(line) {
            before.push(line)
        } else {
            before
        }
    }
}

/// The texts of a sequence of string slices.
pub open spec fn texts(lines: Seq<&str>) -> Seq<Seq<char>> {
    lines.map_values(|line: &str| line@)
}

/// `str::eq` of the standard library. Taken on trust from its documentation:
/// two string slices are equal exactly where they hold the same characters.
pub assume_specification[ <str as PartialEq>::eq ](a: &str, b: &str) -> (same: bool)
    ensures
        same == (a@ == b@),
;

/// Calls `str::lines` of the standard library and collects what it yields.
/// Taken on trust from its documentation: these are the lines of `text` as
/// [`lines_of`] states them, in their order.
#[verifier::external_body]
fn split_lines(text: &str) -> (lines: Vec<&str>)
    ensures
        texts(lines@) == lines_of(text@),
{
    text.lines().collect()
}

/// Whether `line` occurs among `lines`.
fn occurs(lines: &Vec<&str>, line: &str) -> (found: bool)
    ensures
        found == texts(lines@).contains(line@),
{
    let mut i: usize = 0;
    while i < lines.len()
        invariant
            i <= lines.len(),
            forall|k: int| 0 <= k < i ==> texts(lines@)[k] != line@,
        decreases lines.len() - i,
    {
        if PartialEq::eq(lines[i], line) {
            assert(texts(lines@)[i as int] == line@);
            return true;
        }
        i += 1;
    }
    false
}

/// The text of a file.
pub struct FileContent {
    content: String,
}

impl View for FileContent {
    type V = Seq<char>;

    closed spec fn view(&self) -> Seq<char> {
        self.content@
    }
}

impl FileContent {
    /// An empty text.
    pub fn new() -> (empty: FileContent)
        ensures
            empty@ == Seq::<char>::empty(),
    {
        FileContent { content: String::new() }
    }

    /// The lines of the text, in their order.
    pub fn lines(&self) -> (lines: Vec<&str>)
        ensures
            texts(lines@) == lines_of(self@),
    {
        split_lines(self.content.as_str())
    }

    /// The lines of `content` that also occur in this text, in the order of
    /// `content`, each one once.
    pub fn common_lines<'a>(&self, content: &'a FileContent) -> (shared: Vec<&'a str>)
        ensures
            texts(shared@) == common(lines_of(self@), lines_of(content@)),
    {
        let first = self.lines();
        let second = content.lines();
        let mut res: Vec<&'a str> = Vec::new();
        let mut i: usize = 0;
        assert(texts(second@).take(0) =~= Seq::empty());
        assert(texts(res@) =~= Seq::empty());
        while i < second.len()
            invariant
                i <= second.len(),
                texts(first@) == lines_of(self@),
                texts(second@) == lines_of(content@),
                texts(res@) == common(texts(first@), texts(second@).take(i as int)),
            decreases second.len() - i,
        {
            let line = second[i];
            let ghost prefix = texts(second@).take(i as int + 1);
            assert(prefix.drop_last() =~= texts(second@).take(i as int));
            assert(prefix.last() == line@);
            if occurs(&first, line) && !occurs(&res, line) {
                let ghost before = res@;
                res.push(line);
                assert(texts(res@) =~= texts(before).push(line@));
            }
            i += 1;
        }
        assert(texts(second@).take(i as int) =~= texts(second@));
        res
    }
}

/// The conversion is stated over the view, on `from` itself.
impl vstd::std_specs::convert::FromSpecImpl<&str> for FileContent {
    open spec fn obeys_from_spec() -> bool {
        false
    }

    open spec fn from_spec(text: &str) -> FileContent {
        arbitrary()
    }
}

impl From<&str> for FileContent {
    /// The text of a string slice.
    fn from(text: &str) -> (content: FileContent)
        ensures
            content@ == text@,
    {
        FileContent { content: String::from_str(text) }
    }
}

/// The conversion is stated over the view, on `from` itself.
impl vstd::std_specs::convert::FromSpecImpl<&String> for FileContent {
    open spec fn obeys_from_spec() -> bool {
        false
    }

    open spec fn from_spec(text: &String) -> FileContent {
        arbitrary()
    }
}

impl From<&String> for FileContent {
    /// The text of a string.
    fn from(text: &String) -> (content: FileContent)
        ensures
            content@ == text@,
    {
        FileContent { content: String::from_str(text.as_str()) }
    }
}

} // verus!
