//! Lines of text with a style, and how lists of them are made up.

use vstd::prelude::*;
use vstd::string::*;
use crate::fixed::{push_size, size_text, MAX_PART, SCALE};
use crate::text::own;

verus! {

/// How a line is shown.
#[derive(Debug, Clone, Copy, PartialEq, Eq, Structural)]
pub enum LineStyle {
    Plain,
    Dim,
    /// Profit.
    Good,
    /// What to mind.
    Warn,
    /// Loss.
    Bad,
    /// The bet of a structure.
    Thesis,
    /// Danger.
    Alarm,
    /// A short leg.
    Short,
    /// A heading.
    Head,
    /// The value being edited.
    Picked,
    /// Key names in square brackets, shown as headings, and what they do.
    Keys,
}

/// A line of text.
#[derive(Debug, Clone)]
pub struct TextLine {
    pub style: LineStyle,
    pub text: String,
}

/// What a [`TextLine`] shows.
pub struct LineView {
    pub style: LineStyle,
    pub text: Seq<char>,
}

impl View for TextLine {
    type V = LineView;

    open spec fn view(&self) -> LineView {
        LineView { style: self.style, text: self.text@ }
    }
}

/// What a list of lines shows.
pub open spec fn lines(v: Seq<TextLine>) -> Seq<LineView> {
    v.map_values(|l: TextLine| l@)
}

/// A line.
pub open spec fn line(style: LineStyle, text: Seq<char>) -> LineView {
    LineView { style, text }
}

/// A plain line.
pub open spec fn plain(text: Seq<char>) -> LineView {
    line(LineStyle::Plain, text)
}

/// No lines.
pub open spec fn no_lines() -> Seq<LineView> {
    Seq::empty()
}

/// A list without lines.
pub fn start_lines() -> (r: Vec<TextLine>)
    ensures
        lines(r@) == no_lines(),
{
    let v: Vec<TextLine> = Vec::new();
    assert(lines(v@) =~= no_lines());
    v
}

/// Adds a line.
pub fn put_line(out: &mut Vec<TextLine>, style: LineStyle, text: String)
    ensures
        lines(final(out)@) == lines(old(out)@).push(line(style, text@)),
{
    out.push(TextLine { style, text });
    assert(lines(out@) =~= lines(old(out)@).push(line(style, text@)));
}

/// Adds a line of fixed text.
pub fn put_text(out: &mut Vec<TextLine>, style: LineStyle, text: &str)
    ensures
        lines(final(out)@) == lines(old(out)@).push(line(style, text@)),
{
    put_line(out, style, own(text));
}

/// Adds the lines of another list.
pub fn put_all(out: &mut Vec<TextLine>, more: Vec<TextLine>)
    ensures
        lines(final(out)@) == lines(old(out)@) + lines(more@),
{
    let mut more = more;
    let ghost (a, b) = (out@, more@);
    out.append(&mut more);
    assert(lines(out@) =~= lines(a) + lines(b));
}

/// `n` spaces.
pub open spec fn spaces(n: nat) -> Seq<char> {
    Seq::new(n, |i: int| ' ')
}

/// `s` with spaces in front up to the width `w`.
pub open spec fn right_aligned(s: Seq<char>, w: nat) -> Seq<char> {
    if s.len() < w {
        spaces((w - s.len()) as nat) + s
    } else {
        s
    }
}

/// `s` with spaces behind up to the width `w`.
pub open spec fn left_aligned(s: Seq<char>, w: nat) -> Seq<char> {
    if s.len() < w {
        s + spaces((w - s.len()) as nat)
    } else {
        s
    }
}

fn push_spaces(s: &mut String, n: usize)
    ensures
        final(s)@ == old(s)@ + spaces(n as nat),
{
    let mut i: usize = 0;
    assert(s@ =~= old(s)@ + spaces(0));
    while i < n
        invariant
            i <= n,
            s@ == old(s)@ + spaces(i as nat),
        decreases n - i,
    {
        s.push(' ');
        i = i + 1;
        assert(s@ =~= old(s)@ + spaces(i as nat));
    }
}

/// Appends `t`, right-aligned in the width `w`.
pub fn push_right(s: &mut String, t: &str, w: usize)
    ensures
        final(s)@ == old(s)@ + right_aligned(t@, w as nat),
{
    let n: usize = t.unicode_len();
    if n < w {
        push_spaces(s, w - n);
        s.append(t);
        assert(s@ =~= old(s)@ + right_aligned(t@, w as nat));
    } else {
        s.append(t);
    }
}

/// Appends `t`, left-aligned in the width `w`.
pub fn push_left(s: &mut String, t: &str, w: usize)
    ensures
        final(s)@ == old(s)@ + left_aligned(t@, w as nat),
{
    let n: usize = t.unicode_len();
    if n < w {
        s.append(t);
        push_spaces(s, w - n);
        assert(s@ =~= old(s)@ + left_aligned(t@, w as nat));
    } else {
        s.append(t);
    }
}

/// The size of an amount with `places` digits behind the point.
pub open spec fn size_of(x: int, places: nat) -> Seq<char> {
    size_text(x, SCALE as int, places)
}

/// The size of an amount as text.
pub fn size_string(x: i128, places: u8) -> (r: String)
    requires
        -MAX_PART <= x <= MAX_PART,
        places <= 2,
    ensures
        r@ == size_of(x as int, places as nat),
{
    let mut s = String::new();
    push_size(&mut s, x, 1_000_000, places);
    assert(s@ =~= size_of(x as int, places as nat));
    s
}

} // verus!
