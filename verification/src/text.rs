use vstd::prelude::*;

use crate::term::{
    bg_code, bg_reset, bg_sequence, bold_off, bold_on, fg_code, fg_reset, fg_sequence, italic_off,
    italic_on, push_char, underline_off, underline_on,
};
use crate::theme::Colour;
use crate::widths::{lemma_cut_point_bounds, lemma_cut_point_is, lemma_text_cols_monotone, CharWidths};

verus! {

/// What a styled span is: its characters and its style.
pub ghost struct Span {
    pub text: Seq<char>,
    pub fg: Option<Colour>,
    pub bg: Option<Colour>,
    pub bold: bool,
    pub italic: bool,
    pub underline: bool,
}

impl Span {
    /// The span of `text` without any style.
    pub open spec fn plain(text: Seq<char>) -> Span {
        Span { text, fg: None, bg: None, bold: false, italic: false, underline: false }
    }

    /// The same style around another text.
    pub open spec fn with_text(self, text: Seq<char>) -> Span {
        Span { text, ..self }
    }

    /// The same span on the background `colour`.
    pub open spec fn on(self, colour: Colour) -> Span {
        Span { bg: Some(colour), ..self }
    }

    /// The same span in the foreground `colour`.
    pub open spec fn coloured(self, colour: Colour) -> Span {
        Span { fg: Some(colour), ..self }
    }

    /// The columns that the span takes on screen.
    pub open spec fn cols(self, widths: CharWidths) -> nat {
        widths.text_cols(self.text)
    }

    /// The span cut off at the right: it keeps the leading characters at
    /// which the text is still narrower than `n` columns.
    pub open spec fn truncated(self, widths: CharWidths, n: int) -> Span {
        self.with_text(self.text.take(widths.cut_point(self.text, n)))
    }

    /// The span cut off at the left by `n` columns. A span that is no wider
    /// than a cut of one column or more loses all its text and keeps its
    /// style. A wider span, and any span at a cut of no column, loses the
    /// leading characters at which the text is still narrower than `n`
    /// columns.
    pub open spec fn front_cut(self, widths: CharWidths, n: int) -> Span {
        if n > 0 && self.cols(widths) <= n {
            self.with_text(Seq::empty())
        } else {
            self.with_text(self.text.skip(widths.cut_point(self.text, n)))
        }
    }

    /// The sequences that switch the style on: background, foreground, bold,
    /// italic, underline.
    pub open spec fn style_on(self) -> Seq<char> {
        (match self.bg {
            Some(colour) => bg_code(colour),
            None => Seq::empty(),
        }) + (match self.fg {
            Some(colour) => fg_code(colour),
            None => Seq::empty(),
        }) + (if self.bold {
            "\x1B[1m"@
        } else {
            Seq::empty()
        }) + (if self.italic {
            "\x1B[3m"@
        } else {
            Seq::empty()
        }) + (if self.underline {
            "\x1B[4m"@
        } else {
            Seq::empty()
        })
    }

    /// The sequences that switch the style off, in the reverse order.
    pub open spec fn style_off(self) -> Seq<char> {
        (if self.underline {
            "\x1B[24m"@
        } else {
            Seq::empty()
        }) + (if self.italic {
            "\x1B[23m"@
        } else {
            Seq::empty()
        }) + (if self.bold {
            "\x1B[21m"@
        } else {
            Seq::empty()
        }) + (if self.fg is Some {
            "\x1B[39m"@
        } else {
            Seq::empty()
        }) + (if self.bg is Some {
            "\x1B[49m"@
        } else {
            Seq::empty()
        })
    }

    /// What is written to the terminal for the span: the style switched on,
    /// the text, the style switched off.
    pub open spec fn shown(self) -> Seq<char> {
        self.style_on() + self.text + self.style_off()
    }
}

/// A run of text in one style.
#[derive(Debug, PartialEq, Eq)]
pub struct Fancy {
    text: String,
    fg: Option<Colour>,
    bg: Option<Colour>,
    bold: bool,
    italic: bool,
    underline: bool,
}

impl View for Fancy {
    type V = Span;

    closed spec fn view(&self) -> Span {
        Span {
            text: self.text@,
            fg: self.fg,
            bg: self.bg,
            bold: self.bold,
            italic: self.italic,
            underline: self.underline,
        }
    }
}

impl Clone for Fancy {
    fn clone(&self) -> (copy: Fancy)
        ensures
            copy@ == self@,
    {
        Fancy {
            text: self.text.clone(),
            fg: self.fg,
            bg: self.bg,
            bold: self.bold,
            italic: self.italic,
            underline: self.underline,
        }
    }
}

impl Fancy {
    /// A span of `text` without any style.
    pub fn new(text: &str) -> (span: Fancy)
        ensures
            span@ == Span::plain(text@),
    {
        Fancy {
            text: String::from_str(text),
            fg: None,
            bg: None,
            bold: false,
            italic: false,
            underline: false,
        }
    }

    /// The span in the foreground `colour`.
    pub fn fg(self, colour: Colour) -> (span: Fancy)
        ensures
            span@ == self@.coloured(colour),
    {
        let mut span = self;
        span.fg = Some(colour);
        span
    }

    /// The span on the background `colour`.
    pub fn bg(self, colour: Colour) -> (span: Fancy)
        ensures
            span@ == self@.on(colour),
    {
        let mut span = self;
        span.bg = Some(colour);
        span
    }

    /// The background of the span, if it has one.
    pub fn get_bg(&self) -> (colour: Option<Colour>)
        ensures
            colour == self@.bg,
    {
        self.bg
    }

    /// The span in bold.
    pub fn bold(self) -> (span: Fancy)
        ensures
            span@ == (Span { bold: true, ..self@ }),
    {
        let mut span = self;
        span.bold = true;
        span
    }

    /// The span in italics.
    pub fn italic(self) -> (span: Fancy)
        ensures
            span@ == (Span { italic: true, ..self@ }),
    {
        let mut span = self;
        span.italic = true;
        span
    }

    /// The span underlined.
    pub fn underline(self) -> (span: Fancy)
        ensures
            span@ == (Span { underline: true, ..self@ }),
    {
        let mut span = self;
        span.underline = true;
        span
    }

    /// Whether the span has no text.
    pub fn is_empty(&self) -> (empty: bool)
        ensures
            empty == (self@.text.len() == 0),
    {
        self.text.as_str().is_empty()
    }

    /// The columns that the text needs, or the largest machine word where
    /// the sum does not fit in one.
    pub fn cols(&self, widths: &CharWidths) -> (cols: usize)
        ensures
            cols == if self@.cols(*widths) <= usize::MAX {
                self@.cols(*widths)
            } else {
                usize::MAX as nat
            },
    {
        let mut total: usize = 0;
        for c in it: self.text.as_str().chars()
            invariant
                it.seq() == self.text@,
                total == if widths.text_cols(self.text@.take(it.index())) <= usize::MAX {
                    widths.text_cols(self.text@.take(it.index()))
                } else {
                    usize::MAX as nat
                },
        {
            assert(self.text@.take(it.index() + 1).drop_last() =~= self.text@.take(it.index()));
            total = total.saturating_add(widths.char_cols(c) as usize);
        }
        assert(self.text@.take(self.text@.len() as int) =~= self.text@);
        total
    }

    /// The span cut off at the right, in the same style: it keeps the
    /// leading characters at which the text is still narrower than `cols`.
    pub fn truncate(&self, cols: usize, widths: &CharWidths) -> (span: Fancy)
        ensures
            span@ == self@.truncated(*widths, cols as int),
    {
        let mut kept = String::new();
        let mut taking = true;
        let mut reached: usize = 0;
        for c in it: self.text.as_str().chars()
            invariant
                it.seq() == self.text@,
                taking ==> kept@ == self.text@.take(it.index()),
                taking ==> it.index() == 0 || widths.text_cols(self.text@.take(it.index()))
                    < cols,
                taking ==> reached == widths.text_cols(self.text@.take(it.index())),
                !taking ==> kept@ == self.text@.take(widths.cut_point(self.text@, cols as int)),
        {
            if taking {
                let ghost i = it.index();
                assert(self.text@.take(i + 1).drop_last() =~= self.text@.take(i));
                reached = reached.saturating_add(widths.char_cols(c) as usize);
                if reached < cols {
                    push_char(&mut kept, c);
                    assert(kept@ =~= self.text@.take(i + 1));
                } else {
                    taking = false;
                    proof {
                        lemma_cut_point_is(*widths, self.text@, cols as int, i);
                    }
                }
            }
        }
        proof {
            if taking {
                lemma_cut_point_is(*widths, self.text@, cols as int, self.text@.len() as int);
            }
        }
        Fancy {
            text: kept,
            fg: self.fg,
            bg: self.bg,
            bold: self.bold,
            italic: self.italic,
            underline: self.underline,
        }
    }

    /// Whether the text takes no more than `cols` columns.
    fn fits(&self, cols: usize, widths: &CharWidths) -> (fits: bool)
        ensures
            fits == (self@.cols(*widths) <= cols),
    {
        let mut total: usize = 0;
        let mut over = false;
        for c in it: self.text.as_str().chars()
            invariant
                it.seq() == self.text@,
                !over ==> total == widths.text_cols(self.text@.take(it.index())) && total <= cols,
                over ==> widths.text_cols(self.text@.take(it.index())) > cols,
        {
            assert(self.text@.take(it.index() + 1).drop_last() =~= self.text@.take(it.index()));
            if !over {
                let width = widths.char_cols(c) as usize;
                if width > cols - total {
                    over = true;
                } else {
                    total = total + width;
                }
            }
        }
        assert(self.text@.take(self.text@.len() as int) =~= self.text@);
        !over
    }

    /// The span cut off at the left by `cols` columns, in the same style. A
    /// span that is no wider than a cut of one column or more loses all its
    /// text. A wider span, and any span at a cut of no column, loses the
    /// leading characters at which the text is still narrower than `cols`.
    pub fn truncate_front(&self, cols: usize, widths: &CharWidths) -> (span: Fancy)
        ensures
            span@ == self@.front_cut(*widths, cols as int),
    {
        if cols > 0 && self.fits(cols, widths) {
            return Fancy {
                text: String::new(),
                fg: self.fg,
                bg: self.bg,
                bold: self.bold,
                italic: self.italic,
                underline: self.underline,
            };
        }
        let mut rest = String::new();
        let mut skipping = true;
        let mut removed: usize = 0;
        for c in it: self.text.as_str().chars()
            invariant
                it.seq() == self.text@,
                skipping ==> rest@.len() == 0,
                skipping ==> it.index() == 0 || widths.text_cols(self.text@.take(it.index()))
                    < cols,
                skipping ==> removed == widths.text_cols(self.text@.take(it.index())),
                !skipping ==> 0 <= widths.cut_point(self.text@, cols as int) <= it.index(),
                !skipping ==> rest@ == self.text@.subrange(
                    widths.cut_point(self.text@, cols as int),
                    it.index(),
                ),
        {
            let ghost i = it.index();
            if skipping {
                assert(self.text@.take(i + 1).drop_last() =~= self.text@.take(i));
                removed = removed.saturating_add(widths.char_cols(c) as usize);
                if removed >= cols {
                    skipping = false;
                    proof {
                        lemma_cut_point_is(*widths, self.text@, cols as int, i);
                    }
                }
            }
            if !skipping {
                push_char(&mut rest, c);
                assert(rest@ =~= self.text@.subrange(
                    widths.cut_point(self.text@, cols as int),
                    i + 1,
                ));
            }
        }
        proof {
            if skipping {
                lemma_cut_point_is(*widths, self.text@, cols as int, self.text@.len() as int);
            }
            assert(rest@ =~= self.text@.skip(widths.cut_point(self.text@, cols as int)));
        }
        Fancy {
            text: rest,
            fg: self.fg,
            bg: self.bg,
            bold: self.bold,
            italic: self.italic,
            underline: self.underline,
        }
    }

    /// What is written to the terminal for the span.
    pub fn to_string(&self) -> (out: String)
        ensures
            out@ == self@.shown(),
    {
        let bg = match self.bg {
            Some(colour) => bg_sequence(colour),
            None => String::new(),
        };
        let fg = match self.fg {
            Some(colour) => fg_sequence(colour),
            None => String::new(),
        };
        let bold = if self.bold { bold_on() } else { String::new() };
        let italic = if self.italic { italic_on() } else { String::new() };
        let underline = if self.underline { underline_on() } else { String::new() };
        let no_underline = if self.underline { underline_off() } else { String::new() };
        let no_italic = if self.italic { italic_off() } else { String::new() };
        let no_bold = if self.bold { bold_off() } else { String::new() };
        let no_fg = if self.fg.is_some() { fg_reset() } else { String::new() };
        let no_bg = if self.bg.is_some() { bg_reset() } else { String::new() };
        let mut out = bg;
        out.append(fg.as_str());
        out.append(bold.as_str());
        out.append(italic.as_str());
        out.append(underline.as_str());
        assert(out@ == self@.style_on());
        let mut tail = no_underline;
        tail.append(no_italic.as_str());
        tail.append(no_bold.as_str());
        tail.append(no_fg.as_str());
        tail.append(no_bg.as_str());
        assert(tail@ == self@.style_off());
        out.append(self.text.as_str());
        out.append(tail.as_str());
        out
    }
}

/// Cutting nothing off at the left leaves a span as it is.
pub proof fn lemma_front_cut_nothing(span: Span, widths: CharWidths)
    ensures
        span.front_cut(widths, 0) == span,
{
    lemma_cut_point_is(widths, span.text, 0, 0);
    assert(span.text.skip(0) =~= span.text);
}

/// Cutting off as many columns at the left as a span has, or more, leaves a
/// span without text in the same style. The cut is of one column or more:
/// a cut of none leaves every span as it is, also one whose text takes no
/// column.
pub proof fn lemma_front_cut_everything(span: Span, widths: CharWidths, n: int)
    requires
        n >= span.cols(widths),
        n > 0 || span.text.len() == 0,
    ensures
        span.front_cut(widths, n) == span.with_text(Seq::empty()),
        span.front_cut(widths, n).fg == span.fg,
        span.front_cut(widths, n).bg == span.bg,
        span.front_cut(widths, n).bold == span.bold,
        span.front_cut(widths, n).italic == span.italic,
        span.front_cut(widths, n).underline == span.underline,
{
    if n <= 0 {
        assert(span.text.skip(widths.cut_point(span.text, n)) =~= Seq::<char>::empty());
    }
}

/// A cut at the left leaves no text just when the span has none, or the cut
/// is of one column or more and the span is no wider than the cut.
pub proof fn lemma_front_cut_empty_iff(span: Span, widths: CharWidths, n: int)
    ensures
        span.front_cut(widths, n).text.len() == 0 <==> span.text.len() == 0 || (n > 0
            && span.cols(widths) <= n),
{
    lemma_cut_point_bounds(widths, span.text, n);
    let k = widths.cut_point(span.text, n);
    if k == span.text.len() && k > 0 {
        assert(span.text.take(k) =~= span.text);
    }
}

/// The boundary rule of a cut at the right: what is kept is narrower than
/// the cut, by one column or more, unless nothing is kept; and one character
/// more would reach the cut. So a cut at `n + 1` columns fills `n` columns
/// or, where a wide character would straddle the edge, fewer.
pub proof fn lemma_truncated_stays_below(span: Span, widths: CharWidths, n: int)
    ensures
        span.truncated(widths, n).text.len() == 0 || span.truncated(widths, n).cols(widths) < n,
        span.truncated(widths, n).cols(widths) <= span.cols(widths),
        span.cols(widths) < n ==> span.truncated(widths, n) == span,
{
    lemma_cut_point_bounds(widths, span.text, n);
    let k = widths.cut_point(span.text, n);
    lemma_text_cols_monotone(widths, span.text, k, span.text.len() as int);
    assert(span.text.take(span.text.len() as int) =~= span.text);
    if span.cols(widths) < n {
        if span.text.len() > 0 {
            lemma_cut_point_is(widths, span.text, n, span.text.len() as int);
        }
        assert(span.text.take(k) =~= span.text);
    }
}

} // verus!
