use vstd::prelude::*;

use crate::app::{State, StateView};
use crate::error::Error;
use crate::format::{all_rows, format_stories, line_view, lines_view, score_column, Line, Lines};
use crate::term::cursor_home;
use crate::text::{Fancy, Span};
use crate::theme::{Colour, Theme};
use crate::util::{blanks, push_blanks};
use crate::viewport::reconciled_offset;
use crate::widths::CharWidths;

verus! {

/// The rows that a window of `height` rows shows of `rows` from the row
/// `row_offset` on: fewer than `height` where the rows end before.
pub open spec fn window<A>(rows: Seq<A>, row_offset: int, height: int) -> Seq<A> {
    let start = if row_offset < rows.len() {
        row_offset
    } else {
        rows.len() as int
    };
    let end = if row_offset + height < rows.len() {
        row_offset + height
    } else {
        rows.len() as int
    };
    rows.subrange(start, end)
}

/// Scrolls the selected story of `state` into a window of `height` rows,
/// and gives the rows of `lines` that the window then shows.
pub fn limit_lines(state: &mut State, lines: Lines, height: usize) -> (shown: Lines)
    requires
        old(state)@.wf(),
        height >= 2,
    ensures
        final(state)@.wf(),
        final(state)@ == (StateView {
            row_offset: reconciled_offset(
                old(state)@.selected,
                old(state)@.row_offset,
                height as int,
            ),
            ..old(state)@
        }),
        shown@ == window(lines@, final(state)@.row_offset, height as int),
{
    state.reconcile(height);
    let row_offset = *state.row_offset_get_mut();
    let ghost all = lines@;
    let mut lines = lines;
    let start = if row_offset < lines.len() { row_offset } else { lines.len() };
    let end = if height < lines.len() - start { start + height } else { lines.len() };
    lines.truncate(end);
    let shown = lines.split_off(start);
    assert(shown@ =~= window(all, row_offset as int, height as int));
    shown
}

/// Draws the stories of `state` at the time `now`, counted in seconds from
/// the start of 1970, scrolls the selected story into a window of `height`
/// rows, and gives the rows that the window shows. The error is that the
/// time of creation of one of the stories is no date; the window then stays
/// where it was.
pub fn render_stories(state: &mut State, theme: &Theme, height: usize, now: i64) -> (result:
    Result<Lines, Error>)
    requires
        old(state)@.wf(),
        height >= 2,
    ensures
        final(state)@.wf(),
        match result {
            Ok(lines) => {
                &&& final(state)@ == (StateView {
                    row_offset: reconciled_offset(
                        old(state)@.selected,
                        old(state)@.row_offset,
                        height as int,
                    ),
                    ..old(state)@
                })
                &&& all_rows(
                    old(state)@.stories,
                    old(state)@.tags,
                    *theme,
                    score_column(old(state)@.stories),
                    now,
                    old(state)@.selected,
                ) matches Some(rows) && lines_view(lines@) == window(
                    rows,
                    final(state)@.row_offset,
                    height as int,
                )
            },
            Err(err) => {
                &&& err is InvalidDate
                &&& final(state)@ == old(state)@
                &&& all_rows(
                    old(state)@.stories,
                    old(state)@.tags,
                    *theme,
                    score_column(old(state)@.stories),
                    now,
                    old(state)@.selected,
                ) is None
            },
        },
{
    let lines = match format_stories(
        state.stories(),
        state.tags(),
        theme,
        state.current_story_index(),
        now,
    ) {
        Ok(lines) => lines,
        Err(err) => {
            return Err(err);
        },
    };
    let ghost all = lines@;
    let shown = limit_lines(state, lines, height);
    assert(lines_view(shown@) =~= window(
        lines_view(all),
        state@.row_offset,
        height as int,
    ));
    Ok(shown)
}

/// What is left of `span` in a window that begins `col_offset` columns into
/// the text: the span itself where the window begins at the first column,
/// else the span cut off at the left by `col_offset` columns, and nothing
/// where that leaves no text, as it does of a span that is no wider than
/// the offset.
pub open spec fn clip(span: Span, widths: CharWidths, col_offset: int) -> Option<Span> {
    if col_offset > 0 {
        let rest = span.front_cut(widths, col_offset);
        if rest.text.len() == 0 {
            None
        } else {
            Some(rest)
        }
    } else {
        Some(span)
    }
}

/// A window that begins one column or more into the text shows nothing of
/// a span that is no wider than the offset, and nothing of a span without
/// text; of every other span it shows something.
pub proof fn lemma_clip_drops_what_the_offset_uses_up(
    span: Span,
    widths: CharWidths,
    col_offset: int,
)
    requires
        col_offset > 0,
    ensures
        clip(span, widths, col_offset) is None <==> span.text.len() == 0 || span.cols(widths)
            <= col_offset,
{
    crate::text::lemma_front_cut_empty_iff(span, widths, col_offset);
}

/// What is left of the spans of `line`, each clipped by itself.
pub open spec fn clipped(line: Seq<Span>, widths: CharWidths, col_offset: int) -> Seq<Span>
    decreases line.len(),
{
    if line.len() == 0 {
        Seq::empty()
    } else {
        match clip(line[0], widths, col_offset) {
            Some(span) => seq![span] + clipped(line.drop_first(), widths, col_offset),
            None => clipped(line.drop_first(), widths, col_offset),
        }
    }
}

/// `n` blank cells: on the background `bg` where there is one, else plain.
pub open spec fn padding(n: int, bg: Option<Colour>) -> Seq<char> {
    if n <= 0 {
        Seq::empty()
    } else {
        match bg {
            Some(colour) => Span::plain(blanks(n)).on(colour).shown(),
            None => blanks(n),
        }
    }
}

/// What is written for `spans` from the column `col` on in a row of `width`
/// columns, `last_bg` being the background of the span before. A span that
/// ends before the last column is written whole. The first that does not is
/// cut off at `1 + width - col` columns and ends the row. Where the spans
/// end first, the row is filled with blank cells on the last background.
pub open spec fn row_text(
    spans: Seq<Span>,
    widths: CharWidths,
    col: int,
    last_bg: Option<Colour>,
    width: int,
) -> Seq<char>
    decreases spans.len(),
{
    if spans.len() == 0 {
        padding(width - col, last_bg)
    } else if col + spans[0].cols(widths) < width {
        spans[0].shown() + row_text(
            spans.drop_first(),
            widths,
            col + spans[0].cols(widths),
            spans[0].bg,
            width,
        )
    } else {
        spans[0].truncated(widths, 1 + width - col).shown()
    }
}

/// What is written for the row `line` in a window of `width` columns that
/// begins `col_offset` columns into the text.
pub open spec fn row(line: Seq<Span>, widths: CharWidths, col_offset: int, width: int) -> Seq<
    char,
> {
    row_text(clipped(line, widths, col_offset), widths, 0, None, width)
}

/// What is written for the rows `lines`: each row as `row` has it, with a
/// carriage return and a line feed between one row and the next.
pub open spec fn rows_text(
    lines: Seq<Seq<Span>>,
    widths: CharWidths,
    col_offset: int,
    width: int,
) -> Seq<char>
    decreases lines.len(),
{
    if lines.len() == 0 {
        Seq::empty()
    } else {
        rows_text(lines.drop_last(), widths, col_offset, width) + (if lines.len() > 1 {
            "\r\n"@
        } else {
            Seq::empty()
        }) + row(lines.last(), widths, col_offset, width)
    }
}

/// What is written to redraw the screen: the cursor goes to the top left
/// cell, then come the rows.
pub open spec fn screen_text(
    lines: Seq<Seq<Span>>,
    widths: CharWidths,
    col_offset: int,
    width: int,
) -> Seq<char> {
    "\x1B[1;1H"@ + rows_text(lines, widths, col_offset, width)
}

/// Writes `span` at the column `col` of a row of `width` columns, whole
/// where it ends before the last column and cut off where it does not, and
/// gives the column behind it, or nothing where the row is full.
fn draw_span(out: &mut String, span: &Fancy, col: usize, width: usize, widths: &CharWidths) -> (next:
    Option<usize>)
    requires
        col <= width < usize::MAX,
    ensures
        col + span@.cols(*widths) < width ==> next == Some(
            (col + span@.cols(*widths)) as usize,
        ) && final(out)@ == old(out)@ + span@.shown(),
        col + span@.cols(*widths) >= width ==> next is None && final(out)@ == old(out)@
            + span@.truncated(*widths, 1 + width - col).shown(),
{
    let cols = span.cols(widths);
    if cols < width - col {
        out.append(span.to_string().as_str());
        Some(col + cols)
    } else {
        let cut = span.truncate(1 + width - col, widths);
        out.append(cut.to_string().as_str());
        None
    }
}

/// Writes `n` blank cells on the background `bg`, if there is one.
fn draw_padding(out: &mut String, n: usize, bg: Option<Colour>)
    ensures
        final(out)@ == old(out)@ + padding(n as int, bg),
{
    if n > 0 {
        let mut blank = String::new();
        push_blanks(&mut blank, n);
        assert(blank@ =~= blanks(n as int));
        match bg {
            Some(colour) => {
                out.append(Fancy::new(blank.as_str()).bg(colour).to_string().as_str());
            },
            None => {
                out.append(blank.as_str());
            },
        }
    } else {
        assert(out@ =~= old(out)@ + padding(n as int, bg));
    }
}

/// What is written for the row `line` in a window of `width` columns that
/// begins `col_offset` columns into the text.
pub fn render_row(line: &Line, col_offset: usize, width: usize, widths: &CharWidths) -> (out:
    String)
    requires
        width < usize::MAX,
    ensures
        out@ == row(line_view(line@), *widths, col_offset as int, width as int),
{
    let ghost spans = line_view(line@);
    let mut out = String::new();
    let mut col: usize = 0;
    let mut last_bg: Option<Colour> = None;
    let mut i: usize = 0;
    assert(spans.skip(0) =~= spans);
    while i < line.len()
        invariant
            spans == line_view(line@),
            i <= line@.len(),
            col <= width < usize::MAX,
            out@ + row_text(
                clipped(spans.skip(i as int), *widths, col_offset as int),
                *widths,
                col as int,
                last_bg,
                width as int,
            ) == row(spans, *widths, col_offset as int, width as int),
        decreases line@.len() - i,
    {
        let ghost rest = clipped(spans.skip(i + 1), *widths, col_offset as int);
        assert(spans.skip(i as int).drop_first() =~= spans.skip(i + 1));
        assert(spans.skip(i as int)[0] == line@[i as int]@);
        let ghost before = out@;
        let cut = if col_offset > 0 {
            Some(line[i].truncate_front(col_offset, widths))
        } else {
            None
        };
        let span: &Fancy = match &cut {
            Some(left) => left,
            None => &line[i],
        };
        if col_offset == 0 || !span.is_empty() {
            assert(clip(line@[i as int]@, *widths, col_offset as int) == Some(span@));
            assert((seq![span@] + rest).drop_first() =~= rest);
            match draw_span(&mut out, span, col, width, widths) {
                Some(next) => {
                    assert(out@ + row_text(rest, *widths, next as int, span@.bg, width as int)
                        =~= before + (span@.shown() + row_text(
                        rest,
                        *widths,
                        next as int,
                        span@.bg,
                        width as int,
                    )));
                    col = next;
                    last_bg = span.get_bg();
                },
                None => {
                    return out;
                },
            }
        }
        i += 1;
    }
    draw_padding(&mut out, width - col, last_bg);
    out
}

/// What is written to redraw the screen with the rows `lines`, in a window
/// of `width` columns that begins `col_offset` columns into the text.
pub fn render_lines(lines: &[Line], col_offset: usize, width: usize, widths: &CharWidths) -> (out:
    String)
    requires
        width < usize::MAX,
    ensures
        out@ == screen_text(lines_view(lines@), *widths, col_offset as int, width as int),
{
    let mut out = cursor_home();
    let ghost home = out@;
    let mut i: usize = 0;
    while i < lines.len()
        invariant
            i <= lines@.len(),
            width < usize::MAX,
            out@ == home + rows_text(
                lines_view(lines@).take(i as int),
                *widths,
                col_offset as int,
                width as int,
            ),
        decreases lines@.len() - i,
    {
        let ghost before = out@;
        let ghost done = lines_view(lines@).take(i as int);
        let ghost more = lines_view(lines@).take(i + 1);
        assert(more.drop_last() =~= done);
        assert(more.last() == line_view(lines@[i as int]@));
        if i != 0 {
            out.append("\r\n");
        }
        out.append(render_row(&lines[i], col_offset, width, widths).as_str());
        assert(out@ =~= home + rows_text(more, *widths, col_offset as int, width as int));
        i += 1;
    }
    assert(lines_view(lines@).take(i as int) =~= lines_view(lines@));
    out
}

/// What is written to redraw a screen of `width` columns and `height` rows
/// that shows `lines` from the row `row_offset` and the column `col_offset`
/// on.
pub fn render(
    lines: &[Line],
    row_offset: usize,
    col_offset: usize,
    width: usize,
    height: usize,
    widths: &CharWidths,
) -> (out: String)
    requires
        width < usize::MAX,
    ensures
        out@ == screen_text(
            window(lines_view(lines@), row_offset as int, height as int),
            *widths,
            col_offset as int,
            width as int,
        ),
{
    let start = if row_offset < lines.len() { row_offset } else { lines.len() };
    let end = if height < lines.len() - start { start + height } else { lines.len() };
    let shown = vstd::slice::slice_subrange(lines, start, end);
    assert(lines_view(shown@) =~= window(lines_view(lines@), row_offset as int, height as int));
    render_lines(shown, col_offset, width, widths)
}

/// Drawing is repeatable: what is written for a screen depends on nothing
/// but what the spans of its rows are, the offsets, the size of the screen
/// and the widths of the characters. Two drawings of the same rows are the
/// same text.
pub proof fn lemma_render_repeatable(
    first: Seq<Line>,
    second: Seq<Line>,
    widths: CharWidths,
    row_offset: int,
    col_offset: int,
    width: int,
    height: int,
)
    requires
        lines_view(first) == lines_view(second),
    ensures
        screen_text(window(lines_view(first), row_offset, height), widths, col_offset, width)
            == screen_text(
            window(lines_view(second), row_offset, height),
            widths,
            col_offset,
            width,
        ),
{
}

/// A window shows no more rows than its height and no more than there are.
pub proof fn lemma_window_len<A>(rows: Seq<A>, row_offset: int, height: int)
    requires
        0 <= row_offset,
        0 <= height,
    ensures
        window(rows, row_offset, height).len() <= height,
        window(rows, row_offset, height).len() <= rows.len(),
        row_offset + height <= rows.len() ==> window(rows, row_offset, height).len() == height,
        forall|i: int|
            0 <= i < window(rows, row_offset, height).len() ==> window(rows, row_offset, height)[i]
                == rows[row_offset + i],
{
}

} // verus!
