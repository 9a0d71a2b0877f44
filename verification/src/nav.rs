use vstd::prelude::*;

use crate::app::{target_of, State, StateView};
use crate::error::{ClientError, Error};
use crate::format::{all_rows, lines_view, score_column, Line, Lines};
use crate::render::{render_lines, render_stories, screen_text, window};
use crate::text::Span;
use crate::theme::Theme;
use crate::util::{url_parsed, Link};
use crate::viewport::{reconciled_offset, scrolled};
use crate::widths::CharWidths;

verus! {

/// The columns of one horizontal step.
pub const HORIZONTAL_SCROLL_AMOUNT: usize = 10;

/// A key, as far as the viewer tells keys apart.
#[derive(Clone, Copy, Debug, PartialEq, Eq, Structural)]
pub enum Key {
    Char(char),
    Esc,
    Up,
    Down,
    Other,
}

/// What the user asks for.
#[derive(Clone, Copy, Debug, PartialEq, Eq, Structural)]
pub enum Event {
    Quit,
    SelectNext,
    SelectPrev,
    ScrollLeft,
    ScrollRight,
    OpenTarget,
    OpenDetail,
    Ignored,
}

/// What is to be done for the user.
#[derive(Debug)]
pub enum Action {
    /// Leave the viewer.
    Exit,
    /// Write this text to the terminal.
    Draw(String),
    /// Hand this link to the program that opens links.
    Open(Link),
    /// Nothing.
    Wait,
}

/// What the user asks for with `key`. `h` moves the window to the right over
/// the text and `l` moves it back to the left.
pub open spec fn event_of(key: Key) -> Event {
    match key {
        Key::Esc => Event::Quit,
        Key::Up => Event::SelectNext,
        Key::Down => Event::SelectPrev,
        Key::Other => Event::Ignored,
        Key::Char(c) => if c == 'q' {
            Event::Quit
        } else if c == 'j' {
            Event::SelectNext
        } else if c == 'k' {
            Event::SelectPrev
        } else if c == 'h' {
            Event::ScrollLeft
        } else if c == 'l' {
            Event::ScrollRight
        } else if c == 'c' {
            Event::OpenDetail
        } else if c == '\n' {
            Event::OpenTarget
        } else {
            Event::Ignored
        },
    }
}

/// What the user asks for with `key`.
pub fn event_for(key: Key) -> (event: Event)
    ensures
        event == event_of(key),
{
    match key {
        Key::Esc => Event::Quit,
        Key::Up => Event::SelectNext,
        Key::Down => Event::SelectPrev,
        Key::Other => Event::Ignored,
        Key::Char(c) => if c == 'q' {
            Event::Quit
        } else if c == 'j' {
            Event::SelectNext
        } else if c == 'k' {
            Event::SelectPrev
        } else if c == 'h' {
            Event::ScrollLeft
        } else if c == 'l' {
            Event::ScrollRight
        } else if c == 'c' {
            Event::OpenDetail
        } else if c == '\n' {
            Event::OpenTarget
        } else {
            Event::Ignored
        },
    }
}

/// The state `state` once a window of `height` rows has followed its
/// selection.
pub open spec fn settled(state: StateView, height: int) -> StateView {
    StateView {
        row_offset: reconciled_offset(state.selected, state.row_offset, height),
        ..state
    }
}

/// The rows that a window of `height` rows shows of the stories of `state`
/// at the time `now`; none where a story has no date.
pub open spec fn shown_rows(state: StateView, theme: Theme, height: int, now: i64) -> Option<
    Seq<Seq<Span>>,
> {
    match all_rows(
        state.stories,
        state.tags,
        theme,
        score_column(state.stories),
        now,
        state.selected,
    ) {
        Some(rows) => Some(window(rows, state.row_offset, height)),
        None => None,
    }
}

/// Whether `result`, the state `after` and its rows `lines` are what drawing
/// the state `before` anew gives: the window follows the selection, the rows
/// are drawn as the window shows them, and the action is to write the
/// screen. Where a story has no date that is the error, and the window
/// stays.
pub open spec fn drawn_anew(
    before: StateView,
    old_lines: Seq<Line>,
    after: StateView,
    lines: Seq<Line>,
    result: Result<Action, Error>,
    theme: Theme,
    widths: CharWidths,
    width: int,
    height: int,
    now: i64,
) -> bool {
    match result {
        Ok(action) => {
            &&& after == settled(before, height)
            &&& shown_rows(after, theme, height, now) == Some(lines_view(lines))
            &&& action matches Action::Draw(text) && text@ == screen_text(
                lines_view(lines),
                widths,
                after.col_offset,
                width,
            )
        },
        Err(err) => {
            &&& err is InvalidDate
            &&& shown_rows(before, theme, height, now) is None
            &&& after == before
            &&& lines == old_lines
        },
    }
}

/// Whether `result` is what drawing the rows `lines` at the column offset of
/// `state` gives.
pub open spec fn drawn_again(
    state: StateView,
    lines: Seq<Line>,
    result: Result<Action, Error>,
    widths: CharWidths,
    width: int,
) -> bool {
    result matches Ok(Action::Draw(text)) && text@ == screen_text(
        lines_view(lines),
        widths,
        state.col_offset,
        width,
    )
}

/// Whether `result` is what opening the address `address` gives: the parsed
/// link to be opened, or the error that it is no URL.
pub open spec fn opened(address: Seq<char>, result: Result<Action, Error>) -> bool {
    match result {
        Ok(action) => action matches Action::Open(link) && url_parsed(address) == Some(link@),
        Err(err) => err matches Error::Lobsters(ClientError::Url(_)) && url_parsed(address) is None,
    }
}

/// Draws the stories of `state` anew at the time `now` for a screen of
/// `width` columns and `height` rows: the window follows the selection,
/// `lines` become the rows that it shows, and the action is to write them.
pub fn redraw(
    state: &mut State,
    lines: &mut Lines,
    theme: &Theme,
    widths: &CharWidths,
    width: usize,
    height: usize,
    now: i64,
) -> (result: Result<Action, Error>)
    requires
        old(state)@.wf(),
        height >= 2,
        width < usize::MAX,
    ensures
        final(state)@.wf(),
        drawn_anew(
            old(state)@,
            old(lines)@,
            final(state)@,
            final(lines)@,
            result,
            *theme,
            *widths,
            width as int,
            height as int,
            now,
        ),
{
    match render_stories(state, theme, height, now) {
        Ok(shown) => {
            *lines = shown;
            Ok(Action::Draw(render_lines(lines.as_slice(), state.col_offset(), width, widths)))
        },
        Err(err) => Err(err),
    }
}

/// Does what the user asks for with `event` at the time `now`, on a screen
/// of `width` columns and `height` rows that shows the rows `lines`.
///
/// To quit is to leave. A step to the next or the previous story, where
/// there is one, draws the stories anew; where there is none, nothing
/// happens. A step to the side moves the window by ten columns, to the
/// right for `ScrollLeft` and back to the left for `ScrollRight`, and draws
/// the same rows again. To open is to hand out the link of the selected
/// story: that of its comments for `OpenDetail`, and for `OpenTarget` its
/// own, or that of its comments where it has none.
pub fn handle(
    state: &mut State,
    lines: &mut Lines,
    event: Event,
    theme: &Theme,
    widths: &CharWidths,
    width: usize,
    height: usize,
    now: i64,
) -> (result: Result<Action, Error>)
    requires
        old(state)@.wf(),
        height >= 2,
        width < usize::MAX,
    ensures
        final(state)@.wf(),
        match event {
            Event::Quit => result matches Ok(Action::Exit) && final(state)@ == old(state)@
                && final(lines)@ == old(lines)@,
            Event::Ignored => result matches Ok(Action::Wait) && final(state)@ == old(state)@
                && final(lines)@ == old(lines)@,
            Event::SelectNext => if old(state)@.selected + 1 < old(state)@.stories.len() {
                drawn_anew(
                    StateView { selected: old(state)@.selected + 1, ..old(state)@ },
                    old(lines)@,
                    final(state)@,
                    final(lines)@,
                    result,
                    *theme,
                    *widths,
                    width as int,
                    height as int,
                    now,
                )
            } else {
                result matches Ok(Action::Wait) && final(state)@ == old(state)@ && final(lines)@
                    == old(lines)@
            },
            Event::SelectPrev => if old(state)@.selected > 0 {
                drawn_anew(
                    StateView { selected: old(state)@.selected - 1, ..old(state)@ },
                    old(lines)@,
                    final(state)@,
                    final(lines)@,
                    result,
                    *theme,
                    *widths,
                    width as int,
                    height as int,
                    now,
                )
            } else {
                result matches Ok(Action::Wait) && final(state)@ == old(state)@ && final(lines)@
                    == old(lines)@
            },
            Event::ScrollLeft => {
                &&& final(state)@ == (StateView {
                    col_offset: scrolled(
                        old(state)@.col_offset,
                        HORIZONTAL_SCROLL_AMOUNT as int,
                        usize::MAX as int,
                    ),
                    ..old(state)@
                })
                &&& final(lines)@ == old(lines)@
                &&& drawn_again(final(state)@, final(lines)@, result, *widths, width as int)
            },
            Event::ScrollRight => {
                &&& final(state)@ == (StateView {
                    col_offset: scrolled(
                        old(state)@.col_offset,
                        -(HORIZONTAL_SCROLL_AMOUNT as int),
                        usize::MAX as int,
                    ),
                    ..old(state)@
                })
                &&& final(lines)@ == old(lines)@
                &&& drawn_again(final(state)@, final(lines)@, result, *widths, width as int)
            },
            Event::OpenDetail => {
                &&& final(state)@ == old(state)@
                &&& final(lines)@ == old(lines)@
                &&& opened(old(state)@.stories[old(state)@.selected].comments_url@, result)
            },
            Event::OpenTarget => {
                &&& final(state)@ == old(state)@
                &&& final(lines)@ == old(lines)@
                &&& opened(target_of(old(state)@.stories[old(state)@.selected]), result)
            },
        },
{
    match event {
        Event::Quit => Ok(Action::Exit),
        Event::Ignored => Ok(Action::Wait),
        Event::SelectNext => {
            if state.next_story() {
                redraw(state, lines, theme, widths, width, height, now)
            } else {
                Ok(Action::Wait)
            }
        },
        Event::SelectPrev => {
            if state.prev_story() {
                redraw(state, lines, theme, widths, width, height, now)
            } else {
                Ok(Action::Wait)
            }
        },
        Event::ScrollLeft => {
            state.scroll_left(HORIZONTAL_SCROLL_AMOUNT);
            Ok(Action::Draw(render_lines(lines.as_slice(), state.col_offset(), width, widths)))
        },
        Event::ScrollRight => {
            state.scroll_right(HORIZONTAL_SCROLL_AMOUNT);
            Ok(Action::Draw(render_lines(lines.as_slice(), state.col_offset(), width, widths)))
        },
        Event::OpenDetail => match state.comments_url() {
            Ok(link) => Ok(Action::Open(link)),
            Err(err) => Err(Error::Lobsters(ClientError::Url(err))),
        },
        Event::OpenTarget => match state.story_url() {
            Ok(link) => Ok(Action::Open(link)),
            Err(err) => Err(Error::Lobsters(ClientError::Url(err))),
        },
    }
}

} // verus!
