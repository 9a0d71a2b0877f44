use vstd::prelude::*;

use crate::app::{widest, widest_score, TagMap};
use crate::error::Error;
use crate::models::{ShortTag, Story, Tag};
use crate::text::{Fancy, Span};
use crate::theme::{tag_role_colour, Colour, Theme};
use crate::time::{humanized, parse_timestamp, relative_time, span_between, timestamp_parsed};
use crate::util::{
    blanks, decimal, number_text, padded_number, parse_url, push_blanks, push_decimal,
    right_aligned, url_parsed,
};

verus! {


/// One row of the screen: its spans from left to right.
pub type Line = Vec<Fancy>;

/// Rows of the screen from top to bottom.
pub type Lines = Vec<Line>;

/// What the spans of a row are.
pub open spec fn line_view(line: Seq<Fancy>) -> Seq<Span> {
    line.map_values(|span: Fancy| span@)
}

/// What the spans of some rows are.
pub open spec fn lines_view(lines: Seq<Line>) -> Seq<Seq<Span>> {
    lines.map_values(|line: Line| line_view(line@))
}

/// The score of `story`, at the right edge of a column of `digits`
/// characters.
pub open spec fn score_span(story: Story, theme: Theme, digits: int) -> Span {
    Span::plain(right_aligned(number_text(story.score as int), digits)).coloured(theme.score)
}

/// The title of `story` behind a blank, in bold.
pub open spec fn title_span(story: Story, theme: Theme) -> Span {
    Span { bold: true, ..Span::plain(" "@ + story.title@).coloured(theme.title) }
}

/// The name of `tag` behind a blank, in the colour of its kind.
pub open spec fn tag_span(tag: Tag, theme: Theme) -> Span {
    Span::plain(" "@ + tag.tag@).coloured(tag_role_colour(theme, tag.tag@, tag.is_media))
}

/// A span for each of `tags` that `index` knows, in their order; a name
/// that it does not know leaves no trace.
pub open spec fn tag_spans(tags: Seq<ShortTag>, index: Map<Seq<char>, Tag>, theme: Theme) -> Seq<
    Span,
>
    decreases tags.len(),
{
    if tags.len() == 0 {
        Seq::empty()
    } else if index.contains_key(tags.last().0@) {
        tag_spans(tags.drop_last(), index, theme).push(tag_span(index[tags.last().0@], theme))
    } else {
        tag_spans(tags.drop_last(), index, theme)
    }
}

/// The domain that is shown for the URL `url`, behind a blank: nothing for
/// an empty text, for one that is no URL, and for a URL whose host is no
/// domain name.
pub open spec fn domain_text(url: Seq<char>) -> Seq<char> {
    if url.len() == 0 {
        Seq::empty()
    } else {
        match url_parsed(url) {
            Some(link) => match link.domain {
                Some(domain) => " "@ + domain,
                None => Seq::empty(),
            },
            None => Seq::empty(),
        }
    }
}

/// The domain of `story`, in italics.
pub open spec fn domain_span(story: Story, theme: Theme) -> Span {
    Span { italic: true, ..Span::plain(domain_text(story.url@)).coloured(theme.domain) }
}

/// The first row of `story`: score, title, tags, domain.
pub open spec fn headline(
    story: Story,
    index: Map<Seq<char>, Tag>,
    theme: Theme,
    digits: int,
) -> Seq<Span> {
    seq![score_span(story, theme, digits), title_span(story, theme)] + tag_spans(
        story.tags@,
        index,
        theme,
    ) + seq![domain_span(story, theme)]
}

/// The text of the second row of `story`, which begins under the title:
/// who submitted it, `when`, and how many comments it has.
pub open spec fn byline_text(story: Story, digits: int, when: Seq<char>) -> Seq<char> {
    blanks(if digits < 1 { 1 } else { digits }) + " via "@ + story.submitter_user.username@ + " "@
        + when + " | "@ + decimal(story.comment_count as nat) + " comments"@
}

/// The second row of `story`.
pub open spec fn byline(story: Story, theme: Theme, digits: int, when: Seq<char>) -> Seq<Span> {
    seq![Span::plain(byline_text(story, digits, when)).coloured(theme.byline)]
}

/// The spans of `line` on the background `colour`.
pub open spec fn highlighted(line: Seq<Span>, colour: Colour) -> Seq<Span> {
    line.map_values(|span: Span| span.on(colour))
}

/// The two rows of `story` as they are drawn at the time `now`, on the
/// cursor colour where the story is the selected one. There are none where
/// the time of its creation is no date.
pub open spec fn story_rows(
    story: Story,
    index: Map<Seq<char>, Tag>,
    theme: Theme,
    digits: int,
    now: i64,
    selected: bool,
) -> Option<(Seq<Span>, Seq<Span>)> {
    match timestamp_parsed(story.created_at@) {
        Some(created) => {
            let first = headline(story, index, theme, digits);
            let second = byline(story, theme, digits, humanized(span_between(created, now)));
            if selected {
                Some((highlighted(first, theme.cursor), highlighted(second, theme.cursor)))
            } else {
                Some((first, second))
            }
        },
        None => None,
    }
}

/// The rows of all `stories`, two for each in their order, with the story
/// at `selected` on the cursor colour. There are none where one of the
/// stories has none.
pub open spec fn all_rows(
    stories: Seq<Story>,
    index: Map<Seq<char>, Tag>,
    theme: Theme,
    digits: int,
    now: i64,
    selected: int,
) -> Option<Seq<Seq<Span>>>
    decreases stories.len(),
{
    if stories.len() == 0 {
        Some(Seq::empty())
    } else {
        match (
            all_rows(stories.drop_last(), index, theme, digits, now, selected),
            story_rows(stories.last(), index, theme, digits, now, selected == stories.len() - 1),
        ) {
            (Some(rows), Some((first, second))) => Some(rows.push(first).push(second)),
            _ => None,
        }
    }
}

/// Every story has two rows: the rows of `n` stories are `2n`.
pub proof fn lemma_two_rows_each(
    stories: Seq<Story>,
    index: Map<Seq<char>, Tag>,
    theme: Theme,
    digits: int,
    now: i64,
    selected: int,
)
    ensures
        all_rows(stories, index, theme, digits, now, selected) matches Some(rows) ==> rows.len()
            == 2 * stories.len(),
    decreases stories.len(),
{
    if stories.len() > 0 {
        lemma_two_rows_each(stories.drop_last(), index, theme, digits, now, selected);
    }
}

/// The rows of the stories are there just when every story was created at
/// a time that is a date.
pub proof fn lemma_rows_need_dates(
    stories: Seq<Story>,
    index: Map<Seq<char>, Tag>,
    theme: Theme,
    digits: int,
    now: i64,
    selected: int,
)
    ensures
        all_rows(stories, index, theme, digits, now, selected) is Some <==> forall|i: int|
            0 <= i < stories.len() ==> timestamp_parsed((#[trigger] stories[i]).created_at@)
                is Some,
    decreases stories.len(),
{
    if stories.len() > 0 {
        let shorter = stories.drop_last();
        lemma_rows_need_dates(shorter, index, theme, digits, now, selected);
        if all_rows(stories, index, theme, digits, now, selected) is Some {
            assert forall|i: int| 0 <= i < stories.len() implies timestamp_parsed(
                (#[trigger] stories[i]).created_at@,
            ) is Some by {
                if i < shorter.len() {
                    assert(shorter[i] == stories[i]);
                }
            }
        } else if all_rows(shorter, index, theme, digits, now, selected) is None {
            let i = choose|i: int|
                0 <= i < shorter.len() && !(timestamp_parsed((#[trigger] shorter[i]).created_at@)
                    is Some);
            assert(shorter[i] == stories[i]);
        } else {
            assert(stories[stories.len() - 1] == stories.last());
        }
    }
}

/// The spans of `line` on the background `colour`.
pub fn highlight_line(line: Line, colour: Colour) -> (lit: Line)
    ensures
        line_view(lit@) == highlighted(line_view(line@), colour),
{
    let mut lit: Line = Vec::new();
    let mut i: usize = 0;
    while i < line.len()
        invariant
            i <= line@.len(),
            lit@.len() == i,
            forall|j: int| 0 <= j < i ==> (#[trigger] lit@[j])@ == line@[j]@.on(colour),
        decreases line@.len() - i,
    {
        let span = line[i].clone();
        lit.push(span.bg(colour));
        i += 1;
    }
    assert(line_view(lit@) =~= highlighted(line_view(line@), colour));
    lit
}

/// The spans of the tags of `story` that `tags` knows.
fn push_tags(line: &mut Line, story: &Story, tags: &TagMap, theme: &Theme)
    ensures
        line_view(final(line)@) == line_view(old(line)@) + tag_spans(story.tags@, tags@, *theme),
{
    let ghost before = line_view(line@);
    let mut i: usize = 0;
    while i < story.tags.len()
        invariant
            i <= story.tags@.len(),
            line_view(line@) == before + tag_spans(story.tags@.take(i as int), tags@, *theme),
        decreases story.tags@.len() - i,
    {
        assert(story.tags@.take(i + 1).drop_last() =~= story.tags@.take(i as int));
        let ghost so_far = line@;
        match tags.get(&story.tags[i]) {
            Some(tag) => {
                let mut text = String::from_str(" ");
                text.append(tag.tag.as_str());
                line.push(Fancy::new(text.as_str()).fg(theme.tag_colour(tag)));
                assert(line_view(line@) =~= line_view(so_far).push(tag_span(*tag, *theme)));
                assert(line_view(line@) =~= before + tag_spans(
                    story.tags@.take(i + 1),
                    tags@,
                    *theme,
                ));
            },
            None => {},
        }
        i += 1;
    }
    assert(story.tags@.take(i as int) =~= story.tags@);
}

/// The text that is shown for the domain of `url`.
fn domain_of(url: &str) -> (text: String)
    ensures
        text@ == domain_text(url@),
{
    let mut text = String::new();
    if !url.is_empty() {
        if let Ok(link) = parse_url(url) {
            if let Some(domain) = link.domain() {
                text.append(" ");
                text.append(domain);
                assert(text@ =~= " "@ + domain@);
            }
        }
    }
    text
}

/// The two rows of `story` as they are drawn at the time `now`, counted in
/// seconds from the start of 1970: the headline and the byline, with the
/// score in a column of `digits` characters, on the cursor colour where
/// `selected` says so. The error is that the story's time of creation is no
/// date.
pub fn format_story(
    story: &Story,
    tags: &TagMap,
    theme: &Theme,
    digits: usize,
    now: i64,
    selected: bool,
) -> (result: Result<(Line, Line), Error>)
    ensures
        match result {
            Ok((first, second)) => story_rows(*story, tags@, *theme, digits as int, now, selected)
                == Some((line_view(first@), line_view(second@))),
            Err(err) => err is InvalidDate && story_rows(
                *story,
                tags@,
                *theme,
                digits as int,
                now,
                selected,
            ) is None,
        },
{
    let score = Fancy::new(padded_number(story.score, digits).as_str()).fg(theme.score);
    let mut title_text = String::from_str(" ");
    title_text.append(story.title.as_str());
    let title = Fancy::new(title_text.as_str()).fg(theme.title).bold();
    let domain = Fancy::new(domain_of(story.url.as_str()).as_str()).fg(theme.domain).italic();

    let created = match parse_timestamp(story.created_at.as_str()) {
        Ok(created) => created,
        Err(err) => {
            return Err(Error::InvalidDate(err));
        },
    };
    let when = relative_time(created, now);
    let mut meta = String::new();
    push_blanks(&mut meta, if digits < 1 { 1 } else { digits });
    meta.append(" via ");
    meta.append(story.submitter_user.username.as_str());
    meta.append(" ");
    meta.append(when.as_str());
    meta.append(" | ");
    push_decimal(&mut meta, story.comment_count as u64);
    meta.append(" comments");
    assert(meta@ =~= byline_text(*story, digits as int, when@));

    let mut first: Line = Vec::new();
    first.push(score);
    first.push(title);
    assert(line_view(first@) =~= seq![
        score_span(*story, *theme, digits as int),
        title_span(*story, *theme),
    ]);
    push_tags(&mut first, story, tags, theme);
    let ghost with_tags = first@;
    first.push(domain);
    assert(line_view(first@) =~= line_view(with_tags).push(domain_span(*story, *theme)));
    assert(line_view(first@) =~= headline(*story, tags@, *theme, digits as int));

    let mut second: Line = Vec::new();
    second.push(Fancy::new(meta.as_str()).fg(theme.byline));
    assert(line_view(second@) =~= byline(*story, *theme, digits as int, when@));

    if selected {
        Ok((highlight_line(first, theme.cursor), highlight_line(second, theme.cursor)))
    } else {
        Ok((first, second))
    }
}

/// The rows of all `stories` as they are drawn at the time `now`: two for
/// each story in their order, the scores in a column as wide as the widest
/// of them, and the story at `selected` on the cursor colour. The error is
/// that the time of creation of one of the stories is no date.
pub fn format_stories(
    stories: &[Story],
    tags: &TagMap,
    theme: &Theme,
    selected: usize,
    now: i64,
) -> (result: Result<Lines, Error>)
    ensures
        match result {
            Ok(lines) => all_rows(
                stories@,
                tags@,
                *theme,
                score_column(stories@),
                now,
                selected as int,
            ) == Some(lines_view(lines@)) && lines@.len() == 2 * stories@.len(),
            Err(err) => err is InvalidDate && all_rows(
                stories@,
                tags@,
                *theme,
                score_column(stories@),
                now,
                selected as int,
            ) is None,
        },
{
    let digits = match widest(stories) {
        Some(digits) => digits,
        None => 1,
    };
    let mut lines: Lines = Vec::new();
    let mut i: usize = 0;
    while i < stories.len()
        invariant
            i <= stories@.len(),
            digits == score_column(stories@),
            all_rows(stories@.take(i as int), tags@, *theme, digits as int, now, selected as int)
                == Some(lines_view(lines@)),
            lines@.len() == 2 * i,
        decreases stories@.len() - i,
    {
        assert(stories@.take(i + 1).drop_last() =~= stories@.take(i as int));
        let ghost so_far = lines@;
        match format_story(&stories[i], tags, theme, digits, now, i == selected) {
            Ok((first, second)) => {
                lines.push(first);
                lines.push(second);
                assert(lines_view(lines@) =~= lines_view(so_far).push(line_view(first@)).push(
                    line_view(second@),
                ));
            },
            Err(err) => {
                proof {
                    lemma_rows_fail_later(
                        stories@,
                        tags@,
                        *theme,
                        digits as int,
                        now,
                        selected as int,
                        i + 1,
                    );
                }
                return Err(err);
            },
        }
        i += 1;
    }
    assert(stories@.take(i as int) =~= stories@);
    Ok(lines)
}

/// The width of the score column of `stories`: that of the widest score,
/// and one character where there is no story.
pub open spec fn score_column(stories: Seq<Story>) -> int {
    if stories.len() == 0 {
        1
    } else {
        widest_score(stories) as int
    }
}

/// Where the first `n` stories have no rows, all of them have none.
proof fn lemma_rows_fail_later(
    stories: Seq<Story>,
    index: Map<Seq<char>, Tag>,
    theme: Theme,
    digits: int,
    now: i64,
    selected: int,
    n: int,
)
    requires
        0 <= n <= stories.len(),
        all_rows(stories.take(n), index, theme, digits, now, selected) is None,
    ensures
        all_rows(stories, index, theme, digits, now, selected) is None,
    decreases stories.len() - n,
{
    if n < stories.len() {
        assert(stories.drop_last().take(n) =~= stories.take(n));
        lemma_rows_fail_later(stories.drop_last(), index, theme, digits, now, selected, n);
    } else {
        assert(stories.take(n) =~= stories);
    }
}

} // verus!
