use std::ops::Range;
use vstd::prelude::*;

use crate::models::{ShortTag, Story, Tag};
use crate::util::{count_digits, number_width, parse_url, str_eq, url_parsed, Link};
use crate::viewport::{reconciled_offset, scroll_into_view, scrolled, story_visible};

verus! {

/// The tags of `tags` by name. Where two tags share a name the later one
/// stands.
pub open spec fn tag_index(tags: Seq<Tag>) -> Map<Seq<char>, Tag>
    decreases tags.len(),
{
    if tags.len() == 0 {
        Map::empty()
    } else {
        tag_index(tags.drop_last()).insert(tags.last().tag@, tags.last())
    }
}

/// The tags of the site, found by name.
pub struct TagMap {
    tags: Vec<Tag>,
}

impl View for TagMap {
    type V = Map<Seq<char>, Tag>;

    closed spec fn view(&self) -> Map<Seq<char>, Tag> {
        tag_index(self.tags@)
    }
}

/// A name that no tag from `from` on has is looked up in the tags before.
proof fn lemma_tag_index_tail(tags: Seq<Tag>, name: Seq<char>, from: int)
    requires
        0 <= from <= tags.len(),
        forall|j: int| from <= j < tags.len() ==> (#[trigger] tags[j]).tag@ != name,
    ensures
        tag_index(tags).contains_key(name) == tag_index(tags.take(from)).contains_key(name),
        tag_index(tags).contains_key(name) ==> tag_index(tags)[name] == tag_index(
            tags.take(from),
        )[name],
    decreases tags.len() - from,
{
    if from < tags.len() {
        let shorter = tags.drop_last();
        assert(shorter.take(from) =~= tags.take(from));
        lemma_tag_index_tail(shorter, name, from);
    } else {
        assert(tags.take(from) =~= tags);
    }
}

impl TagMap {
    /// The map of `tags` by name.
    pub fn new(tags: Vec<Tag>) -> (map: TagMap)
        ensures
            map@ == tag_index(tags@),
    {
        TagMap { tags }
    }

    /// The tag called `name`, if there is one.
    pub fn get<'a>(&'a self, name: &ShortTag) -> (found: Option<&'a Tag>)
        ensures
            found is Some == self@.contains_key(name.0@),
            found matches Some(tag) ==> *tag == self@[name.0@],
    {
        let mut i: usize = self.tags.len();
        while i > 0
            invariant
                i <= self.tags@.len(),
                forall|j: int|
                    i <= j < self.tags@.len() ==> (#[trigger] self.tags@[j]).tag@ != name.0@,
            decreases i,
        {
            i -= 1;
            if str_eq(self.tags[i].tag.as_str(), name.0.as_str()) {
                proof {
                    lemma_tag_index_tail(self.tags@, name.0@, i + 1);
                    assert(self.tags@.take(i + 1).drop_last() =~= self.tags@.take(i as int));
                }
                return Some(&self.tags[i]);
            }
        }
        proof {
            lemma_tag_index_tail(self.tags@, name.0@, 0);
        }
        None
    }
}

/// The widest score of `stories`, in characters; 0 where there is no story.
pub open spec fn widest_score(stories: Seq<Story>) -> nat
    decreases stories.len(),
{
    if stories.len() == 0 {
        0
    } else {
        let rest = widest_score(stories.drop_last());
        let last = number_width(stories.last().score as int);
        if last > rest {
            last
        } else {
            rest
        }
    }
}

/// The text that is opened for `story`: its URL, or the URL of its comments
/// where it has none.
pub open spec fn target_of(story: Story) -> Seq<char> {
    if story.url@.len() == 0 {
        story.comments_url@
    } else {
        story.url@
    }
}

/// What a list of stories with a selection and a window is.
pub ghost struct StateView {
    pub stories: Seq<Story>,
    pub tags: Map<Seq<char>, Tag>,
    pub selected: int,
    pub row_offset: int,
    pub col_offset: int,
}

/// The stories on screen, the selected one among them, and the first row
/// and column that the window shows.
pub struct State {
    tag_map: TagMap,
    stories: Vec<Story>,
    current_story: usize,
    row_offset: usize,
    col_offset: usize,
}

impl View for State {
    type V = StateView;

    closed spec fn view(&self) -> StateView {
        StateView {
            stories: self.stories@,
            tags: self.tag_map@,
            selected: self.current_story as int,
            row_offset: self.row_offset as int,
            col_offset: self.col_offset as int,
        }
    }
}

impl StateView {
    /// A story is selected, and the rows of all stories can be counted in a
    /// machine word.
    pub open spec fn wf(self) -> bool {
        &&& 0 <= self.selected < self.stories.len()
        &&& 2 * self.stories.len() <= usize::MAX
        &&& 0 <= self.row_offset <= usize::MAX
        &&& 0 <= self.col_offset <= usize::MAX
    }
}

impl State {
    /// The state in which the first of `stories` is selected and the window
    /// is at the top left.
    pub fn new(stories: Vec<Story>, tags: Vec<Tag>) -> (state: State)
        requires
            stories.len() > 0,
            2 * stories.len() <= usize::MAX,
        ensures
            state@.wf(),
            state@ == (StateView {
                stories: stories@,
                tags: tag_index(tags@),
                selected: 0,
                row_offset: 0,
                col_offset: 0,
            }),
    {
        let tag_map = TagMap::new(tags);
        State { stories, tag_map, current_story: 0, row_offset: 0, col_offset: 0 }
    }

    /// The stories.
    pub fn stories(&self) -> (stories: &[Story])
        ensures
            stories@ == self@.stories,
    {
        self.stories.as_slice()
    }

    /// The tags of the site.
    pub fn tags(&self) -> (tags: &TagMap)
        ensures
            tags@ == self@.tags,
    {
        &self.tag_map
    }

    /// The index of the selected story.
    pub fn current_story_index(&self) -> (index: usize)
        ensures
            index == self@.selected,
    {
        self.current_story
    }

    /// The first row of the selected story.
    pub fn current_story_offset(&self) -> (row: usize)
        requires
            self@.wf(),
        ensures
            row == 2 * self@.selected,
    {
        self.current_story * 2
    }

    /// The rows of a window of `height` rows: from the first row shown up to
    /// the row behind the last, or up to the largest machine word.
    pub fn visible_range(&self, height: usize) -> (rows: Range<usize>)
        ensures
            rows.start == self@.row_offset,
            rows.end == if self@.row_offset + height <= usize::MAX {
                self@.row_offset + height
            } else {
                usize::MAX as int
            },
    {
        self.row_offset..self.row_offset.saturating_add(height)
    }

    /// The two rows of the selected story.
    pub fn story_range(&self) -> (rows: Range<usize>)
        requires
            self@.wf(),
        ensures
            rows.start == 2 * self@.selected,
            rows.end == 2 * self@.selected + 2,
    {
        self.current_story_offset()..self.current_story_offset() + 2
    }

    /// The selected story.
    pub fn current_story(&self) -> (story: &Story)
        requires
            self@.wf(),
        ensures
            *story == self@.stories[self@.selected],
    {
        &self.stories[self.current_story]
    }

    /// The parsed URL of the selected story, or of its comments where it has
    /// no URL of its own; the parser's error where the text is no URL.
    pub fn story_url(&self) -> (result: Result<Link, url::ParseError>)
        requires
            self@.wf(),
        ensures
            match result {
                Ok(link) => url_parsed(target_of(self@.stories[self@.selected])) == Some(link@),
                Err(_) => url_parsed(target_of(self@.stories[self@.selected])) is None,
            },
    {
        let url = self.current_story().url.as_str();
        if url.is_empty() {
            self.comments_url()
        } else {
            parse_url(url)
        }
    }

    /// The parsed URL of the selected story's comments; the parser's error
    /// where the text is no URL.
    pub fn comments_url(&self) -> (result: Result<Link, url::ParseError>)
        requires
            self@.wf(),
        ensures
            match result {
                Ok(link) => url_parsed(self@.stories[self@.selected].comments_url@) == Some(link@),
                Err(_) => url_parsed(self@.stories[self@.selected].comments_url@) is None,
            },
    {
        parse_url(self.current_story().comments_url.as_str())
    }

    /// The width of the widest score, or nothing where there is no story.
    pub fn max_score_digits(&self) -> (digits: Option<usize>)
        ensures
            digits is None <==> self@.stories.len() == 0,
            digits matches Some(d) ==> d == widest_score(self@.stories) && 1 <= d <= 11,
    {
        widest(self.stories.as_slice())
    }

    /// The tag that `tag` refers to, if the site has one of that name.
    pub fn get_tag(&self, tag: &ShortTag) -> (found: Option<&Tag>)
        ensures
            found is Some == self@.tags.contains_key(tag.0@),
            found matches Some(t) ==> *t == self@.tags[tag.0@],
    {
        self.tag_map.get(tag)
    }

    /// The first row that the window shows, to be read or set.
    pub fn row_offset_get_mut(&mut self) -> (row: &mut usize)
        ensures
            *row == old(self)@.row_offset,
            final(self)@ == (StateView { row_offset: *final(row) as int, ..old(self)@ }),
    {
        &mut self.row_offset
    }

    /// The first column that the window shows.
    pub fn col_offset(&self) -> (col: usize)
        ensures
            col == self@.col_offset,
    {
        self.col_offset
    }

    /// Selects the next story, if there is one, and says whether it did.
    pub fn next_story(&mut self) -> (moved: bool)
        requires
            old(self)@.wf(),
        ensures
            final(self)@.wf(),
            moved == (old(self)@.selected + 1 < old(self)@.stories.len()),
            moved ==> final(self)@ == (StateView {
                selected: old(self)@.selected + 1,
                ..old(self)@
            }),
            !moved ==> final(self)@ == old(self)@,
    {
        if self.current_story < self.stories.len() - 1 {
            self.current_story += 1;
            true
        } else {
            false
        }
    }

    /// Selects the story before, if there is one, and says whether it did.
    pub fn prev_story(&mut self) -> (moved: bool)
        requires
            old(self)@.wf(),
        ensures
            final(self)@.wf(),
            moved == (old(self)@.selected > 0),
            moved ==> final(self)@ == (StateView {
                selected: old(self)@.selected - 1,
                ..old(self)@
            }),
            !moved ==> final(self)@ == old(self)@,
    {
        if self.current_story > 0 {
            self.current_story -= 1;
            true
        } else {
            false
        }
    }

    /// Moves the window `amount` columns to the right over the text, which
    /// moves the text to the left. The answer is always `true`.
    pub fn scroll_left(&mut self, amount: usize) -> (changed: bool)
        ensures
            changed,
            final(self)@ == (StateView {
                col_offset: scrolled(old(self)@.col_offset, amount as int, usize::MAX as int),
                ..old(self)@
            }),
    {
        self.col_offset = self.col_offset.saturating_add(amount);
        true
    }

    /// Moves the window `amount` columns to the left over the text, and
    /// stops at the first column. The answer is always `true`.
    pub fn scroll_right(&mut self, amount: usize) -> (changed: bool)
        ensures
            changed,
            final(self)@ == (StateView {
                col_offset: scrolled(old(self)@.col_offset, -(amount as int), usize::MAX as int),
                ..old(self)@
            }),
    {
        self.col_offset = self.col_offset.saturating_sub(amount);
        true
    }

    /// Moves the window by `delta` columns over the text: to the right for
    /// a positive `delta`, to the left, and no further than the first
    /// column, for a negative one. The answer is always `true`.
    pub fn scroll_h(&mut self, delta: isize) -> (changed: bool)
        ensures
            changed,
            final(self)@ == (StateView {
                col_offset: scrolled(old(self)@.col_offset, delta as int, usize::MAX as int),
                ..old(self)@
            }),
    {
        if delta >= 0 {
            self.scroll_left(delta as usize)
        } else {
            let back: usize = (-(delta + 1)) as usize + 1;
            self.scroll_right(back)
        }
    }

    /// Scrolls the selected story into a window of `height` rows: the window
    /// moves up to the story's first row, or down until the story's last row
    /// is its last, or stays where it shows both rows already.
    pub fn reconcile(&mut self, height: usize)
        requires
            old(self)@.wf(),
            height >= 2,
        ensures
            final(self)@.wf(),
            final(self)@ == (StateView {
                row_offset: reconciled_offset(
                    old(self)@.selected,
                    old(self)@.row_offset,
                    height as int,
                ),
                ..old(self)@
            }),
            story_visible(final(self)@.selected, final(self)@.row_offset, height as int),
    {
        let story_rows = self.story_range();
        let visible = self.visible_range(height);
        self.row_offset = scroll_into_view(&visible, &story_rows, height);
    }
}

/// The width of the widest score of `stories`, or nothing where there is no
/// story.
pub fn widest(stories: &[Story]) -> (digits: Option<usize>)
    ensures
        digits is None <==> stories@.len() == 0,
        digits matches Some(d) ==> d == widest_score(stories@) && 1 <= d <= 11,
{
    if stories.len() == 0 {
        return None;
    }
    let mut best: usize = 0;
    let mut i: usize = 0;
    while i < stories.len()
        invariant
            i <= stories@.len(),
            best == widest_score(stories@.take(i as int)),
            i > 0 ==> 1 <= best <= 11,
        decreases stories@.len() - i,
    {
        assert(stories@.take(i + 1).drop_last() =~= stories@.take(i as int));
        let width = count_digits(stories[i].score);
        if width > best {
            best = width;
        }
        i += 1;
    }
    assert(stories@.take(i as int) =~= stories@);
    Some(best)
}

} // verus!
